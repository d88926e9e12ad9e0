use krot_server::admin::{
    constant_time_eq_public, draw_token, pending_token, AdminTokenStore, Consumption, HashFile,
};
use krot_server::error::ServerError;
use krot_server::paths::FilePath;

const SECOND: u128 = 1_000_000_000;

fn reason(c: Consumption) -> &'static str {
    match c.outcome {
        Err(ServerError::AdminToken(why)) => why,
        other => panic!("unexpected outcome: {other:?}"),
    }
}

#[test]
fn issue_and_consume_roundtrip() {
    let mut store = AdminTokenStore::new(FilePath::from_text("/tmp/state"));
    let token = store.issue(draw_token(), 0);
    assert!(store.is_active());
    let c = store.consume(&token, SECOND);
    c.outcome.unwrap();
    assert_eq!(c.hash_file, HashFile::Remove);
    assert!(!store.is_active());
}

#[test]
fn double_consume_rejected() {
    let mut store = AdminTokenStore::new(FilePath::from_text("/tmp/state"));
    let token = store.issue(draw_token(), 0);
    store.consume(&token, SECOND).outcome.unwrap();
    let again = store.consume(&token, SECOND);
    assert!(again.outcome.is_err());
    assert_eq!(reason(again), "no admin token issued");
}

#[test]
fn wrong_token_rejected() {
    let mut store = AdminTokenStore::new(FilePath::from_text("/tmp/state"));
    let _real = store.issue(draw_token(), 0);
    let c = store.consume("WRONG", SECOND);
    assert!(c.outcome.is_err());
    assert_eq!(c.hash_file, HashFile::Keep);
    assert_eq!(reason(c), "admin token mismatch");
    assert!(store.is_active()); // still active until real token or expiry
}

#[test]
fn reusable_token_survives_consume() {
    let mut store = AdminTokenStore::new(FilePath::from_text("/tmp/state")).with_reusable(true);
    let token = store.issue(draw_token(), 0);
    store.consume(&token, SECOND).outcome.unwrap();
    let second = store.consume(&token, 2 * SECOND);
    second.outcome.unwrap();
    assert!(store.is_active());
    assert_eq!(second.hash_file, HashFile::Keep);
}

#[test]
fn zero_ttl_token_never_expires() {
    let mut store = AdminTokenStore::new(FilePath::from_text("/tmp/state"))
        .with_ttl(0)
        .with_reusable(true);
    let token = store.issue(draw_token(), 0);
    // Far past the default lifetime; a token of a zero lifetime has no deadline.
    store.consume(&token, 1_000_000 * SECOND).outcome.unwrap();
    store.consume(&token, u128::MAX).outcome.unwrap();
    assert!(store.is_active());
}

#[test]
fn default_ttl_is_ten_minutes() {
    let mut store = AdminTokenStore::new(FilePath::from_text("/tmp/state")).with_reusable(true);
    let token = store.issue(draw_token(), 5);
    assert!(store.consume(&token, 5 + 600 * SECOND - 1).outcome.is_ok());
    let late = store.consume(&token, 5 + 600 * SECOND);
    assert_eq!(late.hash_file, HashFile::Remove);
    assert_eq!(reason(late), "admin token expired");
    assert!(!store.is_active());
}

#[test]
fn expired_beats_mismatch() {
    let mut store = AdminTokenStore::new(FilePath::from_text("/tmp/state")).with_ttl(10);
    store.issue(draw_token(), 0);
    assert_eq!(reason(store.consume("WRONG", 10)), "admin token expired");
}

#[test]
fn nothing_issued_is_refused() {
    let mut store = AdminTokenStore::new(FilePath::from_text("/tmp/state"));
    let c = store.consume("ANY", 0);
    assert_eq!(c.hash_file, HashFile::Keep);
    assert_eq!(reason(c), "no admin token issued");
}

#[test]
fn issuing_again_replaces_the_token() {
    let mut store = AdminTokenStore::new(FilePath::from_text("/tmp/state"));
    let first = store.issue(draw_token(), 0);
    let second = store.issue(draw_token(), 0);
    assert_ne!(first, second);
    assert_eq!(reason(store.consume(&first, 1)), "admin token mismatch");
    assert!(store.consume(&second, 1).outcome.is_ok());
}

#[test]
fn token_text_is_unpadded_crockford() {
    let mut store = AdminTokenStore::new(FilePath::from_text("/tmp/state"));
    // 20 zero bytes are 32 digits of five bits each.
    let zeros = store.issue(pending_token(&[0u8; 20]), 0);
    assert_eq!(zeros, "0".repeat(32));
    let ones = store.issue(pending_token(&[0xffu8; 20]), 0);
    assert_eq!(ones, "Z".repeat(32));
}

#[test]
fn digest_is_blake3_of_the_text() {
    let pending = pending_token(&[0u8; 20]);
    let expected = blake3::hash("0".repeat(32).as_bytes());
    assert_eq!(&pending.hash(), expected.as_bytes());
    assert_ne!(&pending.hash()[..20], &[0u8; 20][..]);
}

#[test]
fn digest_alone_is_enough() {
    let mut store = AdminTokenStore::new(FilePath::from_text("/tmp/state"));
    let pending = pending_token(&[7u8; 20]);
    let digest = pending.hash();
    store.issue(pending, 0);
    assert_eq!(reason(store.consume_digest(&[0u8; 32], 1)), "admin token mismatch");
    assert!(store.consume_digest(&digest, 1).outcome.is_ok());
}

#[test]
fn tokens_are_random() {
    let mut a = AdminTokenStore::new(FilePath::from_text("a"));
    let mut b = AdminTokenStore::new(FilePath::from_text("b"));
    assert_ne!(a.issue(draw_token(), 0), b.issue(draw_token(), 0));
}

#[test]
fn hash_file_lies_in_the_data_dir() {
    let store = AdminTokenStore::new(FilePath::from_text("/var/lib/krot"));
    let path = |text: &str| FilePath::from_text(text);
    assert_eq!(store.hash_path(), path("/var/lib/krot/admin_token.hash"));
    assert_eq!(AdminTokenStore::new(path("/")).hash_path(), path("/admin_token.hash"));
    assert_eq!(AdminTokenStore::new(path("")).hash_path(), path("admin_token.hash"));
    // A directory whose name is no UTF-8 text.
    let odd = FilePath::from_bytes(vec![b'/', 0xff]);
    assert_eq!(
        AdminTokenStore::new(odd).hash_path().as_bytes(),
        b"/\xff/admin_token.hash"
    );
}

#[test]
fn comparison_sees_every_byte() {
    assert!(constant_time_eq_public(b"", b""));
    assert!(constant_time_eq_public(b"abc", b"abc"));
    assert!(!constant_time_eq_public(b"abc", b"abd"));
    assert!(!constant_time_eq_public(b"xbc", b"abc"));
    assert!(!constant_time_eq_public(b"abc", b"abcd"));
}
