//! The life of an admin token, on the store's fields.

use vstd::prelude::*;
use vstd::utf8::encode_utf8;

use crate::admin::{
    blake3_digest, constant_time_eq_public, crockford32, draw_token, pending_token,
    AdminTokenStore, Consumption, HashFile, PendingToken,
};
use crate::config::ServerConfig;
use crate::error::ServerError;
use crate::paths::FilePath;
use crate::proto::ADMIN_TOKEN_RAW_LEN;
use crate::server::SharedState;

verus! {

/// A new store holds no token, for its directory, and its tokens are good for one use
/// within ten minutes. Lifetime and reusability are what was set last, each on its own.
pub proof fn a_store_is_as_configured(
    data_dir: FilePath,
    new: AdminTokenStore,
    ttl: u128,
    timed: AdminTokenStore,
    reusable: bool,
    set: AdminTokenStore,
)
    requires
        call_ensures(AdminTokenStore::new, (data_dir,), new),
        call_ensures(AdminTokenStore::with_ttl, (new, ttl), timed),
        call_ensures(AdminTokenStore::with_reusable, (timed, reusable), set),
    ensures
        new@.token is None,
        new@.data_dir == data_dir@,
        !new@.reusable,
        new@.ttl == 600 * 1_000_000_000,
        set@.token is None,
        set@.data_dir == data_dir@,
        set@.ttl == ttl,
        set@.reusable == reusable,
        timed@.ttl == ttl,
        timed@.reusable == new@.reusable,
{
}

/// Issuing puts the drawn token into force: remembered by its digest, until the store's
/// lifetime has passed, or for ever if that is zero. Earlier tokens are forgotten.
pub proof fn issuing_puts_a_token_into_force(
    store: &mut AdminTokenStore,
    pending: PendingToken,
    now: u128,
    token: String,
    active: bool,
)
    requires
        call_ensures(AdminTokenStore::issue, (store, pending, now), token),
        now + old(store)@.ttl <= u128::MAX,
        call_ensures(AdminTokenStore::is_active, (final(store),), active),
    ensures
        token@ == pending.text(),
        active,
        final(store)@.data_dir == old(store)@.data_dir,
        final(store)@.reusable == old(store)@.reusable,
        final(store)@.ttl == old(store)@.ttl,
        final(store)@.token matches Some(t) && {
            &&& t.hash == blake3_digest(encode_utf8(token@))
            &&& t.expires_at is None <==> old(store)@.ttl == 0
            &&& t.expires_at matches Some(end) ==> end == now + old(store)@.ttl
        },
{
}

/// A presented token is accepted exactly if one is in force, its time is not up, and
/// the digests agree. An accepted token is spent unless tokens are reusable; an overdue
/// one is forgotten; a refusal for any other reason changes nothing. The hash file goes
/// with the token.
pub proof fn a_presented_token_is_judged(
    store: &mut AdminTokenStore,
    presented: &str,
    now: u128,
    r: Consumption,
)
    requires
        call_ensures(AdminTokenStore::consume, (store, presented, now), r),
    ensures
        final(store)@.data_dir == old(store)@.data_dir,
        final(store)@.reusable == old(store)@.reusable,
        final(store)@.ttl == old(store)@.ttl,
        r.hash_file == HashFile::Remove <==> old(store)@.token is Some && final(store)@.token
            is None,
        old(store)@.token is None ==> {
            &&& r.outcome matches Err(ServerError::AdminToken(why))
            &&& why@ == "no admin token issued"@
            &&& final(store)@.token is None
        },
        old(store)@.token matches Some(t) ==> {
            let overdue = t.expires_at matches Some(end) && end <= now;
            let fits = blake3_digest(encode_utf8(presented@)) == t.hash;
            &&& overdue ==> {
                &&& r.outcome matches Err(ServerError::AdminToken(why))
                &&& why@ == "admin token expired"@
                &&& final(store)@.token is None
            }
            &&& !overdue && !fits ==> {
                &&& r.outcome matches Err(ServerError::AdminToken(why))
                &&& why@ == "admin token mismatch"@
                &&& final(store)@.token == Some(t)
            }
            &&& !overdue && fits ==> {
                &&& r.outcome is Ok
                &&& old(store)@.reusable ==> final(store)@.token == Some(t)
                &&& !old(store)@.reusable ==> final(store)@.token is None
            }
        },
{
}

/// A token of which only the digest is at hand is judged as the token would be.
pub proof fn a_digest_is_judged_as_its_token(
    by_text: &mut AdminTokenStore,
    by_digest: &mut AdminTokenStore,
    presented: &str,
    digest: &[u8; 32],
    now: u128,
    r: Consumption,
    s: Consumption,
)
    requires
        *old(by_text) == *old(by_digest),
        digest@ == blake3_digest(encode_utf8(presented@)),
        call_ensures(AdminTokenStore::consume, (by_text, presented, now), r),
        call_ensures(AdminTokenStore::consume_digest, (by_digest, digest, now), s),
    ensures
        final(by_text)@ == final(by_digest)@,
        r.outcome is Ok <==> s.outcome is Ok,
        r.hash_file == s.hash_file,
        r.outcome matches Err(ServerError::AdminToken(why)) ==> (
        s.outcome matches Err(ServerError::AdminToken(too)) && why@ == too@),
{
}

/// What was issued is accepted as long as its time is not up, and refused after.
pub proof fn a_token_lasts_its_lifetime(
    issued: &mut AdminTokenStore,
    consumed: &mut AdminTokenStore,
    pending: PendingToken,
    issued_at: u128,
    token: String,
    presented: &str,
    now: u128,
    r: Consumption,
)
    requires
        call_ensures(AdminTokenStore::issue, (issued, pending, issued_at), token),
        issued_at + old(issued)@.ttl <= u128::MAX,
        *old(consumed) == *final(issued),
        presented@ == token@,
        call_ensures(AdminTokenStore::consume, (consumed, presented, now), r),
    ensures
        r.outcome is Ok <==> old(issued)@.ttl == 0 || now < issued_at + old(issued)@.ttl,
{
}

/// A server starts with a store for its data directory, without a token, whose tokens
/// are reusable exactly if the configuration says so and live as many seconds as it
/// says.
pub proof fn the_first_store_is_as_configured<C, A, L, R>(
    config: ServerConfig,
    state: SharedState<C, A, L, R>,
)
    requires
        call_ensures(SharedState::<C, A, L, R>::new, (config,), state),
    ensures
        state.admin@.token is None,
        state.admin@.data_dir == config.data_dir@,
        state.admin@.reusable <==> config.admin_token_reusable,
        state.admin@.ttl == config.admin_token_ttl_secs * 1_000_000_000,
{
}

/// Unless the configuration makes tokens reusable, a token that a started server has
/// issued and accepted once is refused as not issued from then on, and its file is
/// removed. If it does, the token stays in force until its time is up.
pub proof fn a_started_server_takes_a_token_once<C, A, L, R>(
    config: ServerConfig,
    state: SharedState<C, A, L, R>,
    issued: &mut AdminTokenStore,
    first: &mut AdminTokenStore,
    second: &mut AdminTokenStore,
    pending: PendingToken,
    issued_at: u128,
    token: String,
    presented: &str,
    once: u128,
    r: Consumption,
    again: u128,
    s: Consumption,
)
    requires
        call_ensures(SharedState::<C, A, L, R>::new, (config,), state),
        *old(issued) == state.admin,
        call_ensures(AdminTokenStore::issue, (issued, pending, issued_at), token),
        issued_at + config.admin_token_ttl_secs * 1_000_000_000 <= u128::MAX,
        presented@ == token@,
        *old(first) == *final(issued),
        call_ensures(AdminTokenStore::consume, (first, presented, once), r),
        *old(second) == *final(first),
        call_ensures(AdminTokenStore::consume, (second, presented, again), s),
        r.outcome is Ok,
    ensures
        !config.admin_token_reusable ==> {
            &&& r.hash_file == HashFile::Remove
            &&& s.outcome matches Err(ServerError::AdminToken(why))
            &&& why@ == "no admin token issued"@
        },
        config.admin_token_reusable ==> {
            &&& r.hash_file == HashFile::Keep
            &&& s.outcome is Ok <==> config.admin_token_ttl_secs == 0 || again < issued_at
                + config.admin_token_ttl_secs * 1_000_000_000
        },
{
    the_first_store_is_as_configured(config, state);
}

/// A token is the text of its raw bytes, and what is persisted of it is the digest of
/// that text.
pub proof fn a_token_is_the_text_of_its_bytes(
    raw: &[u8; ADMIN_TOKEN_RAW_LEN],
    p: PendingToken,
    hash: [u8; 32],
)
    requires
        call_ensures(pending_token, (raw,), p),
        call_ensures(PendingToken::hash, (&p,), hash),
    ensures
        p.text() == crockford32(raw@),
        hash@ == blake3_digest(encode_utf8(crockford32(raw@))),
{
}

/// A drawn token is the text of as many raw bytes as a token has.
pub proof fn a_drawn_token_has_its_length(p: PendingToken) -> (raw: Seq<u8>)
    requires
        call_ensures(draw_token, (), p),
    ensures
        p.text() == crockford32(raw),
        raw.len() == 20,
{
    let raw = choose|raw: [u8; ADMIN_TOKEN_RAW_LEN]| #[trigger]
        crate::admin::drawn(raw) && p.text() == crockford32(raw@);
    raw@
}

/// The digest is kept in the data directory, whatever the directory is called.
pub proof fn the_hash_file_is_in_the_data_directory(store: &AdminTokenStore, path: FilePath)
    requires
        call_ensures(AdminTokenStore::hash_path, (store,), path),
    ensures
        store@.data_dir.is_prefix_of(path@),
        encode_utf8("admin_token.hash"@).is_suffix_of(path@),
        path@.len() <= store@.data_dir.len() + 1 + encode_utf8("admin_token.hash"@).len(),
{
    let name = encode_utf8("admin_token.hash"@);
    assert(path@.take(store@.data_dir.len() as int) =~= store@.data_dir);
    assert(path@.skip(path@.len() - name.len()) =~= name);
}

/// Two byte strings are found equal exactly if they are as long and agree everywhere.
pub proof fn equality_looks_at_every_byte(a: &[u8], b: &[u8], r: bool)
    requires
        call_ensures(constant_time_eq_public, (a, b), r),
    ensures
        r <==> a@.len() == b@.len() && forall|i: int|
            0 <= i < a@.len() ==> #[trigger] a@[i] == b@[i],
{
    if a@.len() == b@.len() && forall|i: int| 0 <= i < a@.len() ==> #[trigger] a@[i] == b@[i] {
        assert(a@ =~= b@);
    }
}

} // verus!
