//! Admin-token issuance and consumption.
//!
//! By default a token is single-use with a short lifetime.
//! [`AdminTokenStore::with_reusable`] keeps it valid across enrollments, and
//! [`AdminTokenStore::with_ttl`] with zero disables expiry.
//!
//! The store decides; the caller keeps the hash file in step with it.

use rand::RngCore;
use vstd::prelude::*;

use crate::error::ServerError;
use crate::paths::{path_in, FilePath};
use crate::proto::{ADMIN_TOKEN_RAW_LEN, ADMIN_TOKEN_TTL};

verus! {

/// The Crockford base32 text of `raw`, without padding.
pub uninterp spec fn crockford32(raw: Seq<u8>) -> Seq<char>;

/// The 32-byte BLAKE3 digest of `bytes`.
pub uninterp spec fn blake3_digest(bytes: Seq<u8>) -> Seq<u8>;

/// Calls `rand::rngs::OsRng.fill_bytes` on a buffer of the length of a raw
/// token. Nothing is claimed of the bytes: they are the operating system's random
/// source. Like the call itself, this does not return when that source fails.
#[verifier::external_body]
fn random_raw_token() -> (raw: [u8; ADMIN_TOKEN_RAW_LEN]) {
    let mut raw = [0u8; ADMIN_TOKEN_RAW_LEN];
    rand::rngs::OsRng.fill_bytes(&mut raw);
    raw
}

/// Calls `base32::encode` with the Crockford alphabet. Claims that the text is a
/// function of the bytes alone.
#[verifier::external_body]
fn encode_crockford32(raw: &[u8]) -> (text: String)
    ensures
        text@ == crockford32(raw@),
{
    base32::encode(base32::Alphabet::Crockford, raw)
}

/// Calls `blake3::hash`. Claims that the digest is a function of the bytes alone.
#[verifier::external_body]
fn hash_blake3(bytes: &[u8]) -> (digest: [u8; 32])
    ensures
        digest@ == blake3_digest(bytes@),
{
    *blake3::hash(bytes).as_bytes()
}

/// The digest under which a token is remembered: that of its UTF-8 bytes.
pub open spec fn token_digest(token: Seq<char>) -> Seq<u8> {
    blake3_digest(vstd::utf8::encode_utf8(token))
}

/// Whether `a` and `b` are the same bytes. Looks at every byte of slices of equal
/// length, whatever it finds.
pub fn constant_time_eq_public(a: &[u8], b: &[u8]) -> (r: bool)
    ensures
        r == (a@ == b@),
{
    if a.len() != b.len() {
        return false;
    }
    let mut diff: u8 = 0;
    proof {
        assert(a@.take(0) =~= b@.take(0));
    }
    for i in 0..a.len()
        invariant
            a@.len() == b@.len(),
            diff == 0 <==> a@.take(i as int) == b@.take(i as int),
    {
        let x = a[i];
        let y = b[i];
        let ghost before = diff;
        diff = diff | (x ^ y);
        proof {
            assert((before | (x ^ y)) == 0 <==> before == 0 && x == y) by (bit_vector);
            assert(a@.take(i + 1) =~= a@.take(i as int).push(x));
            assert(b@.take(i + 1) =~= b@.take(i as int).push(y));
            if a@.take(i + 1) == b@.take(i + 1) {
                assert(a@.take(i + 1).drop_last() =~= a@.take(i as int));
                assert(b@.take(i + 1).drop_last() =~= b@.take(i as int));
                assert(a@.take(i + 1).last() == x);
                assert(b@.take(i + 1).last() == y);
            }
        }
    }
    proof {
        assert(a@.take(a@.len() as int) =~= a@);
        assert(b@.take(b@.len() as int) =~= b@);
    }
    diff == 0
}

fn constant_time_eq(a: &[u8], b: &[u8]) -> (r: bool)
    ensures
        r == (a@ == b@),
{
    constant_time_eq_public(a, b)
}

struct TokenState {
    hash: [u8; 32],
    /// `None`: the token never expires.
    expires_at: Option<u128>,
}

/// The currently valid admin token, if there is one.
pub struct AdminTokenStore {
    data_dir: FilePath,
    reusable: bool,
    /// Nanoseconds; zero means no expiry.
    ttl: u128,
    state: Option<TokenState>,
}

/// A token in mathematics: its digest and its deadline.
pub struct TokenModel {
    pub hash: Seq<u8>,
    pub expires_at: Option<u128>,
}

/// The token store in mathematics.
pub struct AdminModel {
    pub data_dir: Seq<u8>,
    pub reusable: bool,
    pub ttl: u128,
    pub token: Option<TokenModel>,
}

impl View for AdminTokenStore {
    type V = AdminModel;

    closed spec fn view(&self) -> AdminModel {
        AdminModel {
            data_dir: self.data_dir@,
            reusable: self.reusable,
            ttl: self.ttl,
            token: match self.state {
                Some(state) => Some(
                    TokenModel { hash: state.hash@, expires_at: state.expires_at },
                ),
                None => None,
            },
        }
    }
}

impl TokenModel {
    /// Whether the token's time is up.
    pub open spec fn expired(self, now: u128) -> bool {
        self.expires_at matches Some(t) && now >= t
    }
}

impl AdminModel {
    /// The store with `token` in place of the current one.
    pub open spec fn with_token(self, token: Option<TokenModel>) -> AdminModel {
        AdminModel { token, ..self }
    }

    /// The store with a token of digest `hash` issued at `now`.
    pub open spec fn issued(self, hash: Seq<u8>, now: u128) -> AdminModel {
        self.with_token(
            Some(
                TokenModel {
                    hash,
                    expires_at: if self.ttl == 0 {
                        None
                    } else {
                        Some((now + self.ttl) as u128)
                    },
                },
            ),
        )
    }

    /// What presenting `token` at `now` ends in.
    pub open spec fn verdict(self, token: Seq<char>, now: u128) -> Verdict {
        self.verdict_on(token_digest(token), now)
    }

    /// What presenting a token of digest `digest` at `now` ends in.
    pub open spec fn verdict_on(self, digest: Seq<u8>, now: u128) -> Verdict {
        match self.token {
            None => Verdict::NotIssued,
            Some(t) => if t.expired(now) {
                Verdict::Expired
            } else if digest != t.hash {
                Verdict::Mismatch
            } else {
                Verdict::Accepted
            },
        }
    }

    /// The store after a token has met `verdict`.
    pub open spec fn after(self, verdict: Verdict) -> AdminModel {
        match verdict {
            Verdict::NotIssued | Verdict::Mismatch => self,
            Verdict::Expired => self.with_token(None),
            Verdict::Accepted => if self.reusable {
                self
            } else {
                self.with_token(None)
            },
        }
    }
}

/// What can become of a presented token.
pub enum Verdict {
    NotIssued,
    Expired,
    Mismatch,
    Accepted,
}

/// A token that has been drawn but not put into force, with its digest.
#[derive(Debug)]
pub struct PendingToken {
    token: String,
    hash: [u8; 32],
}

impl PendingToken {
    #[verifier::type_invariant]
    closed spec fn consistent(&self) -> bool {
        self.hash@ == token_digest(self.token@)
    }

    /// The user-facing form of the token.
    pub closed spec fn text(self) -> Seq<char> {
        self.token@
    }

    /// What is persisted of the token: its digest.
    pub fn hash(&self) -> (r: [u8; 32])
        ensures
            r@ == token_digest(self.text()),
    {
        proof {
            use_type_invariant(self);
        }
        self.hash
    }
}

/// What the caller does with the hash file.
#[derive(Clone, Copy, Debug, PartialEq, Eq, Structural)]
pub enum HashFile {
    Keep,
    Remove,
}

/// The answer to a presented token.
#[derive(Debug)]
pub struct Consumption {
    pub outcome: Result<(), ServerError>,
    pub hash_file: HashFile,
}

/// Whether `raw` are bytes that [`random_raw_token`] can have returned.
pub closed spec fn drawn(raw: [u8; ADMIN_TOKEN_RAW_LEN]) -> bool {
    call_ensures(random_raw_token, (), raw)
}

/// Draws a fresh random token. Its digest is to be persisted before the token is
/// put into force by [`AdminTokenStore::issue`].
pub fn draw_token() -> (p: PendingToken)
    ensures
        exists|raw: [u8; ADMIN_TOKEN_RAW_LEN]| #[trigger]
            drawn(raw) && p.text() == crockford32(raw@),
{
    let raw = random_raw_token();
    assert(drawn(raw));
    pending_token(&raw)
}

/// The token whose raw bytes are `raw`.
pub fn pending_token(raw: &[u8; ADMIN_TOKEN_RAW_LEN]) -> (p: PendingToken)
    ensures
        p.text() == crockford32(raw@),
{
    let token = encode_crockford32(raw.as_slice());
    let hash = hash_blake3(token.as_str().as_bytes());
    PendingToken { token, hash }
}

impl AdminTokenStore {
    /// A store without a token, for state kept in `data_dir`.
    #[must_use]
    pub fn new(data_dir: FilePath) -> (r: Self)
        ensures
            r@ == (AdminModel {
                data_dir: data_dir@,
                reusable: false,
                ttl: ADMIN_TOKEN_TTL,
                token: None,
            }),
    {
        AdminTokenStore { data_dir, reusable: false, ttl: ADMIN_TOKEN_TTL, state: None }
    }

    /// Overrides the lifetime of tokens, in nanoseconds. Zero disables expiry.
    #[must_use]
    pub fn with_ttl(self, ttl: u128) -> (r: Self)
        ensures
            r@ == (AdminModel { ttl, ..self@ }),
    {
        let mut this = self;
        this.ttl = ttl;
        this
    }

    /// Makes tokens reusable: they are verified but not invalidated.
    #[must_use]
    pub fn with_reusable(self, reusable: bool) -> (r: Self)
        ensures
            r@ == (AdminModel { reusable, ..self@ }),
    {
        let mut this = self;
        this.reusable = reusable;
        this
    }

    /// Puts a drawn token into force, in place of any earlier one. Returns the
    /// token in its user-facing form.
    pub fn issue(&mut self, pending: PendingToken, now: u128) -> (token: String)
        requires
            now + old(self)@.ttl <= u128::MAX,
        ensures
            token@ == pending.text(),
            final(self)@ == old(self)@.issued(token_digest(pending.text()), now),
    {
        proof {
            use_type_invariant(&pending);
        }
        let expires_at: Option<u128> = if self.ttl == 0 {
            None
        } else {
            Some(now + self.ttl)
        };
        self.state = Some(TokenState { hash: pending.hash, expires_at });
        pending.token
    }

    /// Whether the store goes from `before` to `after` on `verdict`, and `r` says so.
    pub open spec fn answers(
        before: AdminModel,
        after: AdminModel,
        verdict: Verdict,
        r: Consumption,
    ) -> bool {
        &&& after == before.after(verdict)
        &&& match verdict {
            Verdict::NotIssued => r.outcome matches Err(e) && e.is_admin_token(
                "no admin token issued"@,
            ),
            Verdict::Expired => r.outcome matches Err(e) && e.is_admin_token(
                "admin token expired"@,
            ),
            Verdict::Mismatch => r.outcome matches Err(e) && e.is_admin_token(
                "admin token mismatch"@,
            ),
            Verdict::Accepted => r.outcome is Ok,
        }
        &&& r.hash_file == (if before.token is Some && after.token is None {
            HashFile::Remove
        } else {
            HashFile::Keep
        })
    }

    /// Verifies `presented` against the token in force.
    ///
    /// On success the token is invalidated, unless the store keeps tokens reusable.
    /// A token found expired is invalidated too. The hash file goes exactly when
    /// the token does.
    pub fn consume(&mut self, presented: &str, now: u128) -> (r: Consumption)
        ensures
            Self::answers(
                old(self)@,
                final(self)@,
                old(self)@.verdict(presented@, now),
                r,
            ),
    {
        let candidate = hash_blake3(presented.as_bytes());
        self.consume_digest(&candidate, now)
    }

    /// Like [`Self::consume`], for a token of which only the digest is at hand.
    pub fn consume_digest(&mut self, candidate: &[u8; 32], now: u128) -> (r: Consumption)
        ensures
            Self::answers(
                old(self)@,
                final(self)@,
                old(self)@.verdict_on(candidate@, now),
                r,
            ),
    {
        match &self.state {
            None => {
                return Consumption {
                    outcome: Err(ServerError::AdminToken("no admin token issued")),
                    hash_file: HashFile::Keep,
                };
            },
            Some(state) => {
                let expired = match state.expires_at {
                    Some(t) => now >= t,
                    None => false,
                };
                if expired {
                    self.state = None;
                    return Consumption {
                        outcome: Err(ServerError::AdminToken("admin token expired")),
                        hash_file: HashFile::Remove,
                    };
                }
                if !constant_time_eq(candidate.as_slice(), state.hash.as_slice()) {
                    return Consumption {
                        outcome: Err(ServerError::AdminToken("admin token mismatch")),
                        hash_file: HashFile::Keep,
                    };
                }
            },
        }
        if self.reusable {
            return Consumption { outcome: Ok(()), hash_file: HashFile::Keep };
        }
        self.state = None;
        Consumption { outcome: Ok(()), hash_file: HashFile::Remove }
    }

    /// Whether a token is in force. One past its deadline still counts until
    /// somebody presents a token.
    pub fn is_active(&self) -> (r: bool)
        ensures
            r == (self@.token is Some),
    {
        self.state.is_some()
    }

    /// Where the digest of the token in force is persisted.
    pub fn hash_path(&self) -> (r: FilePath)
        ensures
            r@ == path_in(self@.data_dir, "admin_token.hash"@),
    {
        self.data_dir.file("admin_token.hash")
    }
}

/// A token is accepted from the moment it is put into force until its time is up,
/// and for ever if the store's lifetime is zero.
pub proof fn an_issued_token_is_accepted(
    store: AdminModel,
    token: Seq<char>,
    issued_at: u128,
    now: u128,
)
    requires
        issued_at + store.ttl <= u128::MAX,
        store.ttl == 0 || now < issued_at + store.ttl,
    ensures
        store.issued(token_digest(token), issued_at).verdict(token, now) is Accepted,
{
}

/// Past its time a token is refused, and forgotten.
pub proof fn an_overdue_token_is_refused(
    store: AdminModel,
    token: Seq<char>,
    presented: Seq<char>,
    issued_at: u128,
    now: u128,
)
    requires
        store.ttl > 0,
        issued_at + store.ttl <= now,
    ensures
        store.issued(token_digest(token), issued_at).verdict(presented, now) is Expired,
        store.issued(token_digest(token), issued_at).after(Verdict::Expired).token is None,
{
}

/// A text with another digest than the token's is refused, and the token stays in
/// force.
pub proof fn a_wrong_token_changes_nothing(
    store: AdminModel,
    token: Seq<char>,
    presented: Seq<char>,
    issued_at: u128,
    now: u128,
)
    requires
        issued_at + store.ttl <= u128::MAX,
        store.ttl == 0 || now < issued_at + store.ttl,
        token_digest(presented) != token_digest(token),
    ensures
        ({
            let issued = store.issued(token_digest(token), issued_at);
            &&& issued.verdict(presented, now) is Mismatch
            &&& issued.after(issued.verdict(presented, now)) == issued
        }),
{
}

/// A new token takes the place of the earlier ones: it is the one accepted, and one
/// issued before is refused without harm to it. Left out are two tokens whose
/// digests happen to agree.
pub proof fn a_new_token_shuts_out_the_earlier(
    store: AdminModel,
    earlier: Seq<u8>,
    earlier_at: u128,
    raw: Seq<u8>,
    issued_at: u128,
    now: u128,
)
    requires
        issued_at + store.ttl <= u128::MAX,
        store.ttl == 0 || now < issued_at + store.ttl,
        token_digest(crockford32(earlier)) != token_digest(crockford32(raw)),
    ensures
        ({
            let before = store.issued(token_digest(crockford32(earlier)), earlier_at);
            let issued = before.issued(token_digest(crockford32(raw)), issued_at);
            &&& issued.verdict(crockford32(raw), now) is Accepted
            &&& issued.verdict(crockford32(earlier), now) is Mismatch
            &&& issued.after(Verdict::Mismatch) == issued
        }),
{
}

/// Unless tokens are reusable, one that has been accepted is spent: nothing is
/// accepted until a token is issued again.
pub proof fn an_accepted_token_is_spent(
    store: AdminModel,
    token: Seq<char>,
    now: u128,
    presented: Seq<char>,
    later: u128,
)
    requires
        !store.reusable,
        store.verdict(token, now) is Accepted,
    ensures
        store.after(store.verdict(token, now)).token is None,
        store.after(store.verdict(token, now)).verdict(presented, later) is NotIssued,
{
}

/// A reusable token that has been accepted is accepted again as long as its time
/// is not up.
pub proof fn a_reusable_token_stays_valid(
    store: AdminModel,
    token: Seq<char>,
    now: u128,
    later: u128,
)
    requires
        store.reusable,
        store.verdict(token, now) is Accepted,
        !store.token->0.expired(later),
    ensures
        store.after(store.verdict(token, now)) == store,
        store.after(store.verdict(token, now)).verdict(token, later) is Accepted,
{
}

/// A drawn token is the text of bytes that the random source has given.
proof fn a_drawn_token_is_random(p: PendingToken)
    requires
        call_ensures(draw_token, (), p),
    ensures
        exists|raw: [u8; ADMIN_TOKEN_RAW_LEN]| #[trigger]
            call_ensures(random_raw_token, (), raw) && p.text() == crockford32(raw@),
{
    let raw = choose|raw: [u8; ADMIN_TOKEN_RAW_LEN]| #[trigger]
        drawn(raw) && p.text() == crockford32(raw@);
    assert(call_ensures(random_raw_token, (), raw));
}

} // verus!
