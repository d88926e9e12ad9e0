//! ACME HTTP-01: the challenge responses on offer, the steps of an issuance, and
//! whether a cached certificate can be used again.

use vstd::hash_map::StringHashMap;
use vstd::prelude::*;

use crate::config::DomainTls;
use crate::error::ServerError;
use crate::pem::{
    blocks_decoded, blocks_of, chain_of, key_decoded, key_from_pem, key_of, parse_cert_chain,
};
use crate::text::join2;

verus! {

/// How often the certificate is asked for before giving up.
pub const POLL_ATTEMPTS: usize = 60;

/// Days before its end at which a cached certificate counts as stale.
pub const RENEWAL_THRESHOLD_DAYS: i64 = 30;

/// The responses that the HTTP-01 responder serves, by token.
pub struct ChallengeStore {
    responses: StringHashMap<String>,
}

impl View for ChallengeStore {
    type V = Map<Seq<char>, Seq<char>>;

    closed spec fn view(&self) -> Map<Seq<char>, Seq<char>> {
        self.responses@.map_values(|response: String| response@)
    }
}

/// A store that offers nothing.
#[must_use]
pub fn new_store() -> (r: ChallengeStore)
    ensures
        r@ == Map::<Seq<char>, Seq<char>>::empty(),
{
    let r = ChallengeStore { responses: StringHashMap::new() };
    assert(r@ =~= Map::<Seq<char>, Seq<char>>::empty());
    r
}

/// The response stored for `token`.
pub fn lookup_challenge(store: &ChallengeStore, token: &str) -> (r: Option<String>)
    ensures
        match r {
            Some(response) => store@.contains_key(token@) && response@ == store@[token@],
            None => !store@.contains_key(token@),
        },
{
    match store.responses.get(token) {
        Some(response) => Some(response.clone()),
        None => None,
    }
}

impl ChallengeStore {
    /// Offers `response` for `token`, in place of any earlier response.
    pub fn insert(&mut self, token: String, response: String)
        ensures
            final(self)@ == old(self)@.insert(token@, response@),
    {
        self.responses.insert(token, response);
        assert(self@ =~= old(self)@.insert(token@, response@));
    }

    /// Offers nothing any more.
    pub fn clear(&mut self)
        ensures
            final(self)@ == Map::<Seq<char>, Seq<char>>::empty(),
    {
        self.responses.clear();
        assert(self@ =~= Map::<Seq<char>, Seq<char>>::empty());
    }
}

/// The end of validity of the X.509 certificate `der`, in seconds since the Unix
/// epoch, or the parser's words on why there is none.
pub uninterp spec fn certificate_end(der: Seq<u8>) -> Result<i64, Seq<char>>;

/// Calls `x509_parser::parse_x509_certificate` and reads the timestamp of
/// `notAfter`. Claims that this timestamp, or the text of the error, is a function
/// of the bytes alone.
#[verifier::external_body]
fn parse_certificate_end(der: &[u8]) -> (r: Result<i64, String>)
    ensures
        match certificate_end(der@) {
            Ok(end) => r == Ok::<i64, String>(end),
            Err(words) => r matches Err(e) && e@ == words,
        },
{
    match x509_parser::parse_x509_certificate(der) {
        Ok((_, certificate)) => Ok(certificate.validity().not_after.timestamp()),
        Err(e) => Err(e.to_string()),
    }
}

/// Whether `secs` since the Unix epoch lies in the years -9999 to 9999.
pub open spec fn in_calendar(secs: int) -> bool {
    -377_705_116_800 <= secs <= 253_402_300_799
}

/// Calls `time::OffsetDateTime::from_unix_timestamp`. Claims that it succeeds
/// exactly for the seconds of the years -9999 to 9999, its range without the
/// feature `large-dates`.
#[verifier::external_body]
fn is_in_calendar(secs: i64) -> (r: bool)
    ensures
        r == in_calendar(secs as int),
{
    time::OffsetDateTime::from_unix_timestamp(secs).is_ok()
}

/// An instant in UTC: whole seconds since the Unix epoch, and nanoseconds.
#[derive(Clone, Copy, Debug, PartialEq, Eq, Structural)]
pub struct UtcInstant {
    pub secs: i64,
    pub nanos: u32,
}

impl UtcInstant {
    /// Whether this is an instant of the calendar.
    pub open spec fn wf(self) -> bool {
        in_calendar(self.secs as int) && self.nanos < 1_000_000_000
    }
}

/// Calls `time::OffsetDateTime::now_utc`. Claims of the current time only that it
/// is an instant of the calendar.
#[verifier::external_body]
fn utc_now() -> (now: UtcInstant)
    ensures
        now.wf(),
{
    let now = time::OffsetDateTime::now_utc();
    UtcInstant { secs: now.unix_timestamp(), nanos: now.nanosecond() }
}

/// Whether `now` is a moment that [`utc_now`] can have returned.
pub closed spec fn on_the_clock(now: UtcInstant) -> bool {
    call_ensures(utc_now, (), now)
}

/// Whether `end` is at least `days` days after `now`, to the nanosecond.
pub open spec fn days_left(end: i64, now: UtcInstant, days: i64) -> bool {
    end * 1_000_000_000 >= (now.secs + days * 86_400) * 1_000_000_000 + now.nanos
}

/// Whether a certificate that is valid until `end` is fresh at `now`, or what is
/// wrong with it.
pub open spec fn fresh_until(
    end: Result<i64, Seq<char>>,
    days: i64,
    now: UtcInstant,
    r: Result<bool, ServerError>,
) -> bool {
    match end {
        Err(words) => r matches Err(e) && e.is_keys("cert parse: "@ + words),
        Ok(secs) => if in_calendar(secs as int) {
            r == Ok::<bool, ServerError>(days_left(secs, now, days))
        } else {
            r matches Err(e) && e.is_keys("bad notAfter timestamp"@)
        },
    }
}

/// Whether a certificate is still fresh at `now`, or what is wrong with it.
pub open spec fn freshness(
    der: Seq<u8>,
    days: i64,
    now: UtcInstant,
    r: Result<bool, ServerError>,
) -> bool {
    fresh_until(certificate_end(der), days, now, r)
}

/// The largest number of days that fits into a duration of whole seconds.
pub const MAX_DAYS: i64 = 106_751_991_167_300;

/// Whether a certificate is fresh at `now`, given the end of its validity in
/// seconds since the Unix epoch or the words on why there is none.
pub fn end_is_fresh(end: Result<i64, String>, threshold_days: i64, now: UtcInstant) -> (r: Result<
    bool,
    ServerError,
>)
    requires
        now.nanos < 1_000_000_000,
        -MAX_DAYS <= threshold_days <= MAX_DAYS,
    ensures
        match end {
            Ok(secs) => fresh_until(Ok(secs), threshold_days, now, r),
            Err(words) => fresh_until(Err(words@), threshold_days, now, r),
        },
{
    let end: i64 = match end {
        Ok(secs) => secs,
        Err(words) => {
            return Err(ServerError::Keys(join2("cert parse: ", words.as_str())));
        },
    };
    if !is_in_calendar(end) {
        return Err(ServerError::Keys(String::from_str("bad notAfter timestamp")));
    }
    let threshold: i128 = now.secs as i128 + (threshold_days as i128) * 86_400;
    let end: i128 = end as i128;
    Ok(end > threshold || (end == threshold && now.nanos == 0))
}

/// Whether the certificate `cert_der` is valid for at least `threshold_days` days
/// past `now`.
pub fn cert_fresh_at(cert_der: &[u8], threshold_days: i64, now: UtcInstant) -> (r: Result<
    bool,
    ServerError,
>)
    requires
        now.nanos < 1_000_000_000,
        -MAX_DAYS <= threshold_days <= MAX_DAYS,
    ensures
        freshness(cert_der@, threshold_days, now, r),
{
    end_is_fresh(parse_certificate_end(cert_der), threshold_days, now)
}

/// Whether the certificate `cert_der` is valid for at least `threshold_days` days
/// from this moment.
pub fn cert_still_fresh(cert_der: &[u8], threshold_days: i64) -> (r: Result<bool, ServerError>)
    requires
        -MAX_DAYS <= threshold_days <= MAX_DAYS,
    ensures
        exists|now: UtcInstant|
            now.wf() && on_the_clock(now) && #[trigger] freshness(
                cert_der@,
                threshold_days,
                now,
                r,
            ),
{
    let now = utc_now();
    assert(on_the_clock(now));
    cert_fresh_at(cert_der, threshold_days, now)
}

/// A certificate chain and its private key, in DER.
#[derive(Debug)]
pub struct CertifiedKey {
    pub chain: Vec<Vec<u8>>,
    pub key: Vec<u8>,
}

/// What the cached files are good for at `now`: the pair, nothing, or an error.
/// A chain that cannot be read is as good as none.
pub open spec fn reuses(
    cert_pem: Option<Seq<char>>,
    key_pem: Option<Seq<char>>,
    now: UtcInstant,
    r: Result<Option<CertifiedKey>, ServerError>,
) -> bool {
    match (cert_pem, key_pem) {
        (Some(cert), Some(key)) => {
            exists|
                chain: Result<Vec<Vec<u8>>, ServerError>,
                fresh: Result<bool, ServerError>,
                der: Result<Vec<u8>, ServerError>,
            |
                #![trigger cached_verdict(chain, fresh, der, r)]
                {
                    &&& chain_of(blocks_decoded(blocks_of(cert)), chain)
                    &&& chain matches Ok(c) ==> freshness(c@[0]@, RENEWAL_THRESHOLD_DAYS, now, fresh)
                    &&& key_of(key_decoded(key), der)
                    &&& cached_verdict(chain, fresh, der, r)
                }
        },
        _ => r == Ok::<Option<CertifiedKey>, ServerError>(None),
    }
}

/// The verdict on cached files, given what was read of them: the chain, whether
/// its first certificate is fresh, and the key.
pub open spec fn cached_verdict(
    chain: Result<Vec<Vec<u8>>, ServerError>,
    fresh: Result<bool, ServerError>,
    key: Result<Vec<u8>, ServerError>,
    r: Result<Option<CertifiedKey>, ServerError>,
) -> bool {
    match chain {
        Err(_) => r == Ok::<Option<CertifiedKey>, ServerError>(None),
        Ok(chain) => match (fresh, key) {
            (Err(e), _) => r == Err::<Option<CertifiedKey>, ServerError>(e),
            (Ok(false), _) => r == Ok::<Option<CertifiedKey>, ServerError>(None),
            (Ok(true), Err(e)) => r == Err::<Option<CertifiedKey>, ServerError>(e),
            (Ok(true), Ok(key)) => r == Ok::<Option<CertifiedKey>, ServerError>(
                Some(CertifiedKey { chain, key }),
            ),
        },
    }
}

/// The verdict on a readable chain, given whether its first certificate is fresh,
/// and on the key.
pub fn judge_cached(
    chain: Vec<Vec<u8>>,
    fresh: Result<bool, ServerError>,
    key: Result<Vec<u8>, ServerError>,
) -> (r: Result<Option<CertifiedKey>, ServerError>)
    ensures
        cached_verdict(Ok(chain), fresh, key, r),
{
    match fresh {
        Err(e) => Err(e),
        Ok(false) => Ok(None),
        Ok(true) => match key {
            Ok(key) => Ok(Some(CertifiedKey { chain, key })),
            Err(e) => Err(e),
        },
    }
}

/// The characters of an optional text.
pub open spec fn text_of(s: Option<&str>) -> Option<Seq<char>> {
    match s {
        Some(s) => Some(s@),
        None => None,
    }
}

/// Decides at `now` whether the cached certificate and key can be used again.
/// `None` stands for a file that does not exist.
pub fn load_cached_at(cert_pem: Option<&str>, key_pem: Option<&str>, now: UtcInstant) -> (r: Result<
    Option<CertifiedKey>,
    ServerError,
>)
    requires
        now.nanos < 1_000_000_000,
    ensures
        reuses(text_of(cert_pem), text_of(key_pem), now, r),
{
    let (cert_pem, key_pem): (&str, &str) = match (cert_pem, key_pem) {
        (Some(cert), Some(key)) => (cert, key),
        _ => {
            return Ok(None);
        },
    };
    let key = key_from_pem(key_pem);
    let ghost seen_key = key;
    let read = parse_cert_chain(cert_pem);
    let ghost seen_chain = read;
    let chain = match read {
        Ok(chain) => chain,
        Err(_) => {
            let r: Result<Option<CertifiedKey>, ServerError> = Ok(None);
            assert(cached_verdict(seen_chain, Ok(false), seen_key, r));
            return r;
        },
    };
    let fresh = cert_fresh_at(chain[0].as_slice(), RENEWAL_THRESHOLD_DAYS, now);
    let ghost seen_fresh = fresh;
    let r = judge_cached(chain, fresh, key);
    assert(cached_verdict(seen_chain, seen_fresh, seen_key, r));
    r
}

/// Decides whether the cached certificate and key can be used again from this
/// moment on. `None` stands for a file that does not exist.
pub fn try_load_cached(cert_pem: Option<&str>, key_pem: Option<&str>) -> (r: Result<
    Option<CertifiedKey>,
    ServerError,
>)
    ensures
        exists|now: UtcInstant|
            now.wf() && on_the_clock(now) && #[trigger] reuses(
                text_of(cert_pem),
                text_of(key_pem),
                now,
                r,
            ),
{
    let now = utc_now();
    assert(on_the_clock(now));
    load_cached_at(cert_pem, key_pem, now)
}

/// The pair made of a chain in PEM, its certificates in order, and a key in DER. What
/// is wrong with the chain is wrong with the pair.
pub open spec fn pairs_up(
    cert_pem: Seq<char>,
    key: Seq<u8>,
    r: Result<CertifiedKey, ServerError>,
) -> bool {
    exists|chain: Result<Vec<Vec<u8>>, ServerError>| #[trigger]
        chain_of(blocks_decoded(blocks_of(cert_pem)), chain) && match (chain, r) {
            (Ok(chain), Ok(pair)) => pair.chain == chain && pair.key@ == key,
            (Err(e), Err(f)) => e == f,
            _ => false,
        }
}

/// Puts the chain that the ACME server handed out and the key of its request together.
pub fn issued_pair(cert_pem: &str, key_der: Vec<u8>) -> (r: Result<CertifiedKey, ServerError>)
    ensures
        pairs_up(cert_pem@, key_der@, r),
{
    let read = parse_cert_chain(cert_pem);
    let ghost chain = read;
    let r = match read {
        Ok(chain) => Ok(CertifiedKey { chain, key: key_der }),
        Err(e) => Err(e),
    };
    assert(chain_of(blocks_decoded(blocks_of(cert_pem@)), chain));
    r
}

/// Calls `url` of `instant_acme::LetsEncrypt::Staging`. Claims that it is this URL.
#[verifier::external_body]
fn staging_directory() -> (url: &'static str)
    ensures
        url@ == "https://acme-staging-v02.api.letsencrypt.org/directory"@,
{
    instant_acme::LetsEncrypt::Staging.url()
}

/// The ACME directory to use: the one asked for, or the Let's Encrypt staging
/// server.
pub fn directory_url<'a>(directory: Option<&'a str>) -> (url: &'a str)
    ensures
        url@ == (match directory {
            Some(d) => d@,
            None => DomainTls::LETSENCRYPT_STAGING@,
        }),
{
    match directory {
        Some(d) => d,
        None => staging_directory(),
    }
}

/// A call to the ACME server, or one that prepares it.
#[derive(Clone, Copy, Debug, PartialEq, Eq, Structural)]
pub enum AcmeCall {
    ReadAccount,
    BuildAccount,
    RestoreAccount,
    CreateAccount,
    SaveAccount,
    NewOrder,
    Authorizations,
    SetReady,
    PollOrder,
    Finalize,
    PollCertificate,
}

impl AcmeCall {
    /// How the failure of this call is introduced.
    pub open spec fn words(self) -> Seq<char> {
        match self {
            AcmeCall::ReadAccount => "bad account.json: "@,
            AcmeCall::BuildAccount => "account builder: "@,
            AcmeCall::RestoreAccount => "account restore: "@,
            AcmeCall::CreateAccount => "account create: "@,
            AcmeCall::SaveAccount => "serialize creds: "@,
            AcmeCall::NewOrder => "new_order: "@,
            AcmeCall::Authorizations => "authorizations: "@,
            AcmeCall::SetReady => "set_challenge_ready: "@,
            AcmeCall::PollOrder => "order not ready: "@,
            AcmeCall::Finalize => "finalize: "@,
            AcmeCall::PollCertificate => "certificate poll: "@,
        }
    }
}

/// The error for a failed call, with the words of whoever reported it.
pub fn acme_failure(call: AcmeCall, message: &str) -> (e: ServerError)
    ensures
        e.is_keys(call.words() + message@),
{
    let words = match call {
        AcmeCall::ReadAccount => "bad account.json: ",
        AcmeCall::BuildAccount => "account builder: ",
        AcmeCall::RestoreAccount => "account restore: ",
        AcmeCall::CreateAccount => "account create: ",
        AcmeCall::SaveAccount => "serialize creds: ",
        AcmeCall::NewOrder => "new_order: ",
        AcmeCall::Authorizations => "authorizations: ",
        AcmeCall::SetReady => "set_challenge_ready: ",
        AcmeCall::PollOrder => "order not ready: ",
        AcmeCall::Finalize => "finalize: ",
        AcmeCall::PollCertificate => "certificate poll: ",
    };
    ServerError::Keys(join2(words, message))
}

/// How far an issuance has come, from the moment its order is placed.
#[derive(Clone, Copy, Debug, PartialEq, Eq, Structural)]
pub enum Phase {
    /// Going through the order's authorizations.
    Authorizing,
    /// A challenge response is on offer; the server has to be told.
    Offering,
    /// Waiting for the order to become ready.
    Validating,
    /// Asking for the certificate to be signed.
    Finalizing,
    /// Asking for the certificate; `left` attempts remain.
    Polling { left: usize },
    /// Pausing after an attempt in vain; `left` attempts remain.
    Pausing { left: usize },
    /// The certificate is there.
    Issued,
    /// Something failed.
    Failed,
}

/// What the ACME server answered, or what has been done.
#[derive(Debug)]
pub enum AcmeEvent {
    /// One more authorization, with its HTTP-01 token and response if it offers
    /// that kind of challenge.
    Authorization { http01: Option<(String, String)> },
    /// The server knows that the response is on offer.
    ChallengeReady,
    /// There are no more authorizations.
    AuthorizationsDone,
    /// The order's validation has ended.
    OrderPolled { ready: bool },
    /// The signing request has been accepted.
    Finalized,
    /// The certificate has been asked for.
    CertificatePolled { pem: Option<String> },
    /// The pause is over.
    Paused,
    /// A call failed.
    CallFailed { call: AcmeCall, message: String },
}

/// What to do next.
#[derive(Debug)]
pub enum AcmeAction {
    NextAuthorization,
    SetReady,
    PollOrder,
    Finalize,
    PollCertificate,
    /// Wait for a second.
    Pause,
    /// Write the chain and its key to the cache and put them to use.
    Persist { pem: String },
    /// Give up.
    Fail { error: ServerError },
    /// The event does not belong to this phase; nothing has changed.
    Ignore,
}

impl AcmeAction {
    /// Whether this gives up with [`ServerError::Keys`] and these words.
    pub open spec fn fails_with(self, words: Seq<char>) -> bool {
        self matches AcmeAction::Fail { error } && error.is_keys(words)
    }
}

/// One step of an issuance: from phase, responses on offer and event to the next
/// phase, the responses then on offer, and the action.
pub open spec fn advances(
    phase: Phase,
    offers: Map<Seq<char>, Seq<char>>,
    event: AcmeEvent,
    next: Phase,
    next_offers: Map<Seq<char>, Seq<char>>,
    action: AcmeAction,
) -> bool {
    match (phase, event) {
        (Phase::Issued, _) | (Phase::Failed, _) => {
            next == phase && next_offers == offers && action is Ignore
        },
        (_, AcmeEvent::CallFailed { call, message }) => {
            next is Failed && next_offers == offers && action.fails_with(call.words() + message@)
        },
        (Phase::Authorizing, AcmeEvent::Authorization { http01: Some((token, response)) }) => {
            next is Offering && next_offers == offers.insert(token@, response@)
                && action is SetReady
        },
        (Phase::Authorizing, AcmeEvent::Authorization { http01: None }) => {
            next is Failed && next_offers == offers && action.fails_with(
                "no http-01 challenge offered"@,
            )
        },
        (Phase::Offering, AcmeEvent::ChallengeReady) => {
            next is Authorizing && next_offers == offers && action is NextAuthorization
        },
        (Phase::Authorizing, AcmeEvent::AuthorizationsDone) => {
            next is Validating && next_offers == offers && action is PollOrder
        },
        (Phase::Validating, AcmeEvent::OrderPolled { ready }) => if ready {
            next is Finalizing && next_offers == offers && action is Finalize
        } else {
            next is Failed && next_offers == offers && action.fails_with("acme order invalid"@)
        },
        (Phase::Finalizing, AcmeEvent::Finalized) => {
            next == (Phase::Polling { left: POLL_ATTEMPTS }) && next_offers == offers
                && action is PollCertificate
        },
        (Phase::Polling { left }, AcmeEvent::CertificatePolled { pem: Some(pem) }) => {
            next is Issued && next_offers == Map::<Seq<char>, Seq<char>>::empty() && action == (
            AcmeAction::Persist { pem })
        },
        (Phase::Polling { left }, AcmeEvent::CertificatePolled { pem: None }) => {
            next == (Phase::Pausing {
                left: if left > 0 {
                    (left - 1) as usize
                } else {
                    0
                },
            }) && next_offers == offers && action is Pause
        },
        (Phase::Pausing { left }, AcmeEvent::Paused) => if left > 0 {
            next == (Phase::Polling { left }) && next_offers == offers && action is PollCertificate
        } else {
            next is Failed && next_offers == offers && action.fails_with(
                "acme did not return a certificate"@,
            )
        },
        _ => next == phase && next_offers == offers && action is Ignore,
    }
}

/// Takes an issuance one step further. The responses on offer grow with each
/// authorization and are withdrawn once the certificate is there.
pub fn acme_step(phase: Phase, challenges: &mut ChallengeStore, event: AcmeEvent) -> (r: (
    Phase,
    AcmeAction,
))
    ensures
        advances(phase, old(challenges)@, event, r.0, final(challenges)@, r.1),
{
    match (phase, event) {
        (Phase::Issued, _) | (Phase::Failed, _) => (phase, AcmeAction::Ignore),
        (_, AcmeEvent::CallFailed { call, message }) => (
            Phase::Failed,
            AcmeAction::Fail { error: acme_failure(call, message.as_str()) },
        ),
        (Phase::Authorizing, AcmeEvent::Authorization { http01 }) => match http01 {
            Some((token, response)) => {
                challenges.insert(token, response);
                (Phase::Offering, AcmeAction::SetReady)
            },
            None => (
                Phase::Failed,
                AcmeAction::Fail {
                    error: ServerError::Keys(String::from_str("no http-01 challenge offered")),
                },
            ),
        },
        (Phase::Offering, AcmeEvent::ChallengeReady) => (
            Phase::Authorizing,
            AcmeAction::NextAuthorization,
        ),
        (Phase::Authorizing, AcmeEvent::AuthorizationsDone) => (
            Phase::Validating,
            AcmeAction::PollOrder,
        ),
        (Phase::Validating, AcmeEvent::OrderPolled { ready }) => {
            if ready {
                (Phase::Finalizing, AcmeAction::Finalize)
            } else {
                (
                    Phase::Failed,
                    AcmeAction::Fail {
                        error: ServerError::Keys(String::from_str("acme order invalid")),
                    },
                )
            }
        },
        (Phase::Finalizing, AcmeEvent::Finalized) => (
            Phase::Polling { left: POLL_ATTEMPTS },
            AcmeAction::PollCertificate,
        ),
        (Phase::Polling { left }, AcmeEvent::CertificatePolled { pem }) => match pem {
            Some(pem) => {
                challenges.clear();
                (Phase::Issued, AcmeAction::Persist { pem })
            },
            None => {
                let left: usize = if left > 0 {
                    left - 1
                } else {
                    0
                };
                (Phase::Pausing { left }, AcmeAction::Pause)
            },
        },
        (Phase::Pausing { left }, AcmeEvent::Paused) => {
            if left > 0 {
                (Phase::Polling { left }, AcmeAction::PollCertificate)
            } else {
                (
                    Phase::Failed,
                    AcmeAction::Fail {
                        error: ServerError::Keys(
                            String::from_str("acme did not return a certificate"),
                        ),
                    },
                )
            }
        },
        _ => (phase, AcmeAction::Ignore),
    }
}

/// A run of an issuance: each phase leads to the next by its event, with the action
/// that comes with it.
pub open spec fn is_run(
    phases: Seq<Phase>,
    offers: Seq<Map<Seq<char>, Seq<char>>>,
    events: Seq<AcmeEvent>,
    actions: Seq<AcmeAction>,
) -> bool {
    &&& phases.len() == events.len() + 1
    &&& offers.len() == events.len() + 1
    &&& actions.len() == events.len()
    &&& phases[0] is Authorizing
    &&& forall|i: int|
        0 <= i < events.len() ==> advances(
            phases[i],
            offers[i],
            #[trigger] events[i],
            phases[i + 1],
            offers[i + 1],
            actions[i],
        )
}

/// How many of `actions` ask for the certificate.
pub open spec fn polls(actions: Seq<AcmeAction>) -> nat
    decreases actions.len(),
{
    if actions.len() == 0 {
        0
    } else {
        polls(actions.drop_last()) + if actions.last() is PollCertificate {
            1nat
        } else {
            0nat
        }
    }
}

/// How many more times an issuance in this phase can ask for the certificate.
pub open spec fn polls_left(phase: Phase) -> int {
    match phase {
        Phase::Polling { left } => left - 1,
        Phase::Pausing { left } => left as int,
        Phase::Issued | Phase::Failed => 0,
        _ => POLL_ATTEMPTS as int,
    }
}

/// No issuance asks for its certificate more often than [`POLL_ATTEMPTS`] times.
pub proof fn polling_is_bounded(
    phases: Seq<Phase>,
    offers: Seq<Map<Seq<char>, Seq<char>>>,
    events: Seq<AcmeEvent>,
    actions: Seq<AcmeAction>,
)
    requires
        is_run(phases, offers, events, actions),
    ensures
        polls(actions) + polls_left(phases.last()) <= POLL_ATTEMPTS,
        polls_left(phases.last()) >= 0,
        polls(actions) <= POLL_ATTEMPTS,
    decreases events.len(),
{
    if events.len() > 0 {
        let n = events.len() - 1;
        let before = events.drop_last();
        assert forall|i: int| 0 <= i < before.len() implies advances(
            phases.drop_last()[i],
            offers.drop_last()[i],
            #[trigger] before[i],
            phases.drop_last()[i + 1],
            offers.drop_last()[i + 1],
            actions.drop_last()[i],
        ) by {
            assert(before[i] == events[i]);
        }
        polling_is_bounded(
            phases.drop_last(),
            offers.drop_last(),
            before,
            actions.drop_last(),
        );
        assert(events[n] == events.last());
        assert(phases.drop_last().last() == phases[n]);
    }
}

/// Nothing is on offer once the certificate is there, and a certificate is only put
/// to use when the server has handed it out.
pub proof fn responses_are_withdrawn(
    phase: Phase,
    offers: Map<Seq<char>, Seq<char>>,
    event: AcmeEvent,
    next: Phase,
    next_offers: Map<Seq<char>, Seq<char>>,
    action: AcmeAction,
)
    requires
        advances(phase, offers, event, next, next_offers, action),
        action is Persist,
    ensures
        next is Issued,
        next_offers == Map::<Seq<char>, Seq<char>>::empty(),
        event == (AcmeEvent::CertificatePolled { pem: Some(action->pem) }),
{
}

/// A certificate that is fresh for some number of days is fresh for fewer, and one
/// that has gone stale never becomes fresh again.
pub proof fn freshness_is_monotone(
    end: i64,
    now: UtcInstant,
    later: UtcInstant,
    days: i64,
    more_days: i64,
)
    requires
        now.wf(),
        later.wf(),
        now.secs < later.secs || (now.secs == later.secs && now.nanos <= later.nanos),
        days <= more_days,
        days_left(end, later, more_days),
    ensures
        days_left(end, now, days),
{
}

/// A cached pair is put to use again as long as its first certificate is fresh:
/// a chain that can be read, with the key that was written beside it.
pub proof fn a_fresh_pair_is_reused(
    cert: Seq<char>,
    key: Seq<char>,
    key_der: Seq<u8>,
    end: i64,
    now: UtcInstant,
    r: Result<Option<CertifiedKey>, ServerError>,
)
    requires
        blocks_decoded(blocks_of(cert)).len() > 0,
        forall|i: int|
            0 <= i < blocks_decoded(blocks_of(cert)).len() ==> #[trigger] blocks_decoded(
                blocks_of(cert),
            )[i] is Ok,
        certificate_end(blocks_decoded(blocks_of(cert))[0]->Ok_0) == Ok::<i64, Seq<char>>(end),
        in_calendar(end as int),
        days_left(end, now, RENEWAL_THRESHOLD_DAYS),
        key_decoded(key) == Some(Ok::<Seq<u8>, Seq<char>>(key_der)),
        reuses(Some(cert), Some(key), now, r),
    ensures
        r matches Ok(Some(pair)) && pair.key@ == key_der && pair.chain@.len() == blocks_decoded(
            blocks_of(cert),
        ).len() && forall|i: int|
            0 <= i < pair.chain@.len() ==> (#[trigger] pair.chain@[i])@ == blocks_decoded(
                blocks_of(cert),
            )[i]->Ok_0,
{
    let decoded = blocks_decoded(blocks_of(cert));
    assert forall|chain: Result<Vec<Vec<u8>>, ServerError>| #[trigger]
        chain_of(decoded, chain) implies chain is Ok && chain->Ok_0@[0]@ == decoded[0]->Ok_0 by {
        assert(decoded[0] is Ok);
    }
}

/// A pair that was put to use when it was issued is the pair that the cache gives
/// back, as long as its first certificate is fresh.
pub proof fn an_issued_pair_is_given_back(
    cert: Seq<char>,
    key_pem: Seq<char>,
    key_der: Seq<u8>,
    issued: CertifiedKey,
    end: i64,
    now: UtcInstant,
    r: Result<Option<CertifiedKey>, ServerError>,
)
    requires
        pairs_up(cert, key_der, Ok(issued)),
        key_decoded(key_pem) == Some(Ok::<Seq<u8>, Seq<char>>(key_der)),
        certificate_end(issued.chain@[0]@) == Ok::<i64, Seq<char>>(end),
        in_calendar(end as int),
        days_left(end, now, RENEWAL_THRESHOLD_DAYS),
        reuses(Some(cert), Some(key_pem), now, r),
    ensures
        r matches Ok(Some(pair)) && pair.key@ == issued.key@ && pair.chain@.len()
            == issued.chain@.len() && forall|i: int|
            0 <= i < pair.chain@.len() ==> (#[trigger] pair.chain@[i])@ == issued.chain@[i]@,
{
    let decoded = blocks_decoded(blocks_of(cert));
    let read = choose|chain: Result<Vec<Vec<u8>>, ServerError>| #[trigger]
        chain_of(decoded, chain) && chain == Ok::<Vec<Vec<u8>>, ServerError>(issued.chain);
    assert(chain_of(decoded, read));
    assert forall|i: int| 0 <= i < decoded.len() implies #[trigger] decoded[i] is Ok by {}
    assert(issued.chain@[0]@ == decoded[0]->Ok_0);
    a_fresh_pair_is_reused(cert, key_pem, key_der, end, now, r);
    assert forall|i: int| 0 <= i < issued.chain@.len() implies (#[trigger] issued.chain@[i])@
        == decoded[i]->Ok_0 by {}
}

/// A stale certificate is not put to use again, whatever the key.
pub proof fn a_stale_pair_is_not_reused(
    cert: Seq<char>,
    key: Seq<char>,
    end: i64,
    now: UtcInstant,
    r: Result<Option<CertifiedKey>, ServerError>,
)
    requires
        blocks_decoded(blocks_of(cert)).len() > 0,
        forall|i: int|
            0 <= i < blocks_decoded(blocks_of(cert)).len() ==> #[trigger] blocks_decoded(
                blocks_of(cert),
            )[i] is Ok,
        certificate_end(blocks_decoded(blocks_of(cert))[0]->Ok_0) == Ok::<i64, Seq<char>>(end),
        in_calendar(end as int),
        !days_left(end, now, RENEWAL_THRESHOLD_DAYS),
        reuses(Some(cert), Some(key), now, r),
    ensures
        r == Ok::<Option<CertifiedKey>, ServerError>(None),
{
    let decoded = blocks_decoded(blocks_of(cert));
    assert forall|chain: Result<Vec<Vec<u8>>, ServerError>| #[trigger]
        chain_of(decoded, chain) implies chain is Ok && chain->Ok_0@[0]@ == decoded[0]->Ok_0 by {
        assert(decoded[0] is Ok);
    }
}

/// What is decided from this moment on is decided for a moment that the clock has given.
proof fn this_moment_is_on_the_clock(
    der: &[u8],
    days: i64,
    fresh: Result<bool, ServerError>,
    cert_pem: Option<&str>,
    key_pem: Option<&str>,
    cached: Result<Option<CertifiedKey>, ServerError>,
)
    requires
        call_ensures(cert_still_fresh, (der, days), fresh),
        call_ensures(try_load_cached, (cert_pem, key_pem), cached),
    ensures
        exists|now: UtcInstant| #[trigger]
            call_ensures(utc_now, (), now) && freshness(der@, days, now, fresh),
        exists|now: UtcInstant| #[trigger]
            call_ensures(utc_now, (), now) && reuses(
                text_of(cert_pem),
                text_of(key_pem),
                now,
                cached,
            ),
{
    let now = choose|now: UtcInstant|
        now.wf() && on_the_clock(now) && #[trigger] freshness(der@, days, now, fresh);
    assert(call_ensures(utc_now, (), now));
    let moment = choose|now: UtcInstant|
        now.wf() && on_the_clock(now) && #[trigger] reuses(
            text_of(cert_pem),
            text_of(key_pem),
            now,
            cached,
        );
    assert(call_ensures(utc_now, (), moment));
}

} // verus!
