//! Certificates from the challenge to the cache, on what goes in and what comes out.

use vstd::prelude::*;

use crate::acme::{
    acme_failure, acme_step, cert_fresh_at, cert_still_fresh, certificate_end, directory_url,
    end_is_fresh, issued_pair, judge_cached, load_cached_at, lookup_challenge, new_store,
    on_the_clock, text_of, try_load_cached, AcmeAction, AcmeCall, AcmeEvent, CertifiedKey,
    ChallengeStore, Phase, UtcInstant,
};
use crate::acme_request::{
    assemble_request, certificate_request, is_ascii_text, made_out_for, request_names,
    restore_credentials, save_credentials, CertificateRequest, RequestNames,
};
use crate::error::ServerError;
use crate::pem::{blocks_decoded, blocks_of, chain_of, key_decoded, key_from_pem};

verus! {

/// A response that is offered for a token is what a lookup of the token gives, until it
/// is replaced or all are withdrawn. Other tokens are not affected.
pub proof fn an_offered_response_is_found(
    new: ChallengeStore,
    offered: &mut ChallengeStore,
    cleared: &mut ChallengeStore,
    token: String,
    response: String,
    asked: &str,
    before: Option<String>,
    after: Option<String>,
    gone: Option<String>,
    none: Option<String>,
)
    requires
        call_ensures(new_store, (), new),
        call_ensures(lookup_challenge, (&new, asked), none),
        call_ensures(lookup_challenge, (old(offered), asked), before),
        call_ensures(ChallengeStore::insert, (offered, token, response), ()),
        call_ensures(lookup_challenge, (final(offered), asked), after),
        *old(cleared) == *final(offered),
        call_ensures(ChallengeStore::clear, (cleared,), ()),
        call_ensures(lookup_challenge, (final(cleared), asked), gone),
    ensures
        none is None,
        gone is None,
        asked@ == token@ ==> after is Some && after->0@ == response@,
        asked@ != token@ ==> (after is Some <==> before is Some),
        asked@ != token@ && before is Some ==> after->0@ == before->0@,
{
}

/// A certificate is fresh exactly if the time from now to its end is at least so many
/// days, to the nanosecond. One whose end cannot be told, or lies outside the calendar,
/// is an error.
pub proof fn freshness_is_time_left(
    end: Result<i64, String>,
    days: i64,
    now: UtcInstant,
    r: Result<bool, ServerError>,
)
    requires
        call_ensures(end_is_fresh, (end, days, now), r),
    ensures
        end matches Err(words) ==> (r matches Err(ServerError::Keys(why)) && why@
            == "cert parse: "@ + words@),
        end matches Ok(secs) ==> {
            let known = -377_705_116_800 <= secs && secs <= 253_402_300_799;
            &&& !known ==> (r matches Err(ServerError::Keys(why)) && why@
                == "bad notAfter timestamp"@)
            &&& known ==> r is Ok && (r->Ok_0 <==> (secs - now.secs) * 1_000_000_000 - now.nanos
                >= days * 86_400_000_000_000)
        },
{
}

/// The end that counts is the one that the certificate states.
pub proof fn a_certificate_is_fresh_until_its_end(
    der: &[u8],
    days: i64,
    now: UtcInstant,
    r: Result<bool, ServerError>,
)
    requires
        call_ensures(cert_fresh_at, (der, days, now), r),
    ensures
        certificate_end(der@) matches Err(words) ==> (r matches Err(ServerError::Keys(why)) && why@
            == "cert parse: "@ + words),
        certificate_end(der@) matches Ok(secs) ==> {
            let known = -377_705_116_800 <= secs && secs <= 253_402_300_799;
            &&& !known ==> (r matches Err(ServerError::Keys(why)) && why@
                == "bad notAfter timestamp"@)
            &&& known ==> r is Ok && (r->Ok_0 <==> (secs - now.secs) * 1_000_000_000 - now.nanos
                >= days * 86_400_000_000_000)
        },
{
}

/// Whether a certificate is still fresh is decided at a moment of the clock.
pub proof fn freshness_is_decided_by_the_clock(
    der: &[u8],
    days: i64,
    r: Result<bool, ServerError>,
) -> (now: UtcInstant)
    requires
        call_ensures(cert_still_fresh, (der, days), r),
    ensures
        on_the_clock(now),
        r is Ok <==> (certificate_end(der@) matches Ok(secs) && -377_705_116_800 <= secs && secs
            <= 253_402_300_799),
        r matches Ok(fresh) ==> (fresh <==> (certificate_end(der@)->Ok_0 - now.secs) * 1_000_000_000
            - now.nanos >= days * 86_400_000_000_000),
{
    choose|now: UtcInstant|
        now.wf() && on_the_clock(now) && #[trigger] crate::acme::freshness(der@, days, now, r)
}

/// A readable chain is used again only if it is fresh, and then with the key that was
/// read, which must be there; a stale one is not, whatever the key.
pub proof fn a_cached_chain_is_judged(
    chain: Vec<Vec<u8>>,
    fresh: Result<bool, ServerError>,
    key: Result<Vec<u8>, ServerError>,
    r: Result<Option<CertifiedKey>, ServerError>,
)
    requires
        call_ensures(judge_cached, (chain, fresh, key), r),
    ensures
        r matches Ok(Some(pair)) ==> {
            &&& pair.chain == chain
            &&& fresh == Ok::<bool, ServerError>(true)
            &&& key == Ok::<Vec<u8>, ServerError>(pair.key)
        },
        r matches Ok(None) ==> fresh == Ok::<bool, ServerError>(false),
        fresh == Ok::<bool, ServerError>(false) ==> r is Ok,
        fresh matches Err(e) ==> r == Err::<Option<CertifiedKey>, ServerError>(e),
        fresh == Ok::<bool, ServerError>(true) ==> (key matches Err(e) ==> r == Err::<
            Option<CertifiedKey>,
            ServerError,
        >(e)),
        fresh == Ok::<bool, ServerError>(true) && key is Ok ==> r is Ok && r->Ok_0 is Some,
{
}

/// What the cached files are good for is settled by their contents and the moment: a
/// missing file or an unreadable chain is as good as none, and a chain whose first
/// certificate ends within thirty days is not used again.
pub proof fn the_cache_is_good_for_thirty_days_or_more(
    cert_pem: Option<&str>,
    key_pem: Option<&str>,
    now: UtcInstant,
    r: Result<Option<CertifiedKey>, ServerError>,
)
    requires
        call_ensures(load_cached_at, (cert_pem, key_pem, now), r),
    ensures
        cert_pem is None || key_pem is None ==> r == Ok::<Option<CertifiedKey>, ServerError>(None),
        cert_pem matches Some(cert) ==> (key_pem matches Some(key) ==> {
            let blocks = blocks_decoded(blocks_of(cert@));
            let readable = blocks.len() > 0 && forall|i: int|
                0 <= i < blocks.len() ==> #[trigger] blocks[i] is Ok;
            &&& !readable ==> r == Ok::<Option<CertifiedKey>, ServerError>(None)
            &&& readable ==> {
                &&& certificate_end(blocks[0]->Ok_0) matches Err(words) ==> (
                r matches Err(ServerError::Keys(why)) && why@ == "cert parse: "@ + words)
                &&& certificate_end(blocks[0]->Ok_0) matches Ok(secs) ==> {
                    let known = -377_705_116_800 <= secs && secs <= 253_402_300_799;
                    let fresh = (secs - now.secs) * 1_000_000_000 - now.nanos >= 30
                        * 86_400_000_000_000;
                    &&& !known ==> (r matches Err(ServerError::Keys(why)) && why@
                        == "bad notAfter timestamp"@)
                    &&& known && !fresh ==> r == Ok::<Option<CertifiedKey>, ServerError>(None)
                    &&& known && fresh ==> {
                        &&& key_decoded(key@) is None ==> (r matches Err(ServerError::Keys(why))
                            && why@ == "no PRIVATE KEY block in cached key"@)
                        &&& key_decoded(key@) matches Some(Err(words)) ==> (
                        r matches Err(ServerError::Keys(why)) && why@ == "bad key base64: "@
                            + words)
                        &&& key_decoded(key@) matches Some(Ok(der)) ==> {
                            &&& r matches Ok(Some(pair))
                            &&& pair.key@ == der
                            &&& pair.chain@.len() == blocks.len()
                            &&& forall|i: int|
                                0 <= i < blocks.len() ==> (#[trigger] pair.chain@[i])@
                                    == blocks[i]->Ok_0
                        }
                    }
                }
            }
        }),
{
    if let (Some(cert), Some(_)) = (cert_pem, key_pem) {
        let blocks = blocks_decoded(blocks_of(cert@));
        let readable = blocks.len() > 0 && forall|i: int|
            0 <= i < blocks.len() ==> #[trigger] blocks[i] is Ok;
        assert forall|chain: Result<Vec<Vec<u8>>, ServerError>| #[trigger]
            chain_of(blocks, chain) implies (chain is Ok <==> readable) && (readable
            ==> chain->Ok_0@[0]@ == blocks[0]->Ok_0) by {
            if readable {
                assert(blocks[0] is Ok);
            }
        }
    }
}

/// The cache is judged at a moment of the clock.
pub proof fn the_cache_is_judged_by_the_clock(
    cert_pem: Option<&str>,
    key_pem: Option<&str>,
    r: Result<Option<CertifiedKey>, ServerError>,
) -> (now: UtcInstant)
    requires
        call_ensures(try_load_cached, (cert_pem, key_pem), r),
    ensures
        on_the_clock(now),
        crate::acme::reuses(text_of(cert_pem), text_of(key_pem), now, r),
{
    choose|now: UtcInstant|
        now.wf() && on_the_clock(now) && #[trigger] crate::acme::reuses(
            text_of(cert_pem),
            text_of(key_pem),
            now,
            r,
        )
}

/// A chain that was handed out makes a pair with the key of its request, its
/// certificates in order; one that cannot be read makes none.
pub proof fn an_issued_chain_gets_its_key(
    cert_pem: &str,
    key_der: Vec<u8>,
    r: Result<CertifiedKey, ServerError>,
)
    requires
        call_ensures(issued_pair, (cert_pem, key_der), r),
    ensures
        ({
            let blocks = blocks_decoded(blocks_of(cert_pem@));
            &&& r is Ok <==> blocks.len() > 0 && forall|i: int|
                0 <= i < blocks.len() ==> #[trigger] blocks[i] is Ok
            &&& r matches Ok(pair) ==> {
                &&& pair.key@ == key_der@
                &&& pair.chain@.len() == blocks.len()
                &&& forall|i: int|
                    0 <= i < blocks.len() ==> (#[trigger] pair.chain@[i])@ == blocks[i]->Ok_0
            }
        }),
{
    let blocks = blocks_decoded(blocks_of(cert_pem@));
    let chain = choose|chain: Result<Vec<Vec<u8>>, ServerError>| #[trigger]
        chain_of(blocks, chain) && match (chain, r) {
            (Ok(chain), Ok(pair)) => pair.chain == chain && pair.key@ == key_der@,
            (Err(e), Err(f)) => e == f,
            _ => false,
        };
    assert(chain_of(blocks, chain));
    assert(chain is Ok <==> blocks.len() > 0 && forall|i: int|
        0 <= i < blocks.len() ==> #[trigger] blocks[i] is Ok);
}

/// The directory asked for is the one used; only without one it is the staging server.
pub proof fn the_directory_asked_for_is_used(directory: Option<&str>, url: &str)
    requires
        call_ensures(directory_url, (directory,), url),
    ensures
        directory matches Some(d) ==> url@ == d@,
        directory is None ==> url@ == "https://acme-staging-v02.api.letsencrypt.org/directory"@,
{
}

/// A failed call is told by what was being done, then in the words of whoever failed.
pub proof fn a_failed_call_is_told(call: AcmeCall, message: &str, e: ServerError)
    requires
        call_ensures(acme_failure, (call, message), e),
    ensures
        e matches ServerError::Keys(text) && {
            &&& call is ReadAccount ==> text@ == "bad account.json: "@ + message@
            &&& call is BuildAccount ==> text@ == "account builder: "@ + message@
            &&& call is RestoreAccount ==> text@ == "account restore: "@ + message@
            &&& call is CreateAccount ==> text@ == "account create: "@ + message@
            &&& call is SaveAccount ==> text@ == "serialize creds: "@ + message@
            &&& call is NewOrder ==> text@ == "new_order: "@ + message@
            &&& call is Authorizations ==> text@ == "authorizations: "@ + message@
            &&& call is SetReady ==> text@ == "set_challenge_ready: "@ + message@
            &&& call is PollOrder ==> text@ == "order not ready: "@ + message@
            &&& call is Finalize ==> text@ == "finalize: "@ + message@
            &&& call is PollCertificate ==> text@ == "certificate poll: "@ + message@
        },
{
}

/// Each action of an issuance has its one occasion: a response is put on offer for an
/// authorization that has one, the order is polled when all are done, the request is
/// sent when the order is ready, the certificate is asked for after that and after each
/// pause that leaves attempts, and it is put to use when it is handed out. Responses
/// change only when one is offered, and when all are withdrawn at the end.
pub proof fn an_issuance_takes_its_steps_in_order(
    phase: Phase,
    challenges: &mut ChallengeStore,
    event: AcmeEvent,
    r: (Phase, AcmeAction),
)
    requires
        call_ensures(acme_step, (phase, challenges, event), r),
    ensures
        r.1 is SetReady <==> phase is Authorizing && (event matches AcmeEvent::Authorization {
            http01,
        } && http01 is Some),
        r.1 is SetReady ==> r.0 is Offering && (event matches AcmeEvent::Authorization {
            http01: Some((token, response)),
        } && final(challenges)@ == old(challenges)@.insert(token@, response@)),
        r.1 is NextAuthorization <==> phase is Offering && event is ChallengeReady,
        r.1 is NextAuthorization ==> r.0 is Authorizing,
        r.1 is PollOrder <==> phase is Authorizing && event is AuthorizationsDone,
        r.1 is PollOrder ==> r.0 is Validating,
        r.1 is Finalize <==> phase is Validating && (event matches AcmeEvent::OrderPolled { ready }
            && ready),
        r.1 is Finalize ==> r.0 is Finalizing,
        r.1 is PollCertificate <==> (phase is Finalizing && event is Finalized) || (
        phase matches Phase::Pausing { left } && left > 0 && event is Paused),
        r.1 is PollCertificate ==> (r.0 matches Phase::Polling { left } && (phase is Finalizing
            ==> left == 60) && (phase matches Phase::Pausing { left: kept } ==> left == kept)),
        r.1 is Pause <==> phase is Polling && (event matches AcmeEvent::CertificatePolled { pem }
            && pem is None),
        r.1 is Pause ==> (r.0 matches Phase::Pausing { left } && (phase matches Phase::Polling {
            left: had,
        } && (had > 0 ==> left == had - 1) && (had == 0 ==> left == 0))),
        r.1 is Persist <==> phase is Polling && (event matches AcmeEvent::CertificatePolled { pem }
            && pem is Some),
        r.1 matches AcmeAction::Persist { pem } ==> r.0 is Issued && event
            == (AcmeEvent::CertificatePolled { pem: Some(pem) }) && final(challenges)@.dom() =~= Set::<
            Seq<char>,
        >::empty(),
        !(r.1 is SetReady) && !(r.1 is Persist) ==> final(challenges)@ == old(challenges)@,
{
}

/// An issuance fails when a call fails, when an authorization offers no response, when
/// the order is refused, and when the attempts are used up, each in its own words; and
/// for no other reason. Over is over, and what does not belong changes nothing.
pub proof fn an_issuance_fails_for_cause(
    phase: Phase,
    challenges: &mut ChallengeStore,
    event: AcmeEvent,
    r: (Phase, AcmeAction),
    call: AcmeCall,
    message: &str,
    told: ServerError,
)
    requires
        call_ensures(acme_step, (phase, challenges, event), r),
        event matches AcmeEvent::CallFailed { call: c, message: m } ==> c == call && m@ == message@,
        call_ensures(acme_failure, (call, message), told),
    ensures
        phase is Issued || phase is Failed ==> r.1 is Ignore,
        r.1 is Ignore ==> r.0 == phase,
        r.1 is Fail ==> r.0 is Failed && !(phase is Issued) && !(phase is Failed),
        !(phase is Failed) ==> (r.0 is Failed <==> r.1 is Fail),
        r.1 is Fail <==> !(phase is Issued) && !(phase is Failed) && {
            ||| event is CallFailed
            ||| phase is Authorizing && (event matches AcmeEvent::Authorization { http01 }
                && http01 is None)
            ||| phase is Validating && (event matches AcmeEvent::OrderPolled { ready } && !ready)
            ||| (phase matches Phase::Pausing { left } && left == 0) && event is Paused
        },
        r.1 matches AcmeAction::Fail { error: ServerError::Keys(text) } ==> {
            &&& event is CallFailed ==> (told matches ServerError::Keys(words) && text@ == words@)
            &&& event is Authorization ==> text@ == "no http-01 challenge offered"@
            &&& event is OrderPolled ==> text@ == "acme order invalid"@
            &&& event is Paused ==> text@ == "acme did not return a certificate"@
        },
        r.1 matches AcmeAction::Fail { error } ==> error is Keys,
{
}

/// A request names the domain and nothing else, as common name and as its only
/// alternative name.
pub proof fn a_request_names_its_domain(apex: &str, names: RequestNames)
    requires
        call_ensures(request_names, (apex,), names),
    ensures
        names.common@ == apex@,
        names.alternative@.len() == 1,
        names.alternative@[0]@ == apex@,
{
    let list = crate::text::texts(names.alternative@);
    assert(list.len() == names.alternative@.len());
    assert(list[0] == names.alternative@[0]@);
}

/// A request that is made keeps the key in the form in which it is read back from the
/// cache, and is for an ASCII domain; one that is not made tells why.
pub proof fn a_request_keeps_its_key(
    apex: &str,
    r: Result<CertificateRequest, ServerError>,
    pem: &str,
    key: Result<Vec<u8>, ServerError>,
)
    requires
        call_ensures(certificate_request, (apex,), r),
        r matches Ok(req) ==> pem@ == req.key_pem@,
        call_ensures(key_from_pem, (pem,), key),
    ensures
        r matches Ok(req) ==> {
            &&& key matches Ok(der)
            &&& der@ == req.key_der@
            &&& made_out_for(req, apex@)
            &&& is_ascii_text(apex@)
        },
        r matches Err(e) ==> e is Rcgen,
{
}

/// A key and the request that was signed with it stay together; words of failure are
/// passed on.
pub proof fn a_signed_request_stays_with_its_key(
    key_pem: String,
    key_der: Vec<u8>,
    csr: Result<Vec<u8>, String>,
    r: Result<CertificateRequest, ServerError>,
)
    requires
        call_ensures(assemble_request, (key_pem, key_der, csr), r),
    ensures
        r is Ok <==> csr is Ok,
        r matches Ok(req) ==> req.key_pem == key_pem && req.key_der == key_der && csr == Ok::<
            Vec<u8>,
            String,
        >(req.csr),
        r matches Err(e) ==> (e matches ServerError::Rcgen(words) && csr == Err::<Vec<u8>, String>(
            words,
        )),
{
}

/// Credentials that were saved can be restored.
pub proof fn saved_credentials_are_restored(
    creds: &instant_acme::AccountCredentials,
    saved: Result<String, ServerError>,
    text: &str,
    restored: Result<instant_acme::AccountCredentials, ServerError>,
)
    requires
        call_ensures(save_credentials, (creds,), saved),
        saved matches Ok(t) ==> text@ == t@,
        call_ensures(restore_credentials, (text,), restored),
    ensures
        saved is Ok,
        restored is Ok,
        crate::acme_request::printed_from(saved->Ok_0, creds),
        crate::acme_request::read_from(restored->Ok_0, text),
{
}

} // verus!
