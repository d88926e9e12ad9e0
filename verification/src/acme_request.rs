//! Keys, signing requests and account credentials of an ACME issuance.

use vstd::prelude::*;

use crate::acme::{acme_failure, AcmeCall};
use crate::error::ServerError;
use crate::pem::{key_decoded, key_of};
use crate::text::texts;

verus! {

/// `rcgen::KeyPair`, carried from where it is generated to where it signs.
#[verifier::external_type_specification]
#[verifier::external_body]
pub struct ExKeyPair(rcgen::KeyPair);

/// `instant_acme::AccountCredentials`, carried between the file and the ACME client.
#[verifier::external_type_specification]
#[verifier::external_body]
pub struct ExAccountCredentials(instant_acme::AccountCredentials);

/// A freshly generated private key with its two serialized forms.
pub struct FreshKey {
    key: rcgen::KeyPair,
    pem: String,
    der: Vec<u8>,
}

/// Whether the private key that `pem` holds is `der`.
pub open spec fn pem_holds_key(pem: Seq<char>, der: Seq<u8>) -> bool {
    key_decoded(pem) == Some(Ok::<Seq<u8>, Seq<char>>(der))
}

/// Calls `rcgen::KeyPair::generate` and hands out the key with its PKCS#8 form in
/// PEM and in DER. Of the key nothing is claimed: it is random. Claims that the
/// PEM text holds one private-key block, whose base64 text decodes to the DER bytes.
#[verifier::external_body]
fn generate_key() -> (r: Result<FreshKey, String>)
    ensures
        r matches Ok(k) ==> pem_holds_key(k.pem@, k.der@),
{
    match rcgen::KeyPair::generate() {
        Ok(key) => {
            let (pem, der) = (key.serialize_pem(), key.serialize_der());
            Ok(FreshKey { key, pem, der })
        },
        Err(e) => Err(e.to_string()),
    }
}

/// The names that a signing request is made out for.
#[derive(Debug)]
pub struct RequestNames {
    /// The subject alternative names.
    pub alternative: Vec<String>,
    /// The common name.
    pub common: String,
}

/// The names in a signing request for the domain `apex`: it is the common name and
/// the only alternative name.
pub fn request_names(apex: &str) -> (names: RequestNames)
    ensures
        names_apex(names, apex@),
{
    let mut alternative: Vec<String> = Vec::new();
    alternative.push(String::from_str(apex));
    assert(texts(alternative@) =~= seq![apex@]);
    RequestNames { alternative, common: String::from_str(apex) }
}

/// Calls `serialize_request` of `rcgen::CertificateParams`, with `names` as its
/// parameters. The request holds a random signature, so nothing is claimed of its
/// bytes. Claims that there is none unless all the alternative names are ASCII.
#[verifier::external_body]
fn sign_request(names: RequestNames, key: &rcgen::KeyPair) -> (r: Result<Vec<u8>, String>)
    ensures
        r is Ok ==> forall|i: int|
            0 <= i < names.alternative@.len() ==> is_ascii_text(
                #[trigger] texts(names.alternative@)[i],
            ),
{
    let mut params = match rcgen::CertificateParams::new(names.alternative) {
        Ok(params) => params,
        Err(e) => return Err(e.to_string()),
    };
    params.distinguished_name = rcgen::DistinguishedName::new();
    params.distinguished_name.push(rcgen::DnType::CommonName, names.common);
    match params.serialize_request(key) {
        Ok(csr) => Ok(csr.der().to_vec()),
        Err(e) => Err(e.to_string()),
    }
}

/// Whether `s` consists of ASCII characters.
pub open spec fn is_ascii_text(s: Seq<char>) -> bool {
    forall|i: int| 0 <= i < s.len() ==> (#[trigger] s[i] as u32) < 128
}

/// What is sent to the ACME server, and the key that stays here.
#[derive(Debug)]
pub struct CertificateRequest {
    /// The signing request in DER.
    pub csr: Vec<u8>,
    /// The private key as it goes into the cache.
    pub key_pem: String,
    /// The private key in DER.
    pub key_der: Vec<u8>,
}

/// Whether `names` are those of a request for `apex`.
pub open spec fn names_apex(names: RequestNames, apex: Seq<char>) -> bool {
    texts(names.alternative@) == seq![apex] && names.common@ == apex
}

/// Whether `fresh` is a key that [`generate_key`] can have returned, and `csr` what
/// [`sign_request`] can have returned for `names` of `apex` and that very key.
spec fn signed_with(
    fresh: FreshKey,
    names: RequestNames,
    apex: Seq<char>,
    csr: Result<Vec<u8>, String>,
) -> bool {
    &&& call_ensures(generate_key, (), Ok::<FreshKey, String>(fresh))
    &&& names_apex(names, apex)
    &&& call_ensures(sign_request, (names, &fresh.key), csr)
}

/// Whether `req` holds a generated key, and a request for `apex` that was signed
/// with that very key.
pub closed spec fn made_out_for(req: CertificateRequest, apex: Seq<char>) -> bool {
    exists|fresh: FreshKey, names: RequestNames| #[trigger]
        signed_with(fresh, names, apex, Ok(req.csr)) && req.key_pem == fresh.pem && req.key_der
            == fresh.der
}

/// Whether `words` are those with which generating a key can have failed, or signing
/// a request for `apex` with a generated key.
pub closed spec fn request_failed(words: String, apex: Seq<char>) -> bool {
    ||| call_ensures(generate_key, (), Err::<FreshKey, String>(words))
    ||| exists|fresh: FreshKey, names: RequestNames| #[trigger]
        signed_with(fresh, names, apex, Err(words))
}

/// Generates a key and a signing request for the domain `apex`, made out for
/// [`request_names`] and signed with that key.
///
/// The key in its cached form is read back as the key itself. Which key it is, and
/// the bytes of the request, rest on chance.
pub fn certificate_request(apex: &str) -> (r: Result<CertificateRequest, ServerError>)
    ensures
        match r {
            Ok(req) => {
                &&& is_ascii_text(apex@)
                &&& pem_holds_key(req.key_pem@, req.key_der@)
                &&& made_out_for(req, apex@)
            },
            Err(e) => e matches ServerError::Rcgen(words) && request_failed(words, apex@),
        },
{
    let fresh = match generate_key() {
        Ok(fresh) => fresh,
        Err(words) => {
            return Err(ServerError::Rcgen(words));
        },
    };
    let names = request_names(apex);
    let ghost made = fresh;
    let ghost handed = names;
    let csr = sign_request(names, &fresh.key);
    proof {
        assert(signed_with(made, handed, apex@, csr));
        assert(texts(handed.alternative@).len() == handed.alternative@.len());
        assert(csr is Ok ==> is_ascii_text(texts(handed.alternative@)[0]));
    }
    let ghost outcome = csr;
    let r = assemble_request(fresh.pem, fresh.der, csr);
    proof {
        if outcome is Ok {
            assert(signed_with(made, handed, apex@, Ok(r->Ok_0.csr)));
        }
    }
    r
}

/// Puts a key and the outcome of signing its request together.
pub fn assemble_request(key_pem: String, key_der: Vec<u8>, csr: Result<Vec<u8>, String>) -> (r:
    Result<CertificateRequest, ServerError>)
    ensures
        r == (match csr {
            Ok(csr) => Ok::<CertificateRequest, ServerError>(
                CertificateRequest { csr, key_pem, key_der },
            ),
            Err(words) => Err::<CertificateRequest, ServerError>(ServerError::Rcgen(words)),
        }),
{
    match csr {
        Ok(csr) => Ok(CertificateRequest { csr, key_pem, key_der }),
        Err(words) => Err(ServerError::Rcgen(words)),
    }
}

/// A cached private key that was written by [`certificate_request`] is read back.
pub proof fn a_cached_key_is_read_back(
    key_pem: Seq<char>,
    key_der: Seq<u8>,
    r: Result<Vec<u8>, ServerError>,
)
    requires
        pem_holds_key(key_pem, key_der),
        key_of(key_decoded(key_pem), r),
    ensures
        r matches Ok(der) && der@ == key_der,
{
}

/// Why `text` holds no account credentials, or `None` if it does.
pub uninterp spec fn credentials_refused(text: Seq<char>) -> Option<Seq<char>>;

/// Calls `serde_json::from_str` for `instant_acme::AccountCredentials`. Claims that
/// success, or the words of the error, are a function of the text alone.
#[verifier::external_body]
fn parse_credentials(text: &str) -> (r: Result<instant_acme::AccountCredentials, String>)
    ensures
        match credentials_refused(text@) {
            None => r is Ok,
            Some(words) => r matches Err(e) && e@ == words,
        },
{
    serde_json::from_str::<instant_acme::AccountCredentials>(text).map_err(|e| e.to_string())
}

/// Calls `serde_json::to_string_pretty` for `instant_acme::AccountCredentials`.
/// Claims that it succeeds, as it writes strings, nulls and maps with strings as keys
/// and values only, with a text that [`parse_credentials`] accepts.
#[verifier::external_body]
fn print_credentials(creds: &instant_acme::AccountCredentials) -> (r: Result<String, String>)
    ensures
        r is Ok && credentials_refused(r->Ok_0@) is None,
{
    serde_json::to_string_pretty(creds).map_err(|e| e.to_string())
}

/// Whether `creds` are what [`parse_credentials`] can have read from `text`.
pub closed spec fn read_from(creds: instant_acme::AccountCredentials, text: &str) -> bool {
    call_ensures(
        parse_credentials,
        (text,),
        Ok::<instant_acme::AccountCredentials, String>(creds),
    )
}

/// Whether `text` is what [`print_credentials`] can have written of `creds`.
pub closed spec fn printed_from(text: String, creds: &instant_acme::AccountCredentials) -> bool {
    call_ensures(print_credentials, (creds,), Ok::<String, String>(text))
}

/// Reads account credentials from the text of their file.
pub fn restore_credentials(text: &str) -> (r: Result<
    instant_acme::AccountCredentials,
    ServerError,
>)
    ensures
        match credentials_refused(text@) {
            None => r matches Ok(creds) && read_from(creds, text),
            Some(words) => r matches Err(e) && e.is_keys("bad account.json: "@ + words),
        },
{
    match parse_credentials(text) {
        Ok(creds) => Ok(creds),
        Err(words) => Err(acme_failure(AcmeCall::ReadAccount, words.as_str())),
    }
}

/// The text under which account credentials are kept in their file. What is
/// written can be restored.
pub fn save_credentials(creds: &instant_acme::AccountCredentials) -> (r: Result<
    String,
    ServerError,
>)
    ensures
        r matches Ok(text) && credentials_refused(text@) is None && printed_from(text, creds),
{
    match print_credentials(creds) {
        Ok(text) => Ok(text),
        Err(words) => Err(acme_failure(AcmeCall::SaveAccount, words.as_str())),
    }
}

/// A request that is made was signed with the key that it keeps, for names that are the
/// domain alone; one that failed did so where the key is generated or where the request
/// is signed.
proof fn a_request_is_signed_with_its_key(
    apex: &str,
    r: Result<CertificateRequest, ServerError>,
)
    requires
        call_ensures(certificate_request, (apex,), r),
    ensures
        r matches Ok(req) ==> exists|fresh: FreshKey, names: RequestNames|
            {
                &&& call_ensures(generate_key, (), Ok::<FreshKey, String>(fresh))
                &&& names.common@ == apex@
                &&& names.alternative@.len() == 1
                &&& names.alternative@[0]@ == apex@
                &&& #[trigger] call_ensures(
                    sign_request,
                    (names, &fresh.key),
                    Ok::<Vec<u8>, String>(req.csr),
                )
                &&& req.key_pem == fresh.pem
                &&& req.key_der == fresh.der
            },
        r matches Err(ServerError::Rcgen(words)) ==> {
            ||| call_ensures(generate_key, (), Err::<FreshKey, String>(words))
            ||| exists|fresh: FreshKey, names: RequestNames|
                {
                    &&& call_ensures(generate_key, (), Ok::<FreshKey, String>(fresh))
                    &&& names.common@ == apex@
                    &&& names.alternative@.len() == 1
                    &&& names.alternative@[0]@ == apex@
                    &&& #[trigger] call_ensures(
                        sign_request,
                        (names, &fresh.key),
                        Err::<Vec<u8>, String>(words),
                    )
                }
        },
{
    assert forall|names: RequestNames| #[trigger] names_apex(names, apex@) implies names.common@
        == apex@ && names.alternative@.len() == 1 && names.alternative@[0]@ == apex@ by {
        let list = texts(names.alternative@);
        assert(list.len() == names.alternative@.len());
        assert(list[0] == names.alternative@[0]@);
    }
    match r {
        Ok(req) => {
            let (fresh, names) = choose|fresh: FreshKey, names: RequestNames| #[trigger]
                signed_with(fresh, names, apex@, Ok(req.csr)) && req.key_pem == fresh.pem
                    && req.key_der == fresh.der;
            assert(names_apex(names, apex@));
            assert(call_ensures(
                sign_request,
                (names, &fresh.key),
                Ok::<Vec<u8>, String>(req.csr),
            ));
        },
        Err(e) => {
            if let ServerError::Rcgen(words) = e {
                if !call_ensures(generate_key, (), Err::<FreshKey, String>(words)) {
                    let (fresh, names) = choose|fresh: FreshKey, names: RequestNames| #[trigger]
                        signed_with(fresh, names, apex@, Err(words));
                    assert(names_apex(names, apex@));
                    assert(call_ensures(
                        sign_request,
                        (names, &fresh.key),
                        Err::<Vec<u8>, String>(words),
                    ));
                }
            }
        },
    }
}

/// Credentials are restored from the text at hand, and saved as the text of the very
/// account.
proof fn credentials_are_those_at_hand(
    text: &str,
    restored: Result<instant_acme::AccountCredentials, ServerError>,
    creds: &instant_acme::AccountCredentials,
    saved: Result<String, ServerError>,
)
    requires
        call_ensures(restore_credentials, (text,), restored),
        call_ensures(save_credentials, (creds,), saved),
    ensures
        restored matches Ok(found) ==> call_ensures(
            parse_credentials,
            (text,),
            Ok::<instant_acme::AccountCredentials, String>(found),
        ),
        restored is Ok <==> credentials_refused(text@) is None,
        restored matches Err(e) ==> (e matches ServerError::Keys(why) && why@
            == "bad account.json: "@ + credentials_refused(text@)->0),
        saved is Ok,
        call_ensures(print_credentials, (creds,), Ok::<String, String>(saved->Ok_0)),
{
}

} // verus!
