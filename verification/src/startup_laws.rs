//! From the command line to the configuration, field by field.

use vstd::prelude::*;
use vstd::utf8::encode_utf8;

use crate::cli::{
    admin_bind_text, build_config, domain_tls, effective_bind, effective_cores, json_logs,
    runs_single_core, CliArgs, StartUp,
};
use crate::config::{default_bind, DomainTls, Mode, ServerConfig};
use crate::paths::FilePath;
use crate::ports::PortRange;
use crate::proto::{PubKey, SessionId, SocketAddr};

verus! {

/// A certificate comes from a certificate with its key, or else from an ACME contact:
/// from exactly one of the two. A directory that is named is the one asked; otherwise
/// the production one if that was asked for, and else the default.
pub proof fn a_certificate_has_one_source(
    cert: Option<FilePath>,
    key: Option<FilePath>,
    contact: Option<String>,
    directory: Option<String>,
    production: bool,
    r: Option<DomainTls>,
)
    requires
        call_ensures(domain_tls, (cert, key, contact, directory, production), r),
    ensures
        r is None <==> !(cert is Some && key is Some && contact is None) && !(cert is None && key
            is None && contact is Some),
        r matches Some(DomainTls::PemFile { cert: c, key: k }) ==> cert == Some(c) && key == Some(
            k,
        ) && contact is None,
        r matches Some(DomainTls::Acme { contact: c, directory: d }) ==> {
            &&& contact == Some(c)
            &&& cert is None && key is None
            &&& directory is Some ==> d == directory
            &&& directory is None && !production ==> d is None
            &&& directory is None && production ==> d is Some && d->0@
                == "https://acme-v02.api.letsencrypt.org/directory"@
        },
{
}

/// The arguments fail only where a domain has no certificate source, or two. Otherwise
/// every setting of the configuration is what the arguments say.
pub proof fn arguments_become_the_configuration(
    args: CliArgs,
    available: Option<usize>,
    r: Result<StartUp, &'static str>,
)
    requires
        call_ensures(build_config, (args, available), r),
    ensures
        r is Err <==> args.domain is Some && !(args.tls_cert is Some && args.tls_key is Some
            && args.acme_contact is None) && !(args.tls_cert is None && args.tls_key is None
            && args.acme_contact is Some),
        r matches Err(e) ==> e@
            == "DomainMode requires either --tls-cert + --tls-key, or --acme-contact"@,
        r matches Ok(start) ==> {
            let config = start.config;
            &&& config.data_dir == args.data_dir
            &&& config.authorized_keys_path == args.authorized_keys
            &&& config.peer_list_path == args.peer_list
            &&& config.issue_admin_token == args.issue_admin_token
            &&& config.admin_token_reusable == args.admin_token_reusable
            &&& config.admin_token_ttl_secs == args.admin_token_ttl_secs
            &&& config.max_http_tunnels_per_ip == args.max_http_tunnels_per_ip
            &&& config.admin_bind == args.admin_bind
            &&& config.admin_session_ttl == 3600 * 1_000_000_000
            &&& config.tcp_fallback_bind == args.tcp_fallback_bind
            &&& config.bw_partitions == start.cores
            &&& config.resume_grace matches Some(grace)
            &&& grace == args.resume_grace_secs * 1_000_000_000
        },
        r matches Ok(start) ==> {
            &&& args.cores > 0 ==> start.cores == args.cores
            &&& args.cores == 0 && available is Some ==> start.cores == available->0
            &&& args.cores == 0 && available is None ==> start.cores == 1
            &&& args.public_quic is None ==> start.config.bind == args.bind
            &&& args.public_quic matches Some(quic) ==> match args.bind {
                SocketAddr::V4 { ip4, .. } => start.config.bind == (SocketAddr::V4 {
                    ip4,
                    port: quic,
                }),
                SocketAddr::V6 { ip6, flowinfo, scope_id, .. } => start.config.bind
                    == (SocketAddr::V6 { ip6, port: quic, flowinfo, scope_id }),
            }
        },
        r matches Ok(start) ==> {
            &&& start.config.mode is Domain <==> args.domain is Some
            &&& start.config.mode matches Mode::Ip { public_host, port_pool } ==> {
                &&& port_pool == args.tcp_port_pool
                &&& args.public_host is Some ==> public_host == args.public_host->0
                &&& args.public_host is None ==> public_host == args.bind_host
            }
            &&& start.config.mode matches Mode::Domain {
                apex,
                tls,
                http_bind,
                https_bind,
                tcp_port_pool,
            } ==> {
                &&& args.domain == Some(apex)
                &&& http_bind == args.http_bind
                &&& https_bind == args.https_bind
                &&& tcp_port_pool == args.tcp_port_pool
                &&& tls matches DomainTls::PemFile { cert, key } ==> args.tls_cert == Some(cert)
                    && args.tls_key == Some(key) && args.acme_contact is None
                &&& tls matches DomainTls::Acme { contact, directory } ==> {
                    &&& args.acme_contact == Some(contact)
                    &&& args.tls_cert is None && args.tls_key is None
                    &&& args.acme_directory is Some ==> directory == args.acme_directory
                    &&& args.acme_directory is None && !args.acme_production ==> directory is None
                    &&& args.acme_directory is None && args.acme_production ==> directory is Some
                        && directory->0@ == "https://acme-v02.api.letsencrypt.org/directory"@
                }
            }
        },
{
}

/// The overriding port changes the port and nothing else of the address.
pub proof fn an_override_changes_the_port_alone(
    bind: SocketAddr,
    public_quic: Option<u16>,
    r: SocketAddr,
    port: u16,
)
    requires
        call_ensures(effective_bind, (bind, public_quic), r),
        call_ensures(SocketAddr::port, (&r,), port),
    ensures
        public_quic is None ==> r == bind,
        public_quic matches Some(wanted) ==> port == wanted,
        bind matches SocketAddr::V4 { ip4, .. } ==> (r matches SocketAddr::V4 { ip4: kept, port: p }
            && kept == ip4 && p == port),
        bind matches SocketAddr::V6 { ip6, flowinfo, scope_id, .. } ==> (r matches SocketAddr::V6 {
            ip6: kept,
            flowinfo: flow,
            scope_id: scope,
            port: p,
        } && kept == ip6 && flow == flowinfo && scope == scope_id && p == port),
{
}

/// An address moved to a port is on that port, and is otherwise the address it was.
pub proof fn a_moved_address_is_on_its_port(
    addr: SocketAddr,
    port: u16,
    moved: SocketAddr,
    seen: u16,
    back: SocketAddr,
    own: u16,
)
    requires
        call_ensures(SocketAddr::with_port, (addr, port), moved),
        call_ensures(SocketAddr::port, (&moved,), seen),
        call_ensures(SocketAddr::port, (&addr,), own),
        call_ensures(SocketAddr::with_port, (moved, own), back),
    ensures
        seen == port,
        back == addr,
        addr matches SocketAddr::V4 { port: p, .. } ==> own == p && moved is V4,
        addr matches SocketAddr::V6 { port: p, .. } ==> own == p && moved is V6,
{
}

/// As many workers run as were asked for, or as the machine runs in parallel, or one;
/// one worker needs no thread of its own.
pub proof fn workers_are_as_many_as_asked_for(
    requested: usize,
    available: Option<usize>,
    cores: usize,
    single: bool,
)
    requires
        call_ensures(effective_cores, (requested, available), cores),
        call_ensures(runs_single_core, (cores,), single),
    ensures
        requested > 0 ==> cores == requested,
        requested == 0 && available is Some ==> cores == available->0,
        requested == 0 && available is None ==> cores == 1,
        single <==> cores == 0 || cores == 1,
{
}

/// Logs are JSON only where the environment asks for exactly that.
pub proof fn json_is_asked_for(format: Option<&str>, r: bool)
    requires
        call_ensures(json_logs, (format,), r),
    ensures
        format is None ==> !r,
        format matches Some(f) ==> (r <==> f@.len() == 4 && f@[0] == 'j' && f@[1] == 's' && f@[2]
            == 'o' && f@[3] == 'n'),
{
    reveal_strlit("json");
    if let Some(f) = format {
        if f@.len() == 4 && f@[0] == 'j' && f@[1] == 's' && f@[2] == 'o' && f@[3] == 'n' {
            assert(f@ =~= "json"@);
        }
    }
}

/// The admin API listens where it was told to, and nowhere if it was told nothing.
pub proof fn no_address_disables_the_admin_api(given: &str, r: Option<&str>)
    requires
        call_ensures(admin_bind_text, (given,), r),
    ensures
        r is None <==> given@.len() == 0,
        r matches Some(text) ==> text@ == given@,
{
    reveal_strlit("");
    if given@.len() == 0 {
        assert(given@ =~= ""@);
    }
}

/// A local configuration keeps everything in its directory, binds to the local host
/// alone, and takes the defaults for the rest.
pub proof fn a_local_configuration_stays_local(data_dir: FilePath, c: ServerConfig)
    requires
        call_ensures(ServerConfig::local_in, (data_dir,), c),
    ensures
        c.data_dir@ == data_dir@,
        data_dir@.is_prefix_of(c.authorized_keys_path@),
        encode_utf8("authorized_keys"@).is_suffix_of(c.authorized_keys_path@),
        data_dir@.is_prefix_of(c.peer_list_path@),
        encode_utf8("peers.txt"@).is_suffix_of(c.peer_list_path@),
        c.bind == (SocketAddr::V4 { ip4: 0x7f00_0001, port: 0 }),
        c.admin_bind == Some(SocketAddr::V4 { ip4: 0x7f00_0001, port: 0 }),
        c.tcp_fallback_bind is None,
        c.mode matches Mode::Ip { public_host, port_pool } && public_host@ == "127.0.0.1"@
            && port_pool == (PortRange { lo: 10_000, hi: 19_999 }),
        !c.issue_admin_token,
        !c.admin_token_reusable,
        c.admin_token_ttl_secs == 600,
        c.max_http_tunnels_per_ip == usize::MAX,
        c.admin_session_ttl == 3600 * 1_000_000_000,
        c.bw_partitions == 1,
        c.resume_grace is None,
{
    let keys = encode_utf8("authorized_keys"@);
    let peers = encode_utf8("peers.txt"@);
    assert(c.authorized_keys_path@.take(data_dir@.len() as int) =~= data_dir@);
    assert(c.authorized_keys_path@.skip(c.authorized_keys_path@.len() - keys.len()) =~= keys);
    assert(c.peer_list_path@.take(data_dir@.len() as int) =~= data_dir@);
    assert(c.peer_list_path@.skip(c.peer_list_path@.len() - peers.len()) =~= peers);
}

/// Each setting can be changed by itself: what was set last is what holds, and every
/// setting that was not touched stays.
pub proof fn settings_are_independent(
    config: ServerConfig,
    bind: SocketAddr,
    mode: Mode,
    issue: bool,
    reusable: bool,
    secs: u64,
    fallback: SocketAddr,
    n: usize,
    c1: ServerConfig,
    c2: ServerConfig,
    c3: ServerConfig,
    c4: ServerConfig,
    c5: ServerConfig,
    c6: ServerConfig,
    c7: ServerConfig,
)
    requires
        call_ensures(ServerConfig::with_bind, (config, bind), c1),
        call_ensures(ServerConfig::with_mode, (c1, mode), c2),
        call_ensures(ServerConfig::with_issue_admin_token, (c2, issue), c3),
        call_ensures(ServerConfig::with_admin_token_reusable, (c3, reusable), c4),
        call_ensures(ServerConfig::with_admin_token_ttl_secs, (c4, secs), c5),
        call_ensures(ServerConfig::with_tcp_fallback_bind, (c5, fallback), c6),
        call_ensures(ServerConfig::with_bw_partitions, (c6, n), c7),
    ensures
        c7.bind == bind,
        c7.mode == mode,
        c7.issue_admin_token == issue,
        c7.admin_token_reusable == reusable,
        c7.admin_token_ttl_secs == secs,
        c7.tcp_fallback_bind == Some(fallback),
        n >= 1 ==> c7.bw_partitions == n,
        n == 0 ==> c7.bw_partitions == 1,
        c7.data_dir == config.data_dir,
        c7.authorized_keys_path == config.authorized_keys_path,
        c7.max_http_tunnels_per_ip == config.max_http_tunnels_per_ip,
        c7.admin_bind == config.admin_bind,
        c7.admin_session_ttl == config.admin_session_ttl,
        c7.peer_list_path == config.peer_list_path,
        c7.resume_grace == config.resume_grace,
{
}

/// Without further word a server listens on every interface, on the protocol's port.
pub proof fn a_server_listens_everywhere(r: SocketAddr)
    requires
        call_ensures(default_bind, (), r),
    ensures
        r == (SocketAddr::V4 { ip4: 0, port: 4433 }),
{
}

/// Two keys are the same exactly if they agree in every byte, and so are two sessions.
pub proof fn identities_are_bytes(
    a: &PubKey,
    b: &PubKey,
    same_key: bool,
    s: &SessionId,
    t: &SessionId,
    same_session: bool,
)
    requires
        call_ensures(PubKey::same, (a, b), same_key),
        call_ensures(SessionId::same, (s, t), same_session),
    ensures
        same_key <==> forall|i: int| 0 <= i < 32 ==> #[trigger] a.0@[i] == b.0@[i],
        same_session <==> forall|i: int| 0 <= i < 16 ==> #[trigger] s.0@[i] == t.0@[i],
{
    if forall|i: int| 0 <= i < 32 ==> #[trigger] a.0@[i] == b.0@[i] {
        assert(a.0@ =~= b.0@);
        assert(a.0 =~= b.0);
    }
    if forall|i: int| 0 <= i < 16 ==> #[trigger] s.0@[i] == t.0@[i] {
        assert(s.0@ =~= t.0@);
        assert(s.0 =~= t.0);
    }
}

/// A file in a directory is named by the directory, one separator, and its name; no
/// second separator is put where there is one, and none where there is no directory. A
/// path is read back as the bytes it was made of, and a text as its encoding.
pub proof fn a_file_is_named_in_its_directory(
    bytes: Vec<u8>,
    dir: FilePath,
    name: &str,
    path: FilePath,
    seen: &[u8],
    text: &str,
    named: FilePath,
    copy: FilePath,
)
    requires
        call_ensures(FilePath::from_bytes, (bytes,), dir),
        call_ensures(FilePath::file, (&dir, name), path),
        call_ensures(FilePath::as_bytes, (&path,), seen),
        call_ensures(FilePath::from_text, (text,), named),
        call_ensures(FilePath::clone, (&dir,), copy),
    ensures
        dir@ == bytes@,
        copy@ == bytes@,
        named@ == encode_utf8(text@),
        seen@ == path@,
        ({
            let separated = bytes@.len() == 0 || bytes@[bytes@.len() - 1] == 47;
            let file = encode_utf8(name@);
            &&& separated ==> path@ == bytes@ + file
            &&& !separated ==> path@ == bytes@ + seq![47u8] + file
        }),
{
    assert(bytes@ + seq![47u8] =~= bytes@.push(47u8));
}

/// Without further word a server carries TCP tunnels for the local host.
pub proof fn a_mode_is_local_by_default(mode: Mode)
    requires
        call_ensures(Mode::default, (), mode),
    ensures
        mode matches Mode::Ip { public_host, port_pool } && public_host@ == "127.0.0.1"@
            && port_pool.lo == 10_000 && port_pool.hi == 19_999,
{
}

} // verus!
