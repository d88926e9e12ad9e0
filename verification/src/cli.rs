//! From command-line arguments to a configuration.

use vstd::prelude::*;

use crate::config::{DomainTls, Mode, ServerConfig, DEFAULT_SESSION_TTL};
use crate::paths::FilePath;
use crate::ports::PortRange;
use crate::proto::SocketAddr;
use crate::text::str_eq;

verus! {

/// What the command line says.
#[derive(Debug)]
pub struct CliArgs {
    /// Apex domain; without one the server runs TCP-only tunnels.
    pub domain: Option<String>,
    /// Host to embed in tunnel URLs.
    pub public_host: Option<String>,
    /// Overrides the port of `bind`.
    pub public_quic: Option<u16>,
    pub bind: SocketAddr,
    /// The address of `bind` in text form.
    pub bind_host: String,
    pub data_dir: FilePath,
    pub authorized_keys: FilePath,
    pub peer_list: FilePath,
    pub tcp_fallback_bind: Option<SocketAddr>,
    pub tcp_port_pool: PortRange,
    pub issue_admin_token: bool,
    pub admin_token_reusable: bool,
    pub admin_token_ttl_secs: u64,
    pub max_http_tunnels_per_ip: usize,
    pub admin_bind: Option<SocketAddr>,
    /// Number of workers; zero means as many as the machine runs in parallel.
    pub cores: usize,
    pub resume_grace_secs: u64,
    pub tls_cert: Option<FilePath>,
    pub tls_key: Option<FilePath>,
    pub acme_contact: Option<String>,
    pub acme_directory: Option<String>,
    pub acme_production: bool,
    pub http_bind: SocketAddr,
    pub https_bind: SocketAddr,
}

/// A configuration together with the number of workers to run it with.
#[derive(Debug)]
pub struct StartUp {
    pub config: ServerConfig,
    pub cores: usize,
}

/// Whether log lines are written as JSON: only if the environment asks for
/// exactly that.
pub fn json_logs(format: Option<&str>) -> (r: bool)
    ensures
        r == (format matches Some(f) && f@ == "json"@),
{
    match format {
        Some(f) => str_eq(f, "json"),
        None => false,
    }
}

/// The address given for the admin API. An empty one disables the API.
pub fn admin_bind_text<'a>(given: &'a str) -> (r: Option<&'a str>)
    ensures
        match r {
            Some(text) => given@ != ""@ && text@ == given@,
            None => given@ == ""@,
        },
{
    if str_eq(given, "") {
        None
    } else {
        Some(given)
    }
}

/// The QUIC address: `bind`, on the overriding port if there is one.
pub fn effective_bind(bind: SocketAddr, public_quic: Option<u16>) -> (r: SocketAddr)
    ensures
        r == (match public_quic {
            Some(port) => bind.on_port(port),
            None => bind,
        }),
{
    match public_quic {
        Some(port) => bind.with_port(port),
        None => bind,
    }
}

/// The number of workers: as asked for, or else as many as the machine runs in
/// parallel, or else one.
pub fn effective_cores(requested: usize, available: Option<usize>) -> (r: usize)
    ensures
        r == (if requested != 0 {
            requested
        } else {
            match available {
                Some(n) => n,
                None => 1,
            }
        }),
{
    if requested != 0 {
        requested
    } else {
        match available {
            Some(n) => n,
            None => 1,
        }
    }
}

/// Whether one worker on the startup thread is enough.
pub fn runs_single_core(cores: usize) -> (r: bool)
    ensures
        r == (cores <= 1),
{
    cores <= 1
}

/// The certificate source that the arguments name: a certificate with its key,
/// or else an ACME contact alone. Anything else names none.
pub open spec fn names_tls(
    cert: Option<FilePath>,
    key: Option<FilePath>,
    contact: Option<String>,
    directory: Option<String>,
    production: bool,
    r: Option<DomainTls>,
) -> bool {
    match (cert, key, contact) {
        (Some(cert), Some(key), None) => r == Some(DomainTls::PemFile { cert, key }),
        (None, None, Some(contact)) => {
            &&& r matches Some(DomainTls::Acme { contact: c, directory: d })
            &&& c == contact
            &&& match directory {
                Some(url) => d == Some(url),
                None => if production {
                    d matches Some(url) && url@ == DomainTls::LETSENCRYPT_PRODUCTION@
                } else {
                    d is None
                },
            }
        },
        _ => r is None,
    }
}

/// The certificate source that the arguments name.
pub fn domain_tls(
    cert: Option<FilePath>,
    key: Option<FilePath>,
    contact: Option<String>,
    directory: Option<String>,
    production: bool,
) -> (r: Option<DomainTls>)
    ensures
        names_tls(cert, key, contact, directory, production, r),
{
    match (cert, key, contact) {
        (Some(cert), Some(key), None) => Some(DomainTls::PemFile { cert, key }),
        (None, None, Some(contact)) => {
            let directory = match directory {
                Some(url) => Some(url),
                None => if production {
                    Some(String::from_str(DomainTls::LETSENCRYPT_PRODUCTION))
                } else {
                    None
                },
            };
            Some(DomainTls::Acme { contact, directory })
        },
        _ => None,
    }
}

/// The mode that the arguments select, or why they select none.
pub open spec fn selects_mode(args: CliArgs, r: Result<Mode, &'static str>) -> bool {
    match args.domain {
        Some(domain) => {
            exists|tls: Option<DomainTls>| #[trigger]
                names_tls(
                    args.tls_cert,
                    args.tls_key,
                    args.acme_contact,
                    args.acme_directory,
                    args.acme_production,
                    tls,
                ) && match tls {
                    Some(tls) => r == Ok::<Mode, &'static str>(
                        Mode::Domain {
                            apex: domain,
                            tls,
                            http_bind: args.http_bind,
                            https_bind: args.https_bind,
                            tcp_port_pool: args.tcp_port_pool,
                        },
                    ),
                    None => r matches Err(e) && e@
                        == "DomainMode requires either --tls-cert + --tls-key, or --acme-contact"@,
                }
        },
        None => r == Ok::<Mode, &'static str>(
            Mode::Ip {
                public_host: match args.public_host {
                    Some(host) => host,
                    None => args.bind_host,
                },
                port_pool: args.tcp_port_pool,
            },
        ),
    }
}

/// Builds the configuration and the number of workers. `available` is how much
/// the machine runs in parallel, where it can tell.
pub fn build_config(args: CliArgs, available: Option<usize>) -> (r: Result<StartUp, &'static str>)
    ensures
        exists|mode: Result<Mode, &'static str>| #[trigger]
            selects_mode(args, mode) && match mode {
                Err(e) => r == Err::<StartUp, &'static str>(e),
                Ok(mode) => {
                    &&& r matches Ok(start)
                    &&& start.cores == (if args.cores != 0 {
                        args.cores
                    } else {
                        match available {
                            Some(n) => n,
                            None => 1,
                        }
                    })
                    &&& start.config == (ServerConfig {
                        bind: match args.public_quic {
                            Some(port) => args.bind.on_port(port),
                            None => args.bind,
                        },
                        data_dir: args.data_dir,
                        authorized_keys_path: args.authorized_keys,
                        mode,
                        issue_admin_token: args.issue_admin_token,
                        admin_token_reusable: args.admin_token_reusable,
                        admin_token_ttl_secs: args.admin_token_ttl_secs,
                        max_http_tunnels_per_ip: args.max_http_tunnels_per_ip,
                        admin_bind: args.admin_bind,
                        admin_session_ttl: DEFAULT_SESSION_TTL,
                        peer_list_path: args.peer_list,
                        tcp_fallback_bind: args.tcp_fallback_bind,
                        bw_partitions: start.cores,
                        resume_grace: Some((args.resume_grace_secs * 1_000_000_000) as u128),
                    })
                },
            },
{
    let ghost given = args;
    let CliArgs {
        domain,
        public_host,
        public_quic,
        bind,
        bind_host,
        data_dir,
        authorized_keys,
        peer_list,
        tcp_fallback_bind,
        tcp_port_pool,
        issue_admin_token,
        admin_token_reusable,
        admin_token_ttl_secs,
        max_http_tunnels_per_ip,
        admin_bind,
        cores,
        resume_grace_secs,
        tls_cert,
        tls_key,
        acme_contact,
        acme_directory,
        acme_production,
        http_bind,
        https_bind,
    } = args;
    let mode = match domain {
        Some(apex) => {
            match domain_tls(tls_cert, tls_key, acme_contact, acme_directory, acme_production) {
                Some(tls) => Ok(
                    Mode::Domain { apex, tls, http_bind, https_bind, tcp_port_pool },
                ),
                None => Err(
                    "DomainMode requires either --tls-cert + --tls-key, or --acme-contact",
                ),
            }
        },
        None => {
            let public_host = match public_host {
                Some(host) => host,
                None => bind_host,
            };
            Ok(Mode::Ip { public_host, port_pool: tcp_port_pool })
        },
    };
    assert(selects_mode(given, mode));
    let mode = match mode {
        Ok(mode) => mode,
        Err(e) => {
            return Err(e);
        },
    };
    let cores = effective_cores(cores, available);
    let grace: u128 = resume_grace_secs as u128 * 1_000_000_000;
    let config = ServerConfig {
        bind: effective_bind(bind, public_quic),
        data_dir,
        authorized_keys_path: authorized_keys,
        mode,
        issue_admin_token,
        admin_token_reusable,
        admin_token_ttl_secs,
        max_http_tunnels_per_ip,
        admin_bind,
        admin_session_ttl: DEFAULT_SESSION_TTL,
        peer_list_path: peer_list,
        tcp_fallback_bind,
        bw_partitions: cores,
        resume_grace: Some(grace),
    };
    Ok(StartUp { config, cores })
}

} // verus!
