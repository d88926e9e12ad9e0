//! The decision core of a tunnel relay server.

pub mod acme;
pub mod acme_request;
pub mod admin;
pub mod certificate_laws;
pub mod cli;
pub mod config;
pub mod error;
pub mod lease_laws;
pub mod metrics;
pub mod paths;
pub mod pem;
pub mod ports;
pub mod proto;
pub mod registry;
pub mod registry_laws;
pub mod request_laws;
pub mod reservation_laws;
mod seqs;
pub mod server;
pub mod server_laws;
pub mod session;
pub mod session_laws;
pub mod startup_laws;
pub mod text;
pub mod text_laws;
pub mod token_laws;
pub mod totality_laws;
pub mod transport;
pub mod tunnel;
