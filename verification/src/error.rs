//! Failures that the library itself decides on.

use vstd::prelude::*;

verus! {

/// Why a server operation was refused.
#[derive(Debug)]
pub enum ServerError {
    /// Key, certificate or label trouble, described in words.
    Keys(String),
    /// A private key or a signing request could not be made, in the words of the
    /// certificate library.
    Rcgen(String),
    /// Every eligible TCP port is taken.
    PortPoolExhausted,
    /// The admin token was refused, for the reason given.
    AdminToken(&'static str),
}

impl ServerError {
    /// Whether this is [`ServerError::Keys`] with exactly the words `text`.
    pub open spec fn is_keys(self, text: Seq<char>) -> bool {
        self matches ServerError::Keys(m) && m@ == text
    }

    /// Whether this is [`ServerError::AdminToken`] with exactly the reason `text`.
    pub open spec fn is_admin_token(self, text: Seq<char>) -> bool {
        self matches ServerError::AdminToken(m) && m@ == text
    }
}

} // verus!
