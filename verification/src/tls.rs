//! The rule by which a server decides whether it speaks TLS.

use vstd::prelude::*;
use vstd::string::StringExecFns;

verus! {

/// Why the TLS settings cannot be used.
#[derive(Debug, Clone, Copy, PartialEq, Eq, Structural)]
pub enum TlsError {
    /// Only one of the key file and the certificate file was named.
    MissingField,
}

impl TlsError {
    /// What `message` returns.
    pub open spec fn spec_message(&self) -> Seq<char> {
        "missing a required TLS field, both key and cert must be provided."@
    }

    /// The error as a sentence for the user.
    pub fn message(&self) -> (r: String)
        ensures
            r@ == self.spec_message(),
    {
        String::from_str("missing a required TLS field, both key and cert must be provided.")
    }
}

/// Checks that a key file and a certificate file are both named, or
/// neither of them.
///
/// Returns the two paths where TLS is asked for, in the order key then
/// certificate, and `None` where it is not.
pub fn check_tls_files<'a>(key_file: &'a Option<String>, cert_file: &'a Option<String>) -> (r:
    Result<Option<(&'a str, &'a str)>, TlsError>)
    ensures
        match r {
            Ok(Some(pair)) => key_file is Some && cert_file is Some && pair.0@ == key_file->0@
                && pair.1@ == cert_file->0@,
            Ok(None) => key_file is None && cert_file is None,
            Err(error) => (key_file is Some) != (cert_file is Some) && error
                == TlsError::MissingField,
        },
{
    match (key_file, cert_file) {
        (Some(key), Some(cert)) => Ok(Some((key.as_str(), cert.as_str()))),
        (None, None) => Ok(None),
        _ => Err(TlsError::MissingField),
    }
}

} // verus!
