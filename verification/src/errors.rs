use vstd::prelude::*;

verus! {

/// The distinguishable failure kinds of this library.
///
/// Every operation that can fail reports exactly one of these kinds, so a
/// caller can tell a misconfigured strategy apart from a missing program,
/// a manifest identity mismatch, or a credential decryption problem.
#[derive(Clone, Copy, Debug, PartialEq, Eq, Structural)]
pub enum ErrorKind {
    /// A strategy or credential store is not set up to answer the request:
    /// a missing or invalid root directory, no functional backing resolver,
    /// or a contradictory credential configuration.
    Configuration,
    /// A manifest, program, or import could not be located or read.
    NotFound,
    /// The manifest at the root names a different program than the one
    /// requested.
    IdentityMismatch,
    /// A password was missing when one was required, or the external
    /// decryption service rejected the password or ciphertext.
    Decryption,
}

/// A structured failure: a kind plus a human-diagnosable message.
#[derive(Debug)]
pub struct ResolverError {
    pub kind: ErrorKind,
    pub message: String,
}

impl ResolverError {
    /// Build an error of the given kind carrying the given message.
    pub fn new(kind: ErrorKind, message: String) -> (r: ResolverError)
        ensures
            r.kind == kind,
            r.message@ == message@,
    {
        ResolverError { kind, message }
    }
}

impl Clone for ResolverError {
    fn clone(&self) -> (r: Self)
        ensures
            r.kind == self.kind,
            r.message@ == self.message@,
    {
        ResolverError { kind: self.kind, message: self.message.clone() }
    }
}

} // verus!
