use vstd::prelude::*;
use crate::errors::{ErrorKind, ResolverError};

verus! {

/// The plaintext signing and decryption credential. Its bytes are opaque
/// to this layer; resolution only decides which credential to hand out.
#[derive(Debug, PartialEq, Eq)]
pub struct PrivateKey {
    pub bytes: Vec<u8>,
}

impl View for PrivateKey {
    type V = Seq<u8>;

    open spec fn view(&self) -> Seq<u8> {
        self.bytes@
    }
}

impl PrivateKey {
    /// Wrap a credential value.
    pub fn new(bytes: Vec<u8>) -> (r: PrivateKey)
        ensures
            r@ == bytes@,
    {
        PrivateKey { bytes }
    }
}

impl Clone for PrivateKey {
    fn clone(&self) -> (r: Self)
        ensures
            r@ == self@,
    {
        PrivateKey { bytes: self.bytes.clone() }
    }
}

/// The encrypted form of a private key. Decrypting it requires a
/// password-derived secret and is the business of an external service;
/// this layer only decides when decryption is called for.
#[derive(Debug)]
pub struct PrivateKeyCiphertext {
    pub bytes: Vec<u8>,
}

impl View for PrivateKeyCiphertext {
    type V = Seq<u8>;

    open spec fn view(&self) -> Seq<u8> {
        self.bytes@
    }
}

impl PrivateKeyCiphertext {
    /// Wrap an encrypted credential value.
    pub fn new(bytes: Vec<u8>) -> (r: PrivateKeyCiphertext)
        ensures
            r@ == bytes@,
    {
        PrivateKeyCiphertext { bytes }
    }
}

impl Clone for PrivateKeyCiphertext {
    fn clone(&self) -> (r: Self)
        ensures
            r@ == self@,
    {
        PrivateKeyCiphertext { bytes: self.bytes.clone() }
    }
}

/// What credential resolution decided: either a key that is ready to use,
/// or an instruction to have the external service decrypt the stored
/// ciphertext with the supplied password.
#[derive(Debug)]
pub enum CredentialResolution {
    /// The configured plaintext key, returned directly.
    Key(PrivateKey),
    /// The stored ciphertext must be decrypted with this password.
    Decrypt { ciphertext: PrivateKeyCiphertext, password: String },
}

/// The single decision credential resolution owes for every combination
/// of stored configuration and supplied password: both credential forms
/// missing or both present are loud configuration failures; a plaintext
/// key alone is returned directly whatever the password; a ciphertext
/// alone demands a password and otherwise hands ciphertext and password
/// on to the external decryption service.
pub open spec fn credential_outcome(
    private_key: Option<PrivateKey>,
    private_key_ciphertext: Option<PrivateKeyCiphertext>,
    password: Option<String>,
    r: Result<CredentialResolution, ResolverError>,
) -> bool {
    match (private_key, private_key_ciphertext) {
        (None, None) => (r matches Err(e) && e.kind == ErrorKind::Configuration
            && e.message@ == "Private key is not configured"@),
        (Some(_), Some(_)) => (r matches Err(e) && e.kind == ErrorKind::Configuration
            && e.message@
            == "Private key ciphertext is also configured, cannot have both private key and private key ciphertext"@),
        (Some(key), None) => r matches Ok(c) && (c matches CredentialResolution::Key(got)
            && got@ == key@),
        (None, Some(stored)) => match password {
            None => (r matches Err(e) && e.kind == ErrorKind::Decryption
                && e.message@ == "Private key is encrypted, password is required"@),
            Some(pw) => r matches Ok(c) && (c matches CredentialResolution::Decrypt {
                ciphertext,
                password: used,
            } && ciphertext@ == stored@ && used@ == pw@),
        },
    }
}

/// Holds the credential configuration a caller acts under: at most one of
/// a plaintext private key and a private key ciphertext. Holding both at
/// once violates the intended invariant, and resolution fails loudly on
/// it rather than silently picking one.
#[derive(Debug)]
pub struct ProgramManager {
    pub private_key: Option<PrivateKey>,
    pub private_key_ciphertext: Option<PrivateKeyCiphertext>,
}

impl ProgramManager {
    /// Build a manager from the two optional credential forms as they
    /// were configured. The contradictory combination is representable on
    /// purpose: resolution is the place that rejects it.
    pub fn new(
        private_key: Option<PrivateKey>,
        private_key_ciphertext: Option<PrivateKeyCiphertext>,
    ) -> (r: ProgramManager)
        ensures
            r.private_key == private_key,
            r.private_key_ciphertext == private_key_ciphertext,
    {
        ProgramManager { private_key, private_key_ciphertext }
    }

    /// Resolve the single usable credential from the stored configuration
    /// and the password supplied for this call. Exactly one of five cases
    /// applies: nothing configured and both configured are loud
    /// configuration failures; a plaintext key alone is returned directly
    /// and the password, if any, is ignored; a ciphertext alone demands a
    /// password, failing without one and otherwise handing ciphertext and
    /// password on for decryption.
    pub fn get_private_key(&self, password: Option<String>) -> (r: Result<
        CredentialResolution,
        ResolverError,
    >)
        ensures
            credential_outcome(self.private_key, self.private_key_ciphertext, password, r),
    {
        match (&self.private_key, &self.private_key_ciphertext) {
            (None, None) => Err(
                ResolverError::new(
                    ErrorKind::Configuration,
                    "Private key is not configured".to_owned(),
                ),
            ),
            (Some(_), Some(_)) => Err(
                ResolverError::new(
                    ErrorKind::Configuration,
                    "Private key ciphertext is also configured, cannot have both private key and private key ciphertext".to_owned(),
                ),
            ),
            (Some(key), None) => Ok(CredentialResolution::Key(key.clone())),
            (None, Some(ciphertext)) => match password {
                None => Err(
                    ResolverError::new(
                        ErrorKind::Decryption,
                        "Private key is encrypted, password is required".to_owned(),
                    ),
                ),
                Some(pw) => Ok(
                    CredentialResolution::Decrypt {
                        ciphertext: ciphertext.clone(),
                        password: pw,
                    },
                ),
            },
        }
    }

    /// Accept what the external decryption service returned for a
    /// `Decrypt` resolution: its key on success, and on failure its own
    /// message, carried verbatim under the decryption kind, never
    /// reinterpreted.
    pub fn accept_decryption(outcome: Result<PrivateKey, String>) -> (r: Result<
        PrivateKey,
        ResolverError,
    >)
        ensures
            outcome matches Ok(k) ==> r matches Ok(got) && got == k,
            outcome matches Err(m) ==> (r matches Err(e) && e.kind == ErrorKind::Decryption
                && e.message@ == m@),
    {
        match outcome {
            Ok(key) => Ok(key),
            Err(message) => Err(ResolverError::new(ErrorKind::Decryption, message)),
        }
    }
}

} // verus!
