//! The error taxonomy: every fallible operation of the library surfaces one
//! of these kinds to the caller.

use vstd::prelude::*;
use vstd::string::StringExecFns;

verus! {

/// The failure kinds of the library. Each fallible operation states in its
/// contract exactly which kind it returns, and when.
#[derive(Debug)]
pub enum WireguardError {
    /// Base64 decoding failed, or the decoded length was not 32, for a
    /// private key.
    InvalidPrivateKey,
    /// Base64 decoding failed, or the decoded length was not 32, for a
    /// public key.
    InvalidPublicKey,
    /// Base64 decoding failed, or the decoded length was not 32, for a
    /// preshared key.
    InvalidPresharedKey,
    /// A peer holding only a public key was asked for its interface view.
    NoPrivateKeyProvided,
    /// No entry of a peer's allowed-IP list lies within the reference
    /// interface's network.
    NoAssignedIP,
    /// One of the ordered obfuscation checks failed; the text names the
    /// first offending field.
    InvalidAmneziaSetting(String),
}

/// Result type of the library's fallible operations.
pub type WireguardResult<T> = Result<T, WireguardError>;

impl WireguardError {
    /// The human-readable text of the error.
    pub open spec fn message_spec(self) -> Seq<char> {
        match self {
            WireguardError::InvalidPrivateKey => "invalid private key"@,
            WireguardError::InvalidPublicKey => "invalid public key"@,
            WireguardError::InvalidPresharedKey => "invalid preshared key"@,
            WireguardError::NoPrivateKeyProvided => "no private key provided"@,
            WireguardError::NoAssignedIP => "no assigned ip"@,
            WireguardError::InvalidAmneziaSetting(m) => "invalid amnezia setting: "@ + m@,
        }
    }

    /// The human-readable text of the error.
    pub fn message(&self) -> (r: String)
        ensures
            r@ == self.message_spec(),
    {
        match self {
            WireguardError::InvalidPrivateKey => String::from_str("invalid private key"),
            WireguardError::InvalidPublicKey => String::from_str("invalid public key"),
            WireguardError::InvalidPresharedKey => String::from_str("invalid preshared key"),
            WireguardError::NoPrivateKeyProvided => String::from_str("no private key provided"),
            WireguardError::NoAssignedIP => String::from_str("no assigned ip"),
            WireguardError::InvalidAmneziaSetting(m) => {
                let mut s = String::from_str("invalid amnezia setting: ");
                s.append(m.as_str());
                s
            },
        }
    }

    /// What two equal errors are: the same kind, and for an invalid
    /// obfuscation setting the same field name.
    pub open spec fn eq_val(self, other: WireguardError) -> bool {
        match (self, other) {
            (WireguardError::InvalidPrivateKey, WireguardError::InvalidPrivateKey) => true,
            (WireguardError::InvalidPublicKey, WireguardError::InvalidPublicKey) => true,
            (WireguardError::InvalidPresharedKey, WireguardError::InvalidPresharedKey) => true,
            (WireguardError::NoPrivateKeyProvided, WireguardError::NoPrivateKeyProvided) => true,
            (WireguardError::NoAssignedIP, WireguardError::NoAssignedIP) => true,
            (
                WireguardError::InvalidAmneziaSetting(a),
                WireguardError::InvalidAmneziaSetting(b),
            ) => a@ == b@,
            _ => false,
        }
    }
}

impl PartialEq for WireguardError {
    fn eq(&self, other: &Self) -> (r: bool) {
        match (self, other) {
            (WireguardError::InvalidPrivateKey, WireguardError::InvalidPrivateKey) => true,
            (WireguardError::InvalidPublicKey, WireguardError::InvalidPublicKey) => true,
            (WireguardError::InvalidPresharedKey, WireguardError::InvalidPresharedKey) => true,
            (WireguardError::NoPrivateKeyProvided, WireguardError::NoPrivateKeyProvided) => true,
            (WireguardError::NoAssignedIP, WireguardError::NoAssignedIP) => true,
            (
                WireguardError::InvalidAmneziaSetting(a),
                WireguardError::InvalidAmneziaSetting(b),
            ) => *a == *b,
            _ => false,
        }
    }
}

impl vstd::std_specs::cmp::PartialEqSpecImpl for WireguardError {
    open spec fn obeys_eq_spec() -> bool {
        true
    }

    open spec fn eq_spec(&self, other: &Self) -> bool {
        self.eq_val(*other)
    }
}

} // verus!
