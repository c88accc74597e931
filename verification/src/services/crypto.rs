//! Password hashes, signed tokens and random bytes.
use std::collections::HashMap;
use vstd::prelude::*;

use crate::json::object_content;

verus! {

/// Why a cryptographic call failed, with the text of the failure.
#[derive(Debug)]
pub enum CryptoError {
    PasswordMismatch(String),
    Other(String),
}

impl CryptoError {
    /// The text of the failure.
    pub open spec fn text(self) -> Seq<char> {
        match self {
            CryptoError::PasswordMismatch(text) => text@,
            CryptoError::Other(text) => text@,
        }
    }

    /// The text of the failure.
    pub fn into_text(self) -> (r: String)
        ensures
            r@ == self.text(),
    {
        match self {
            CryptoError::PasswordMismatch(text) => text,
            CryptoError::Other(text) => text,
        }
    }
}

/// A cryptographic call.
#[derive(Debug)]
pub enum CryptoRequest {
    Hash { password: String },
    CompareHash { password: String, hash: String },
    Sign { claims: HashMap<String, serde_json::Value>, expiry_secs: u64 },
    Verify { token: String },
    RandomBytes { length: usize },
}

impl View for CryptoRequest {
    type V = CryptoCall;

    open spec fn view(&self) -> CryptoCall {
        match *self {
            CryptoRequest::Hash { password } => CryptoCall::Hash { password: password@ },
            CryptoRequest::CompareHash { password, hash } => CryptoCall::CompareHash {
                password: password@,
                hash: hash@,
            },
            CryptoRequest::Sign { claims, expiry_secs } => CryptoCall::Sign {
                claims: object_content(claims),
                expiry_secs: expiry_secs as int,
            },
            CryptoRequest::Verify { token } => CryptoCall::Verify { token: token@ },
            CryptoRequest::RandomBytes { length } => CryptoCall::RandomBytes {
                length: length as int,
            },
        }
    }
}

/// A cryptographic call, by what it is asked.
pub ghost enum CryptoCall {
    Hash { password: Seq<char> },
    CompareHash { password: Seq<char>, hash: Seq<char> },
    Sign { claims: Map<Seq<char>, serde_json::Value>, expiry_secs: int },
    Verify { token: Seq<char> },
    RandomBytes { length: int },
}

/// What a cryptographic call came back with.
pub ghost enum CryptoOutcome {
    Text(Result<String, CryptoError>),
    Nothing(Result<(), CryptoError>),
    Claims(Result<HashMap<String, serde_json::Value>, CryptoError>),
    Bytes(Result<Vec<u8>, CryptoError>),
}

/// The cryptography that a platform provides.
pub trait CryptoService: Send + Sync {
    /// Whether the call can come back with the outcome.
    open spec fn may_answer(&self, call: CryptoCall, outcome: CryptoOutcome) -> bool {
        true
    }

    /// The hash of a password.
    fn hash(&self, password: &str) -> (r: Result<String, CryptoError>)
        ensures
            self.may_answer(CryptoCall::Hash { password: password@ }, CryptoOutcome::Text(r)),
    ;

    /// Compares a password with a hash.
    fn compare_hash(&self, password: &str, hash: &str) -> (r: Result<(), CryptoError>)
        ensures
            self.may_answer(
                CryptoCall::CompareHash { password: password@, hash: hash@ },
                CryptoOutcome::Nothing(r),
            ),
    ;

    /// A signed token that carries claims and expires after some seconds.
    fn sign(&self, claims: HashMap<String, serde_json::Value>, expiry_secs: u64) -> (r: Result<
        String,
        CryptoError,
    >)
        ensures
            self.may_answer(
                CryptoCall::Sign { claims: object_content(claims), expiry_secs: expiry_secs as int },
                CryptoOutcome::Text(r),
            ),
    ;

    /// The claims that a token carries.
    fn verify(&self, token: &str) -> (r: Result<HashMap<String, serde_json::Value>, CryptoError>)
        ensures
            self.may_answer(CryptoCall::Verify { token: token@ }, CryptoOutcome::Claims(r)),
    ;

    /// Random bytes.
    fn random_bytes(&self, length: usize) -> (r: Result<Vec<u8>, CryptoError>)
        ensures
            self.may_answer(
                CryptoCall::RandomBytes { length: length as int },
                CryptoOutcome::Bytes(r),
            ),
    ;
}

} // verus!
