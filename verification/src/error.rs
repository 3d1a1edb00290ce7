//! The failures a benchmarking session can report.

use vstd::prelude::*;
use vstd::string::StringExecFns;

verus! {

/// Why a key bundle could not be produced or a benchmark run was given up.
///
/// Every variant carries a human-readable detail. Nothing in the library
/// retries after one of these: the first failure is handed to the caller.
#[derive(Debug)]
pub enum BenchmarkError {
    /// Key material for one algorithm could not be produced.
    KeyGeneration(String),
    /// A signing operation failed.
    SignatureOperation(String),
    /// A signature that should have verified did not.
    VerificationFailed(String),
    /// A key encapsulation (or encryption) failed.
    EncapsulationFailed(String),
    /// A key decapsulation (or decryption) failed.
    DecapsulationFailed(String),
    /// A timing sample could not be represented.
    MeasurementError(String),
    /// The engine was asked to aggregate zero timed invocations.
    InvalidConfiguration(String),
}

impl BenchmarkError {
    /// The detail text carried by the error, whichever variant it is.
    pub open spec fn detail(&self) -> Seq<char> {
        match self {
            BenchmarkError::KeyGeneration(msg) => msg@,
            BenchmarkError::SignatureOperation(msg) => msg@,
            BenchmarkError::VerificationFailed(msg) => msg@,
            BenchmarkError::EncapsulationFailed(msg) => msg@,
            BenchmarkError::DecapsulationFailed(msg) => msg@,
            BenchmarkError::MeasurementError(msg) => msg@,
            BenchmarkError::InvalidConfiguration(msg) => msg@,
        }
    }

    /// The fixed text that introduces the detail in [`BenchmarkError::message`].
    pub open spec fn heading(&self) -> Seq<char> {
        match self {
            BenchmarkError::KeyGeneration(_) => "Key generation failed: "@,
            BenchmarkError::SignatureOperation(_) => "Signature operation failed: "@,
            BenchmarkError::VerificationFailed(_) => "Verification failed: "@,
            BenchmarkError::EncapsulationFailed(_) => "Encapsulation failed: "@,
            BenchmarkError::DecapsulationFailed(_) => "Decapsulation failed: "@,
            BenchmarkError::MeasurementError(_) => "Measurement error: "@,
            BenchmarkError::InvalidConfiguration(_) => "Invalid configuration: "@,
        }
    }

    /// The text shown to a user: the heading of the variant, then the detail.
    pub fn message(&self) -> (text: String)
        ensures
            text@ == self.heading() + self.detail(),
    {
        match self {
            BenchmarkError::KeyGeneration(msg) => {
                String::from_str("Key generation failed: ").concat(msg.as_str())
            },
            BenchmarkError::SignatureOperation(msg) => {
                String::from_str("Signature operation failed: ").concat(msg.as_str())
            },
            BenchmarkError::VerificationFailed(msg) => {
                String::from_str("Verification failed: ").concat(msg.as_str())
            },
            BenchmarkError::EncapsulationFailed(msg) => {
                String::from_str("Encapsulation failed: ").concat(msg.as_str())
            },
            BenchmarkError::DecapsulationFailed(msg) => {
                String::from_str("Decapsulation failed: ").concat(msg.as_str())
            },
            BenchmarkError::MeasurementError(msg) => {
                String::from_str("Measurement error: ").concat(msg.as_str())
            },
            BenchmarkError::InvalidConfiguration(msg) => {
                String::from_str("Invalid configuration: ").concat(msg.as_str())
            },
        }
    }
}

/// What a key generation returned, with a failure reported as
/// [`BenchmarkError::KeyGeneration`] under `detail`.
pub fn key_generation_outcome<T, E>(returned: Result<T, E>, detail: &str) -> (outcome: Result<
    T,
    BenchmarkError,
>)
    ensures
        returned matches Ok(value) ==> outcome == Ok::<T, BenchmarkError>(value),
        returned is Err ==> (outcome matches Err(e) && e is KeyGeneration && e.detail() == detail@),
{
    match returned {
        Ok(value) => Ok(value),
        Err(_) => Err(BenchmarkError::KeyGeneration(String::from_str(detail))),
    }
}

/// What a signing operation returned, with a failure reported as
/// [`BenchmarkError::SignatureOperation`] under `detail`.
pub fn signing_outcome<T, E>(returned: Result<T, E>, detail: &str) -> (outcome: Result<
    T,
    BenchmarkError,
>)
    ensures
        returned matches Ok(value) ==> outcome == Ok::<T, BenchmarkError>(value),
        returned is Err ==> (outcome matches Err(e) && e is SignatureOperation && e.detail()
            == detail@),
{
    match returned {
        Ok(value) => Ok(value),
        Err(_) => Err(BenchmarkError::SignatureOperation(String::from_str(detail))),
    }
}

/// What a verification returned, with a refusal reported as
/// [`BenchmarkError::VerificationFailed`] under `detail`.
pub fn verification_outcome<T, E>(returned: Result<T, E>, detail: &str) -> (outcome: Result<
    T,
    BenchmarkError,
>)
    ensures
        returned matches Ok(value) ==> outcome == Ok::<T, BenchmarkError>(value),
        returned is Err ==> (outcome matches Err(e) && e is VerificationFailed && e.detail()
            == detail@),
{
    match returned {
        Ok(value) => Ok(value),
        Err(_) => Err(BenchmarkError::VerificationFailed(String::from_str(detail))),
    }
}

/// What an encapsulation or encryption returned, with a failure reported as
/// [`BenchmarkError::EncapsulationFailed`] under `detail`.
pub fn encapsulation_outcome<T, E>(returned: Result<T, E>, detail: &str) -> (outcome: Result<
    T,
    BenchmarkError,
>)
    ensures
        returned matches Ok(value) ==> outcome == Ok::<T, BenchmarkError>(value),
        returned is Err ==> (outcome matches Err(e) && e is EncapsulationFailed && e.detail()
            == detail@),
{
    match returned {
        Ok(value) => Ok(value),
        Err(_) => Err(BenchmarkError::EncapsulationFailed(String::from_str(detail))),
    }
}

/// What a decapsulation or decryption returned, with a failure reported as
/// [`BenchmarkError::DecapsulationFailed`] under `detail`.
pub fn decapsulation_outcome<T, E>(returned: Result<T, E>, detail: &str) -> (outcome: Result<
    T,
    BenchmarkError,
>)
    ensures
        returned matches Ok(value) ==> outcome == Ok::<T, BenchmarkError>(value),
        returned is Err ==> (outcome matches Err(e) && e is DecapsulationFailed && e.detail()
            == detail@),
{
    match returned {
        Ok(value) => Ok(value),
        Err(_) => Err(BenchmarkError::DecapsulationFailed(String::from_str(detail))),
    }
}

} // verus!
