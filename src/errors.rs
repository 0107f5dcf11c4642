use vstd::prelude::*;

verus! {

/// Whether cryptographically weak hash algorithms are acceptable.
#[derive(Clone, Copy, Debug, PartialEq, Eq, Structural)]
pub enum AllowWeakHashes {
    No,
    Yes,
}

/// A recoverable rejection of an untrusted signature buffer.
#[derive(Clone, Copy, Debug, PartialEq, Eq, Structural)]
pub enum Error {
    /// The buffer is not a well-formed signature packet of the expected kind.
    Malformed,
    /// The hash algorithm is weak and the policy does not allow it.
    WeakHash,
    /// The signature expired before the reference time.
    Expired,
    /// The signature was created after the reference time.
    NotYetValid,
    /// The algorithm is not known.
    UnknownAlgorithm,
}

/// An internal disagreement that must end the process: continuing would mean
/// trusting data that the two independent validators do not agree on.
#[derive(Clone, Copy, Debug, PartialEq, Eq, Structural)]
pub enum Fatal {
    /// The native library refused its configuration at initialization.
    ConfigLoadFailed,
    /// The native library refused the configuration override.
    ConfigOverrideFailed,
    /// The exit hook could not be registered.
    ExitHookFailed,
    /// An earlier setup failed; it is not run again.
    SetupFailed,
    /// The native parser refused a buffer that pre-validation accepted.
    NativeRejected,
    /// The native parser reported success but gave no handle.
    NullHandle,
    /// The native hash algorithm differs from the pre-validated one.
    HashMismatch,
    /// The native public-key algorithm differs from the pre-validated one.
    PublicKeyMismatch,
    /// The native digest layer refused an algorithm that the native parser accepted.
    DigestRejected,
}

} // verus!
