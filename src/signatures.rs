use vstd::prelude::*;

use crate::errors::{Error, Fatal};
use crate::init::InitToken;

verus! {

/// What the structural parser reports of a signature buffer it accepted.
#[derive(Clone, Copy, Debug, PartialEq, Eq, Structural)]
pub struct SigInfo {
    pub hash_alg: u8,
    pub pkey_alg: u8,
}

/// The structural parser's acceptance of a buffer, with its summary. Only
/// `Signature::prevalidate` makes one, and only from a verdict of acceptance:
/// it is the permission to hand the buffer that verdict was given on to the
/// native parser. Which buffer that was is the caller's to keep track of.
pub struct Validated {
    info: SigInfo,
}

/// What the native parser reported for a pre-validated buffer: its status
/// code (zero is success), whether it returned a handle, and the algorithms
/// that the handle reports.
#[derive(Clone, Copy, Debug, PartialEq, Eq, Structural)]
pub struct NativeReport {
    pub status: i32,
    pub non_null: bool,
    pub hash_alg: u32,
    pub pkey_alg: u32,
}

/// A parsed signature whose native report was cross-checked against the
/// independent structural parser.
pub struct Signature {
    hash_alg: u8,
    pkey_alg: u8,
}

/// The native report agrees with the structural parser in every respect.
pub open spec fn native_agrees(info: SigInfo, report: NativeReport) -> bool {
    report.status == 0 && report.non_null && report.hash_alg == info.hash_alg as u32
        && report.pkey_alg == info.pkey_alg as u32
}

/// The first disagreement between the native report and the structural parser.
pub open spec fn native_failure(info: SigInfo, report: NativeReport) -> Fatal {
    if report.status != 0 {
        Fatal::NativeRejected
    } else if !report.non_null {
        Fatal::NullHandle
    } else if report.hash_alg != info.hash_alg as u32 {
        Fatal::HashMismatch
    } else {
        Fatal::PublicKeyMismatch
    }
}

impl Validated {
    pub closed spec fn view(&self) -> SigInfo {
        self.info
    }

    /// The structural parser's summary.
    pub fn info(&self) -> (r: SigInfo)
        ensures
            r == self@,
    {
        self.info
    }
}

impl Signature {
    pub closed spec fn spec_hash_algorithm(&self) -> u8 {
        self.hash_alg
    }

    pub closed spec fn spec_public_key_algorithm(&self) -> u8 {
        self.pkey_alg
    }

    /// Takes the structural parser's verdict on an untrusted buffer. A
    /// rejection is returned as it came, and no permission to call the native
    /// parser exists for that buffer; an acceptance becomes that permission.
    pub fn prevalidate(verdict: Result<SigInfo, Error>, _token: InitToken) -> (r: Result<
        Validated,
        Error,
    >)
        ensures
            match verdict {
                Ok(info) => r matches Ok(v) && v@ == info,
                Err(e) => r matches Err(e2) && e2 == e,
            },
    {
        match verdict {
            Ok(info) => Ok(Validated { info }),
            Err(e) => Err(e),
        }
    }

    /// Cross-checks what the native parser reported for a pre-validated
    /// buffer. The handle is accepted exactly when the native parser
    /// succeeded, returned a handle, and reports the same hash and public-key
    /// algorithms as the structural parser; otherwise the first disagreement
    /// is named, and the caller must abort.
    pub fn parse(validated: Validated, report: NativeReport) -> (r: Result<Signature, Fatal>)
        ensures
            r is Ok <==> native_agrees(validated@, report),
            r matches Ok(s) ==> s.spec_hash_algorithm() == validated@.hash_alg
                && s.spec_public_key_algorithm() == validated@.pkey_alg,
            r matches Err(f) ==> f == native_failure(validated@, report),
    {
        let info = validated.info;
        if report.status != 0 {
            return Err(Fatal::NativeRejected);
        }
        if !report.non_null {
            return Err(Fatal::NullHandle);
        }
        if report.hash_alg != info.hash_alg as u32 {
            return Err(Fatal::HashMismatch);
        }
        if report.pkey_alg != info.pkey_alg as u32 {
            return Err(Fatal::PublicKeyMismatch);
        }
        Ok(Signature { hash_alg: info.hash_alg, pkey_alg: info.pkey_alg })
    }

    /// The hash algorithm of the signature.
    pub fn hash_algorithm(&self) -> (r: u8)
        ensures
            r == self.spec_hash_algorithm(),
    {
        self.hash_alg
    }

    /// The public-key algorithm of the signature.
    pub fn public_key_algorithm(&self) -> (r: u8)
        ensures
            r == self.spec_public_key_algorithm(),
    {
        self.pkey_alg
    }
}

} // verus!
