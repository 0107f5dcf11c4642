//! A safety layer between untrusted OpenPGP signature buffers and a native
//! cryptographic library that must only ever see well-formed input.
//!
//! The library holds the decisions: when the native library may be
//! configured, which buffers may reach the native parser, whether what the
//! native parser reported agrees with the independent structural parser, and
//! which bytes a digest context has absorbed. The calls themselves are made by
//! the caller, who hands each outcome back as a plain value.
use vstd::prelude::*;

pub mod errors;
pub mod handle;
pub mod digests;
pub mod init;
pub mod signatures;

pub use errors::{AllowWeakHashes, Error, Fatal};
pub use handle::NativeSlot;
pub use init::{InitGate, InitPlan, InitReport, InitState, InitToken};
pub use digests::{check_policy, DigestCtx};
pub use signatures::{NativeReport, SigInfo, Signature as RawSignature, Validated};

verus! {

/// A validated signature together with the running digest of the content it
/// signs. The digest context is bound to the signature's hash algorithm.
pub struct Signature {
    sig: RawSignature,
    ctx: DigestCtx,
}

impl Signature {
    pub closed spec fn spec_hash_algorithm(&self) -> u8 {
        self.sig.spec_hash_algorithm()
    }

    pub closed spec fn spec_public_key_algorithm(&self) -> u8 {
        self.sig.spec_public_key_algorithm()
    }

    /// The weak-hash policy the digest context was created under.
    pub closed spec fn spec_allow_weak(&self) -> AllowWeakHashes {
        self.ctx.spec_allow_weak()
    }

    /// Every byte of signed content fed so far, in order.
    pub closed spec fn stream(&self) -> Seq<u8> {
        self.ctx.stream()
    }

    /// The fed bytes not yet moved into the native digest state.
    pub closed spec fn pending(&self) -> Seq<u8> {
        self.ctx.pending()
    }

    /// The hash and digest algorithms agree.
    pub closed spec fn wf(&self) -> bool {
        self.ctx.spec_algorithm() == self.sig.spec_hash_algorithm()
    }

    /// Joins a cross-checked signature with the outcome of creating a digest
    /// context for its hash algorithm. The two are joined exactly when the
    /// context exists and is bound to that algorithm; anything else means the
    /// native parser and the native digest layer disagree, and the caller
    /// must abort.
    pub fn parse(sig: RawSignature, ctx: Result<DigestCtx, Error>) -> (r: Result<Self, Fatal>)
        ensures
            r is Ok <==> (ctx matches Ok(c) && c.spec_algorithm() == sig.spec_hash_algorithm()),
            r matches Ok(s) ==> s.wf() && s.spec_hash_algorithm() == sig.spec_hash_algorithm()
                && s.spec_public_key_algorithm() == sig.spec_public_key_algorithm() && (
            ctx matches Ok(c) && s.stream() == c.stream() && s.pending() == c.pending()
                && s.spec_allow_weak() == c.spec_allow_weak()),
            r matches Err(f) ==> f == Fatal::DigestRejected,
    {
        match ctx {
            Ok(c) => {
                if c.algorithm() == sig.hash_algorithm() {
                    Ok(Signature { sig, ctx: c })
                } else {
                    Err(Fatal::DigestRejected)
                }
            },
            Err(_) => Err(Fatal::DigestRejected),
        }
    }

    /// Feeds `buf` to the signature's digest context.
    pub fn update(&mut self, buf: &[u8])
        ensures
            final(self).stream() == old(self).stream() + buf@,
            final(self).pending() == old(self).pending() + buf@,
            final(self).spec_hash_algorithm() == old(self).spec_hash_algorithm(),
            final(self).spec_public_key_algorithm() == old(self).spec_public_key_algorithm(),
            final(self).spec_allow_weak() == old(self).spec_allow_weak(),
            old(self).wf() ==> final(self).wf(),
    {
        self.ctx.update(buf)
    }

    /// Hands out the fed bytes that wait for the native digest state.
    pub fn take_pending(&mut self) -> (r: Vec<u8>)
        ensures
            r@ == old(self).pending(),
            final(self).pending() == Seq::<u8>::empty(),
            final(self).stream() == old(self).stream(),
            final(self).spec_hash_algorithm() == old(self).spec_hash_algorithm(),
            final(self).spec_public_key_algorithm() == old(self).spec_public_key_algorithm(),
            final(self).spec_allow_weak() == old(self).spec_allow_weak(),
            old(self).wf() ==> final(self).wf(),
    {
        self.ctx.take_pending()
    }

    /// The hash algorithm of the signature.
    pub fn hash_algorithm(&self) -> (r: u8)
        ensures
            r == self.spec_hash_algorithm(),
    {
        self.sig.hash_algorithm()
    }

    /// The public-key algorithm of the signature.
    pub fn public_key_algorithm(&self) -> (r: u8)
        ensures
            r == self.spec_public_key_algorithm(),
    {
        self.sig.public_key_algorithm()
    }
}

} // verus!
