use vstd::prelude::*;

use crate::errors::{AllowWeakHashes, Error};
use crate::init::InitToken;

verus! {

/// A running digest bound to one hash algorithm. Bytes fed to it wait in
/// `pending` until the caller moves them into the native digest state; the
/// context's stream is everything fed to it, in order.
pub struct DigestCtx {
    algorithm: u8,
    allow_weak: AllowWeakHashes,
    pending: Vec<u8>,
    absorbed: Ghost<Seq<u8>>,
}

/// The hash algorithms that count as weak, by their OpenPGP ids: MD5 (1),
/// SHA-1 (2) and RIPEMD-160 (3).
pub open spec fn is_weak_hash(algorithm: u8) -> bool {
    algorithm == 1 || algorithm == 2 || algorithm == 3
}

/// The weak-hash policy admits `algorithm`.
pub open spec fn policy_admits(algorithm: u8, allow_weak: AllowWeakHashes) -> bool {
    !(is_weak_hash(algorithm) && allow_weak == AllowWeakHashes::No)
}

/// Checks `algorithm` against the weak-hash policy, before any native digest
/// state is created for it.
pub fn check_policy(algorithm: u8, allow_weak: AllowWeakHashes) -> (r: Result<(), Error>)
    ensures
        r is Ok <==> policy_admits(algorithm, allow_weak),
        r matches Err(e) ==> e == Error::WeakHash,
{
    if (algorithm == 1 || algorithm == 2 || algorithm == 3) && allow_weak
        == AllowWeakHashes::No {
        Err(Error::WeakHash)
    } else {
        Ok(())
    }
}

/// The stream after `chunks` are fed, one `update` call each, to a context
/// whose stream was `s`: each call appends its chunk, as `update` ensures.
pub open spec fn stream_after(s: Seq<u8>, chunks: Seq<Seq<u8>>) -> Seq<u8>
    decreases chunks.len(),
{
    if chunks.len() == 0 {
        s
    } else {
        stream_after(s + chunks[0], chunks.drop_first())
    }
}

impl DigestCtx {
    pub closed spec fn spec_algorithm(&self) -> u8 {
        self.algorithm
    }

    pub closed spec fn spec_allow_weak(&self) -> AllowWeakHashes {
        self.allow_weak
    }

    /// Every byte fed to the context, in order.
    pub closed spec fn stream(&self) -> Seq<u8> {
        self.absorbed@ + self.pending@
    }

    /// The bytes not yet moved into the native digest state.
    pub closed spec fn pending(&self) -> Seq<u8> {
        self.pending@
    }

    /// A context for `algorithm`, given whether the native layer created its
    /// digest state: a context with an empty stream where the weak-hash
    /// policy admits the algorithm and the native layer created the state;
    /// otherwise the policy's rejection first, then the native one.
    pub fn init(
        algorithm: u8,
        allow_weak: AllowWeakHashes,
        native_created: bool,
        _token: InitToken,
    ) -> (r: Result<DigestCtx, Error>)
        ensures
            r is Ok <==> policy_admits(algorithm, allow_weak) && native_created,
            r matches Ok(c) ==> c.spec_algorithm() == algorithm && c.spec_allow_weak()
                == allow_weak && c.stream() == Seq::<u8>::empty() && c.pending()
                == Seq::<u8>::empty(),
            r matches Err(e) ==> e == (if !policy_admits(algorithm, allow_weak) {
                Error::WeakHash
            } else {
                Error::UnknownAlgorithm
            }),
    {
        if check_policy(algorithm, allow_weak).is_err() {
            return Err(Error::WeakHash);
        }
        if native_created {
            let ctx = DigestCtx {
                algorithm,
                allow_weak,
                pending: Vec::new(),
                absorbed: Ghost(Seq::empty()),
            };
            assert(ctx.stream() =~= Seq::<u8>::empty());
            Ok(ctx)
        } else {
            Err(Error::UnknownAlgorithm)
        }
    }

    /// The hash algorithm the context was created for.
    pub fn algorithm(&self) -> (r: u8)
        ensures
            r == self.spec_algorithm(),
    {
        self.algorithm
    }

    /// The weak-hash policy the context was created under.
    pub fn allow_weak(&self) -> (r: AllowWeakHashes)
        ensures
            r == self.spec_allow_weak(),
    {
        self.allow_weak
    }

    /// Feeds `buf` to the context.
    pub fn update(&mut self, buf: &[u8])
        ensures
            final(self).stream() == old(self).stream() + buf@,
            final(self).pending() == old(self).pending() + buf@,
            final(self).spec_algorithm() == old(self).spec_algorithm(),
            final(self).spec_allow_weak() == old(self).spec_allow_weak(),
    {
        let ghost before = self.pending@;
        let mut i: usize = 0;
        while i < buf.len()
            invariant
                i <= buf@.len(),
                self.pending@ == before + buf@.subrange(0, i as int),
                self.absorbed == old(self).absorbed,
                self.algorithm == old(self).algorithm,
                self.allow_weak == old(self).allow_weak,
            decreases buf@.len() - i,
        {
            self.pending.push(buf[i]);
            assert(buf@.subrange(0, i as int).push(buf@[i as int]) =~= buf@.subrange(
                0,
                i + 1 as int,
            ));
            i = i + 1;
        }
        assert(buf@.subrange(0, buf@.len() as int) =~= buf@);
        assert(self.stream() =~= old(self).stream() + buf@);
    }

    /// Hands out the bytes waiting for the native digest state and marks them
    /// absorbed; the stream is unchanged.
    pub fn take_pending(&mut self) -> (r: Vec<u8>)
        ensures
            r@ == old(self).pending(),
            final(self).pending() == Seq::<u8>::empty(),
            final(self).stream() == old(self).stream(),
            final(self).spec_algorithm() == old(self).spec_algorithm(),
            final(self).spec_allow_weak() == old(self).spec_allow_weak(),
    {
        let mut out: Vec<u8> = Vec::new();
        std::mem::swap(&mut out, &mut self.pending);
        self.absorbed = Ghost(self.absorbed@ + out@);
        assert(self.stream() =~= old(self).stream());
        out
    }
}

/// Feeding chunks one `update` call at a time gives the same stream as
/// feeding their concatenation in a single call, wherever the chunk
/// boundaries fall.
pub proof fn lemma_chunking_transparent(s: Seq<u8>, chunks: Seq<Seq<u8>>)
    ensures
        stream_after(s, chunks) == stream_after(s, seq![chunks.flatten()]),
{
    lemma_stream_after_flatten(s, chunks);
    lemma_stream_after_flatten(s, seq![chunks.flatten()]);
    seq![chunks.flatten()].lemma_flatten_singleton();
}

/// The stream after feeding `chunks` is the old stream followed by their
/// concatenation.
pub proof fn lemma_stream_after_flatten(s: Seq<u8>, chunks: Seq<Seq<u8>>)
    ensures
        stream_after(s, chunks) == s + chunks.flatten(),
    decreases chunks.len(),
{
    if chunks.len() == 0 {
        assert(s + chunks.flatten() =~= s);
    } else {
        lemma_stream_after_flatten(s + chunks[0], chunks.drop_first());
        assert((s + chunks[0]) + chunks.drop_first().flatten() =~= s + chunks.flatten());
    }
}

} // verus!
