use vstd::prelude::*;

verus! {

/// Whether a native resource is still owned and must be freed. The caller
/// keeps the native pointer beside it and frees the pointer only when
/// `release` says so.
pub struct NativeSlot {
    held: bool,
}

/// How many of `n` successive `release` calls say to free, on a slot that
/// holds `held`: by `release`'s contract, the first reports `held` and each
/// later one finds the slot empty.
pub open spec fn frees(held: bool, n: nat) -> nat
    decreases n,
{
    if n == 0 {
        0
    } else {
        (if held { 1nat } else { 0nat }) + frees(false, (n - 1) as nat)
    }
}

impl NativeSlot {
    pub closed spec fn is_held(&self) -> bool {
        self.held
    }

    /// A slot for a native pointer: held where the pointer is non-null.
    pub fn new(non_null: bool) -> (s: Self)
        ensures
            s.is_held() == non_null,
    {
        NativeSlot { held: non_null }
    }

    /// Whether the resource must be freed now; afterwards the slot is empty,
    /// so no later call frees it again.
    pub fn release(&mut self) -> (r: bool)
        ensures
            r == old(self).is_held(),
            !final(self).is_held(),
    {
        let r = self.held;
        self.held = false;
        r
    }
}

/// However many times a slot is released, the resource is freed at most once:
/// once where the pointer was assigned, never where it was not.
pub proof fn lemma_freed_at_most_once(held: bool, n: nat)
    requires
        n >= 1,
    ensures
        frees(held, n) == (if held { 1nat } else { 0nat }),
{
    lemma_empty_never_frees((n - 1) as nat);
}

/// An empty slot never says to free.
pub proof fn lemma_empty_never_frees(n: nat)
    ensures
        frees(false, n) == 0,
    decreases n,
{
    if n > 0 {
        lemma_empty_never_frees((n - 1) as nat);
    }
}

} // verus!
