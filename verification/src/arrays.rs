//! A borrowed bulk array: a locked, foreign-owned buffer exposed as a typed
//! read-only view. Wrapping locks the buffer; releasing unlocks and then
//! destroys it, exactly once. The model counts both actions so that the
//! single-release discipline is a proved invariant, not a convention.

use vstd::prelude::*;

use crate::defs::E_UNEXPECTED;
use crate::defs::HResult;

verus! {

/// A one-dimensional bulk array and its lock accounting.
#[derive(Debug)]
pub struct SafeArray<T> {
    items: Vec<T>,
    live: bool,
    unlocks: u32,
    destroys: u32,
}

impl<T> View for SafeArray<T> {
    type V = Seq<T>;

    closed spec fn view(&self) -> Seq<T> {
        self.items@
    }
}

impl<T> SafeArray<T> {
    /// Whether the buffer is still locked and readable.
    pub closed spec fn live(self) -> bool {
        self.live
    }

    /// How often the buffer has been unlocked.
    pub closed spec fn unlock_count(self) -> u32 {
        self.unlocks
    }

    /// How often the buffer has been destroyed.
    pub closed spec fn destroy_count(self) -> u32 {
        self.destroys
    }

    /// A live array has not been released; a dead one has been released
    /// exactly once, the unlock paired with the destroy.
    #[verifier::type_invariant]
    pub closed spec fn wf(self) -> bool {
        if self.live {
            self.unlocks == 0 && self.destroys == 0
        } else {
            self.unlocks == 1 && self.destroys == 1
        }
    }

    /// Whether the buffer is still locked and readable.
    pub fn is_live(&self) -> (r: bool)
        ensures
            r == self.live(),
    {
        self.live
    }

    /// How often the buffer has been unlocked.
    pub fn unlocks(&self) -> (r: u32)
        ensures
            r == self.unlock_count(),
    {
        self.unlocks
    }

    /// How often the buffer has been destroyed.
    pub fn destroys(&self) -> (r: u32)
        ensures
            r == self.destroy_count(),
    {
        self.destroys
    }

    /// Locks a buffer of the given dimensionality and wraps it. Anything but
    /// one dimension is a protocol violation and is rejected.
    pub fn wrap(items: Vec<T>, dims: u16) -> (r: Result<SafeArray<T>, HResult>)
        ensures
            match r {
                Ok(a) => dims == 1 && a@ == items@ && a.live() && a.unlock_count() == 0
                    && a.destroy_count() == 0,
                Err(e) => dims != 1 && e == (HResult { code: E_UNEXPECTED }),
            },
    {
        if dims != 1 {
            Err(HResult { code: E_UNEXPECTED })
        } else {
            Ok(SafeArray { items, live: true, unlocks: 0, destroys: 0 })
        }
    }

    /// The elements as a read-only slice; only a live array can be read.
    pub fn as_slice(&self) -> (r: &[T])
        requires
            self.live(),
        ensures
            r@ == self@,
    {
        self.items.as_slice()
    }

    /// An iterator over the elements; only a live array can be read.
    pub fn iter<'a>(&'a self) -> (r: core::slice::Iter<'a, T>)
        requires
            self.live(),
        ensures
            vstd::std_specs::slice::into_iter_elts(r) =~= self@,
    {
        broadcast use vstd::std_specs::slice::axiom_spec_slice_iter;

        self.items.as_slice().iter()
    }

    /// Unlocks and destroys the buffer. The lock discipline makes a second
    /// release impossible: a released array is no longer live.
    pub fn release(&mut self)
        requires
            old(self).live(),
        ensures
            !final(self).live(),
            final(self)@ == old(self)@,
            final(self).unlock_count() == 1,
            final(self).destroy_count() == 1,
    {
        proof {
            use_type_invariant(&*self);
        }
        let mut items: Vec<T> = Vec::new();
        core::mem::swap(&mut items, &mut self.items);
        *self = SafeArray { items, live: false, unlocks: 1, destroys: 1 };
    }
}

/// Every well-formed array has been released at most once, and its destroy
/// is always paired with its unlock: no reachable array has seen a double
/// release. Every array built in executable code is well formed, since
/// `wf` is the type's invariant.
pub proof fn lemma_single_release<T>(a: SafeArray<T>)
    requires
        a.wf(),
    ensures
        a.unlock_count() <= 1,
        a.destroy_count() == a.unlock_count(),
        !a.live() ==> a.unlock_count() == 1 && a.destroy_count() == 1,
{
}

} // verus!
