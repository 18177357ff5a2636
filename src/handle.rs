//! The two ownership shapes for native objects: `Handle`, which embeds one
//! exclusively owned native value, and `RCHandle`, which holds one counted
//! reference to a shared native object.

use crate::heap::{HeapView, NativeHeap};
use core::marker::PhantomData;
use vstd::prelude::*;

verus! {

/// Destruction glue of a native value type.
pub trait NativeDrop: Sized {
    /// The shared objects that the value refers to are alive in `heap`, so
    /// that its glue may give up its references to them.
    spec fn refs_live(&self, heap: HeapView) -> bool;

    /// The native side once the destructor has given up the value's
    /// references; the count of live values is the owner's business.
    spec fn dropped(&self, heap: HeapView) -> HeapView;

    /// Runs the native destructor.
    fn drop(&mut self, heap: &mut NativeHeap)
        requires
            old(heap).wf(),
            old(self).refs_live(old(heap)@),
        ensures
            final(heap).wf(),
            final(heap)@ == old(self).dropped(old(heap)@),
            final(heap)@.values == old(heap)@.values,
    ;
}

/// Copy glue: the copy is an independent instance equal to the original.
pub trait NativeClone: NativeDrop {
    /// The heap has room for the references that a copy takes.
    spec fn can_clone(&self, heap: HeapView) -> bool;

    /// The native side once the copy has taken its references.
    spec fn cloned(&self, heap: HeapView) -> HeapView;

    fn clone(&self, heap: &mut NativeHeap) -> (r: Self)
        requires
            old(heap).wf(),
            self.can_clone(old(heap)@),
        ensures
            final(heap).wf(),
            final(heap)@ == self.cloned(old(heap)@),
            final(heap)@.values == old(heap)@.values,
            r == *self,
    ;
}

/// Equality glue.
pub trait NativePartialEq: Sized {
    fn eq(&self, rhs: &Self) -> (r: bool)
        ensures
            r == (*self == *rhs),
    ;
}

/// Hash glue; the hash is a function of the value.
pub trait NativeHash: Sized {
    spec fn hash_spec(&self) -> u64;

    fn hash(&self) -> (r: u64)
        ensures
            r == self.hash_spec(),
    ;
}

/// Default construction glue.
pub trait NativeDefault: Sized {
    spec fn default_spec() -> Self;

    fn default() -> (r: Self)
        ensures
            r == Self::default_spec(),
    ;
}

/// A managed value that has the layout of the native type `N`, so that one
/// may stand for the other.
pub trait NativeTransmutable<N>: Sized {
    /// Compares size and alignment of the two representations.
    fn test_layout() -> (r: bool)
        ensures
            r == (vstd::layout::size_of::<Self>() == vstd::layout::size_of::<N>()
                && vstd::layout::align_of::<Self>() == vstd::layout::align_of::<N>()),
    {
        core::mem::size_of::<Self>() == core::mem::size_of::<N>() && core::mem::align_of::<Self>()
            == core::mem::align_of::<N>()
    }
}

/// Owns exactly one native value, embedded.
pub struct Handle<N> {
    native: N,
}

impl<N> View for Handle<N> {
    type V = N;

    closed spec fn view(&self) -> N {
        self.native
    }
}

impl<N> Handle<N> {
    /// Takes over a value that is already constructed; no native call.
    pub fn from_native_c(native: N) -> (r: Self)
        ensures
            r@ == native,
    {
        Handle { native }
    }

    pub fn native(&self) -> (r: &N)
        ensures
            *r == self@,
    {
        &self.native
    }

    pub fn native_mut(&mut self) -> (r: &mut N)
        ensures
            *r == old(self)@,
            final(self)@ == *final(r),
    {
        &mut self.native
    }

    /// Gives the native value up to the caller, without running its glue.
    pub fn into_native(self) -> (r: N)
        ensures
            r == self@,
    {
        self.native
    }
}

impl<N: NativeDefault> Handle<N> {
    /// Constructs a native value through its default glue.
    pub fn default(heap: &mut NativeHeap) -> (r: Self)
        requires
            old(heap)@.values < u64::MAX,
        ensures
            r@ == N::default_spec(),
            final(heap)@ == old(heap)@.with_value(),
            final(heap).wf() == old(heap).wf(),
    {
        heap.note_construction();
        Handle { native: N::default() }
    }
}

impl<N: NativeClone> Handle<N> {
    /// A second, independent instance equal to this one.
    pub fn clone(&self, heap: &mut NativeHeap) -> (r: Self)
        requires
            old(heap).wf(),
            old(heap)@.values < u64::MAX,
            self@.can_clone(old(heap)@),
        ensures
            final(heap).wf(),
            r@ == self@,
            final(heap)@ == self@.cloned(old(heap)@).with_value(),
            final(heap)@.values == old(heap)@.values + 1,
    {
        let native = self.native.clone(heap);
        heap.note_construction();
        Handle { native }
    }
}

impl<N: NativeDrop> Handle<N> {
    /// Ends the handle: the native destructor runs once, and the instance is
    /// no longer counted as live.
    pub fn release(self, heap: &mut NativeHeap)
        requires
            old(heap).wf(),
            old(heap)@.values > 0,
            self@.refs_live(old(heap)@),
        ensures
            final(heap).wf(),
            final(heap)@ == self@.dropped(old(heap)@).without_value(),
            final(heap)@.values == old(heap)@.values - 1,
    {
        let mut native = self.native;
        native.drop(heap);
        heap.note_destruction();
    }
}

/// What `Handle::eq` answers.
pub open spec fn handles_equal<N>(a: &Handle<N>, b: &Handle<N>) -> bool {
    a@ == b@
}

impl<N: NativePartialEq> Handle<N> {
    pub fn eq(&self, other: &Self) -> (r: bool)
        ensures
            r == handles_equal(self, other),
    {
        self.native.eq(&other.native)
    }
}

impl<N: NativeHash> Handle<N> {
    pub fn hash(&self) -> (r: u64)
        ensures
            r == self@.hash_spec(),
    {
        self.native.hash()
    }
}

/// A clone compares equal to its original, both ways round.
pub proof fn lemma_clone_equals<N>(a: &Handle<N>, c: &Handle<N>)
    requires
        c@ == a@,
    ensures
        handles_equal(a, c),
        handles_equal(c, a),
{
}

/// Handles that compare equal hash equal.
pub proof fn lemma_equal_hash_equal<N: NativeHash>(a: &Handle<N>, b: &Handle<N>)
    requires
        handles_equal(a, b),
    ensures
        a@.hash_spec() == b@.hash_spec(),
{
}

/// Constructing a value and then releasing it brings the count of live
/// values back to where it was.
pub proof fn lemma_construct_release_balanced(before: HeapView, made: HeapView, after: HeapView)
    requires
        made == before.with_value(),
        after.values == made.values - 1,
    ensures
        after.values == before.values,
{
}

/// One round: `states[2 * i]` is the heap before constructing a value,
/// `states[2 * i + 1]` after it, and `states[2 * i + 2]` after releasing it.
pub open spec fn is_round(states: Seq<HeapView>, i: int) -> bool {
    &&& states[2 * i + 1] == states[2 * i].with_value()
    &&& states[2 * i + 2].values == states[2 * i + 1].values - 1
}

/// Any number of rounds of constructing a value and then releasing it
/// leaves the count of live values where it started, and no round ends
/// below it.
pub proof fn lemma_rounds_balanced(states: Seq<HeapView>, n: nat)
    requires
        states.len() == 2 * n + 1,
        forall|i: int| 0 <= i < n ==> #[trigger] is_round(states, i),
    ensures
        states[2 * n as int].values == states[0].values,
        forall|i: int| 0 <= i <= n ==> #[trigger] states[2 * i].values == states[0].values,
    decreases n,
{
    if n > 0 {
        let m = (n - 1) as nat;
        let prefix = states.subrange(0, 2 * m as int + 1);
        assert forall|i: int| 0 <= i < m implies #[trigger] is_round(prefix, i) by {
            assert(is_round(states, i));
            assert(prefix[2 * i] == states[2 * i]);
            assert(prefix[2 * i + 1] == states[2 * i + 1]);
            assert(prefix[2 * i + 2] == states[2 * i + 2]);
        }
        lemma_rounds_balanced(prefix, m);
        assert(is_round(states, m as int));
        assert forall|i: int| 0 <= i <= n implies #[trigger] states[2 * i].values == states[0].values by {
            if i < n {
                assert(prefix[2 * i] == states[2 * i]);
            }
        }
    }
}

/// A shared native type that is counted through the reference count of a
/// declared base type.
pub trait NativeRefCountedBase {
    type Base;

    /// Where the base sits inside the derived object, in bytes.
    spec fn base_offset() -> nat;
}

/// The reference-counting base of all shared native objects.
pub struct NativeRefCnt;

/// Holds one counted reference to a shared native object; never null.
pub struct RCHandle<N> {
    ptr: u64,
    kind: PhantomData<N>,
}

impl<N> View for RCHandle<N> {
    type V = u64;

    closed spec fn view(&self) -> u64 {
        self.ptr
    }
}

impl<N> RCHandle<N> {
    #[verifier::type_invariant]
    spec fn non_null(&self) -> bool {
        self.ptr != 0
    }

    /// Adopts the reference that the caller holds to `p`; the count stays.
    /// A null pointer gives no handle.
    pub fn from_owned_pointer(p: u64) -> (r: Option<Self>)
        ensures
            p == 0 ==> r is None,
            p != 0 ==> (r is Some && r.unwrap()@ == p),
    {
        if p == 0 {
            None
        } else {
            Some(RCHandle { ptr: p, kind: PhantomData })
        }
    }

    /// Takes a reference of its own to `p`, leaving the caller's intact. A
    /// null pointer gives no handle and touches no count.
    pub fn from_shared_pointer(heap: &mut NativeHeap, p: u64) -> (r: Option<Self>)
        requires
            old(heap).wf(),
            p != 0 ==> old(heap)@.live(p) && old(heap)@.count(p) < u64::MAX,
        ensures
            final(heap).wf(),
            p == 0 ==> r is None && final(heap)@ == old(heap)@,
            p != 0 ==> (r is Some && r.unwrap()@ == p && final(heap)@ == old(heap)@.with_ref(p)),
    {
        if p == 0 {
            None
        } else {
            heap.ref_object(p);
            Some(RCHandle { ptr: p, kind: PhantomData })
        }
    }

    /// A view of an object that the native side still refers to as well:
    /// the handle takes a reference of its own.
    pub fn from_unshared_ptr(heap: &mut NativeHeap, p: u64) -> (r: Option<Self>)
        requires
            old(heap).wf(),
            p != 0 ==> old(heap)@.live(p) && old(heap)@.count(p) < u64::MAX,
        ensures
            final(heap).wf(),
            p == 0 ==> r is None && final(heap)@ == old(heap)@,
            p != 0 ==> (r is Some && r.unwrap()@ == p && final(heap)@ == old(heap)@.with_ref(p)),
    {
        Self::from_shared_pointer(heap, p)
    }

    /// The pointer, which is never null.
    pub fn native_ptr(&self) -> (r: u64)
        ensures
            r == self@,
            r != 0,
    {
        proof {
            use_type_invariant(self);
        }
        self.ptr
    }

    /// Hands the reference over to the caller.
    pub fn into_ptr(self) -> (r: u64)
        ensures
            r == self@,
            r != 0,
    {
        proof {
            use_type_invariant(&self);
        }
        self.ptr
    }

    /// A second handle to the same object, with a reference of its own.
    pub fn clone(&self, heap: &mut NativeHeap) -> (r: Self)
        requires
            old(heap).wf(),
            old(heap)@.live(self@),
            old(heap)@.count(self@) < u64::MAX,
        ensures
            final(heap).wf(),
            r@ == self@,
            final(heap)@ == old(heap)@.with_ref(self@),
    {
        heap.ref_object(self.ptr);
        RCHandle { ptr: self.ptr, kind: PhantomData }
    }

    /// Gives up the handle's reference; the native side destroys the object
    /// when that was the last one.
    pub fn release(self, heap: &mut NativeHeap)
        requires
            old(heap).wf(),
            old(heap)@.live(self@),
        ensures
            final(heap).wf(),
            final(heap)@ == old(heap)@.with_unref(self@),
    {
        heap.unref_object(self.ptr);
    }

}

impl<N: NativeRefCountedBase> RCHandle<N> {
    /// The same reference, seen as one to the declared base of `N`. A pointer
    /// names the object, so it stands for its base only where the base sits
    /// at the start.
    pub fn upcast(self) -> (r: RCHandle<N::Base>)
        requires
            N::base_offset() == 0,
        ensures
            r@ == self@,
    {
        proof {
            use_type_invariant(&self);
        }
        RCHandle { ptr: self.ptr, kind: PhantomData }
    }
}

/// Gives up the reference that `r` holds, if there is one, and returns the
/// pointer it held, or null.
pub fn into_ptr_or_null<N>(r: Option<RCHandle<N>>) -> (p: u64)
    ensures
        r is None ==> p == 0,
        r is Some ==> p == r.unwrap()@ && p != 0,
{
    match r {
        Some(h) => h.into_ptr(),
        None => 0,
    }
}

} // verus!
