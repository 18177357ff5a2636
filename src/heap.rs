//! A model of the native side that handles talk to: a count of live
//! value-owned instances, and the intrusive reference counts of the shared
//! objects, kept by the library itself rather than by a native library.
//!
//! A shared object is named by a non-null pointer `p`; its state sits at
//! index `p - 1`. Its count goes up on `ref_object`, down on `unref_object`,
//! and the decrement that reaches zero destroys the object.

use vstd::prelude::*;

verus! {

/// What the native side holds, as mathematical values.
pub ghost struct HeapView {
    /// Value-owned instances that are constructed and not yet destroyed.
    pub values: nat,
    /// The reference count of each shared object.
    pub counts: Seq<nat>,
    /// How often each shared object was destroyed.
    pub destructions: Seq<nat>,
}

impl HeapView {
    pub open spec fn has(self, p: u64) -> bool {
        1 <= p <= self.counts.len() && self.destructions.len() == self.counts.len()
    }

    pub open spec fn count(self, p: u64) -> nat {
        self.counts[p - 1]
    }

    pub open spec fn destroyed(self, p: u64) -> nat {
        self.destructions[p - 1]
    }

    /// The object exists and at least one reference to it is held.
    pub open spec fn live(self, p: u64) -> bool {
        self.has(p) && self.count(p) > 0
    }

    pub open spec fn with_value(self) -> HeapView {
        HeapView { values: self.values + 1, ..self }
    }

    pub open spec fn without_value(self) -> HeapView {
        HeapView { values: (self.values - 1) as nat, ..self }
    }

    pub open spec fn with_object(self) -> HeapView {
        HeapView { counts: self.counts.push(1), destructions: self.destructions.push(0), ..self }
    }

    pub open spec fn with_ref(self, p: u64) -> HeapView {
        HeapView { counts: self.counts.update(p - 1, self.count(p) + 1), ..self }
    }

    /// One reference fewer; the last one destroys the object.
    pub open spec fn with_unref(self, p: u64) -> HeapView {
        let n = (self.count(p) - 1) as nat;
        HeapView {
            counts: self.counts.update(p - 1, n),
            destructions: if n == 0 {
                self.destructions.update(p - 1, self.destroyed(p) + 1)
            } else {
                self.destructions
            },
            ..self
        }
    }
}

/// Taking a reference to a live object and giving it up again leaves the
/// native side as it was: the object stays alive with its count.
pub proof fn lemma_share_then_release(h: HeapView, p: u64)
    requires
        h.live(p),
    ensures
        h.with_ref(p).with_unref(p) == h,
        h.with_ref(p).with_unref(p).live(p),
        h.with_ref(p).with_unref(p).count(p) >= 1,
{
    let s = h.with_ref(p).with_unref(p);
    assert(s.counts =~= h.counts);
    assert(s.destructions =~= h.destructions);
}

/// Giving up the one reference to an object destroys it, exactly once.
pub proof fn lemma_release_last(h: HeapView, p: u64)
    requires
        h.live(p),
        h.count(p) == 1,
    ensures
        h.with_unref(p).count(p) == 0,
        !h.with_unref(p).live(p),
        h.with_unref(p).destroyed(p) == h.destroyed(p) + 1,
        forall|q: u64| h.has(q) && q != p ==> h.with_unref(p).count(q) == h.count(q)
            && h.with_unref(p).destroyed(q) == h.destroyed(q),
{
}

/// A reference taken and given up on an object that is shared further keeps
/// it alive: the count goes one up and one down, nothing is destroyed.
pub proof fn lemma_clone_then_release(h: HeapView, p: u64)
    requires
        h.live(p),
    ensures
        h.with_ref(p).count(p) == h.count(p) + 1,
        h.with_ref(p).with_unref(p).count(p) == h.count(p),
        h.with_ref(p).with_unref(p).destroyed(p) == h.destroyed(p),
{
    lemma_share_then_release(h, p);
}

pub struct NativeHeap {
    values: u64,
    counts: Vec<u64>,
    destructions: Vec<u64>,
}

impl View for NativeHeap {
    type V = HeapView;

    closed spec fn view(&self) -> HeapView {
        HeapView {
            values: self.values as nat,
            counts: self.counts@.map_values(|c: u64| c as nat),
            destructions: self.destructions@.map_values(|d: u64| d as nat),
        }
    }
}

impl NativeHeap {
    /// An object is destroyed at most once, and only when its count is zero.
    pub closed spec fn wf(&self) -> bool {
        &&& self.counts@.len() == self.destructions@.len()
        &&& forall|i: int|
            0 <= i < self.destructions@.len() ==> #[trigger] self.destructions@[i] <= 1
                && (self.destructions@[i] == 1 ==> self.counts@[i] == 0)
    }

    pub fn new() -> (r: NativeHeap)
        ensures
            r.wf(),
            r@.values == 0,
            r@.counts.len() == 0,
            r@.destructions.len() == 0,
    {
        NativeHeap { values: 0, counts: Vec::new(), destructions: Vec::new() }
    }

    /// The number of value-owned instances alive.
    pub fn live_values(&self) -> (r: u64)
        ensures
            r == self@.values,
    {
        self.values
    }

    pub(crate) fn note_construction(&mut self)
        requires
            old(self)@.values < u64::MAX,
        ensures
            final(self)@ == old(self)@.with_value(),
            final(self).wf() == old(self).wf(),
    {
        self.values = self.values + 1;
    }

    pub(crate) fn note_destruction(&mut self)
        requires
            old(self)@.values > 0,
        ensures
            final(self)@ == old(self)@.without_value(),
            final(self).wf() == old(self).wf(),
    {
        self.values = self.values - 1;
    }

    /// Makes a shared object with one reference, which the caller holds.
    pub fn new_object(&mut self) -> (p: u64)
        requires
            old(self).wf(),
            old(self)@.counts.len() < u64::MAX,
        ensures
            final(self).wf(),
            p == old(self)@.counts.len() + 1,
            final(self)@ == old(self)@.with_object(),
            final(self)@.live(p),
    {
        self.counts.push(1);
        self.destructions.push(0);
        proof {
            assert forall|i: int| 0 <= i < self.destructions@.len() implies #[trigger] self.destructions@[i] <= 1
                && (self.destructions@[i] == 1 ==> self.counts@[i] == 0) by {
                if i < old(self).destructions@.len() {
                    assert(self.destructions@[i] == old(self).destructions@[i]);
                    assert(self.counts@[i] == old(self).counts@[i]);
                }
            }
            assert(self@.counts =~= old(self)@.with_object().counts);
            assert(self@.destructions =~= old(self)@.with_object().destructions);
        }
        self.counts.len() as u64
    }

    fn index_of(&self, p: u64) -> (i: usize)
        requires
            self@.has(p),
        ensures
            i == p - 1,
            i < self.counts@.len(),
            i < self.destructions@.len(),
    {
        let n = self.counts.len();
        proof {
            assert(self@.counts.len() == n);
        }
        (p - 1) as usize
    }

    pub fn ref_count(&self, p: u64) -> (r: u64)
        requires
            self@.has(p),
        ensures
            r == self@.count(p),
    {
        proof {
            assert(self@.counts[p - 1] == self.counts@[p - 1] as nat);
        }
        self.counts[self.index_of(p)]
    }

    pub fn destructions(&self, p: u64) -> (r: u64)
        requires
            self@.has(p),
        ensures
            r == self@.destroyed(p),
    {
        proof {
            assert(self@.destructions[p - 1] == self.destructions@[p - 1] as nat);
        }
        self.destructions[self.index_of(p)]
    }

    pub fn ref_object(&mut self, p: u64)
        requires
            old(self).wf(),
            old(self)@.live(p),
            old(self)@.count(p) < u64::MAX,
        ensures
            final(self)@ == old(self)@.with_ref(p),
            final(self).wf(),
    {
        proof {
            assert(self@.counts[p - 1] == self.counts@[p - 1] as nat);
        }
        let i = self.index_of(p);
        let c = self.counts[i];
        self.counts.set(i, c + 1);
        proof {
            assert(self@.counts =~= old(self)@.with_ref(p).counts);
        }
    }

    pub fn unref_object(&mut self, p: u64)
        requires
            old(self).wf(),
            old(self)@.live(p),
        ensures
            final(self)@ == old(self)@.with_unref(p),
            final(self).wf(),
    {
        proof {
            assert(self@.counts[p - 1] == self.counts@[p - 1] as nat);
            assert(self@.destructions[p - 1] == self.destructions@[p - 1] as nat);
        }
        let i = self.index_of(p);
        let c = self.counts[i] - 1;
        self.counts.set(i, c);
        if c == 0 {
            let d = self.destructions[i];
            self.destructions.set(i, d + 1);
        }
        proof {
            assert(self@.counts =~= old(self)@.with_unref(p).counts);
            assert(self@.destructions =~= old(self)@.with_unref(p).destructions);
        }
    }
}

} // verus!
