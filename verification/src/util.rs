//! Small containers shared by the rendering core: append-only scratch
//! buffers, an id-keyed sparse table with slot reuse, and byte alignment
//! helpers.

use vstd::prelude::*;

verus! {

/// Sentinel id meaning "no id".
pub const ID_NONE: usize = usize::MAX;

/// Rounds `v` up to the next multiple of `multiple`; a zero multiple leaves
/// `v` unchanged.
pub open spec fn spec_align_up(v: nat, multiple: nat) -> nat {
    if multiple == 0 {
        v
    } else if v % multiple == 0 {
        v
    } else {
        (v + multiple - v % multiple) as nat
    }
}

/// Rounds `v` up to the next multiple of `multiple`.
pub fn align_up(v: usize, multiple: usize) -> (r: usize)
    requires
        spec_align_up(v as nat, multiple as nat) <= usize::MAX,
    ensures
        r == spec_align_up(v as nat, multiple as nat),
        r >= v,
        multiple != 0 ==> r % multiple == 0,
        r < v + multiple || multiple == 0,
{
    if multiple == 0 {
        v
    } else {
        let remainder = v % multiple;
        if remainder == 0 {
            v
        } else {
            let r = v + (multiple - remainder);
            proof {
                assert(r % multiple == 0) by (nonlinear_arith)
                    requires
                        multiple != 0,
                        remainder == v % multiple,
                        remainder != 0,
                        r == v + multiple - remainder,
                ;
            }
            r
        }
    }
}

/// Growable ordered buffer of queued entries (draw commands, resource
/// updates) for the frame being recorded.
pub struct BufferCell<T> {
    inner: Vec<T>,
}

impl<T> View for BufferCell<T> {
    type V = Seq<T>;

    closed spec fn view(&self) -> Seq<T> {
        self.inner@
    }
}

impl<T> BufferCell<T> {
    /// Creates an empty buffer.
    pub fn new() -> (r: Self)
        ensures
            r@ == Seq::<T>::empty(),
    {
        Self { inner: Vec::new() }
    }

    /// Exclusive access to the underlying vector.
    pub fn get_mut(&mut self) -> (r: &mut Vec<T>)
        ensures
            r@ == old(self)@,
            final(self)@ == final(r)@,
    {
        &mut self.inner
    }

    /// Number of queued entries.
    pub fn len(&self) -> (r: usize)
        ensures
            r == self@.len(),
    {
        self.inner.len()
    }

    /// Appends one entry at the end.
    pub fn push(&mut self, v: T)
        ensures
            final(self)@ == old(self)@.push(v),
    {
        self.inner.push(v);
    }

    /// Removes every queued entry.
    pub fn clear(&mut self)
        ensures
            final(self)@ == Seq::<T>::empty(),
    {
        self.inner.clear();
    }
}

impl<T> Default for BufferCell<T> {
    fn default() -> (r: Self)
        ensures
            r@ == Seq::<T>::empty(),
    {
        Self::new()
    }
}

/// Growable byte buffer with alignment padding, used for the per-frame
/// immediate-mode vertex/index/uniform scratch data.
pub struct ByteBufferCell {
    inner: Vec<u8>,
}

impl View for ByteBufferCell {
    type V = Seq<u8>;

    closed spec fn view(&self) -> Seq<u8> {
        self.inner@
    }
}

impl ByteBufferCell {
    /// Creates an empty byte buffer.
    pub fn new() -> (r: Self)
        ensures
            r@ == Seq::<u8>::empty(),
    {
        Self { inner: Vec::new() }
    }

    /// Exclusive access to the underlying bytes.
    pub fn get_mut(&mut self) -> (r: &mut Vec<u8>)
        ensures
            r@ == old(self)@,
            final(self)@ == final(r)@,
    {
        &mut self.inner
    }

    /// Appends the given bytes at the end.
    pub fn push_bytes(&mut self, bytes: &[u8])
        requires
            old(self)@.len() + bytes@.len() <= usize::MAX,
        ensures
            final(self)@ == old(self)@ + bytes@,
    {
        let mut i: usize = 0;
        while i < bytes.len()
            invariant
                i <= bytes@.len(),
                self@ == old(self)@ + bytes@.take(i as int),
                old(self)@.len() + bytes@.len() <= usize::MAX,
            decreases bytes@.len() - i,
        {
            self.inner.push(bytes[i]);
            i = i + 1;
            proof {
                assert(bytes@.take(i as int) == bytes@.take(i - 1).push(bytes@[i - 1]));
            }
        }
        proof {
            assert(bytes@.take(bytes@.len() as int) == bytes@);
        }
    }

    /// Pads the buffer with zero bytes up to the next multiple of
    /// `alignment`.
    pub fn align_to(&mut self, alignment: usize)
        requires
            spec_align_up(old(self)@.len(), alignment as nat) <= usize::MAX,
        ensures
            final(self)@.len() == spec_align_up(old(self)@.len(), alignment as nat),
            final(self)@.take(old(self)@.len() as int) == old(self)@,
            forall|i: int|
                old(self)@.len() <= i < final(self)@.len() ==> final(self)@[i] == 0u8,
    {
        let target = align_up(self.inner.len(), alignment);
        while self.inner.len() < target
            invariant
                self@.len() <= target,
                target == spec_align_up(old(self)@.len(), alignment as nat),
                self@.take(old(self)@.len() as int) == old(self)@,
                old(self)@.len() <= self@.len(),
                forall|i: int| old(self)@.len() <= i < self@.len() ==> self@[i] == 0u8,
            decreases target - self@.len(),
        {
            self.inner.push(0);
            proof {
                assert(self@.take(old(self)@.len() as int) == self@.drop_last().take(
                    old(self)@.len() as int,
                ));
            }
        }
    }

    /// Number of bytes held.
    pub fn len(&self) -> (r: usize)
        ensures
            r == self@.len(),
    {
        self.inner.len()
    }

    /// Removes every byte.
    pub fn clear(&mut self)
        ensures
            final(self)@ == Seq::<u8>::empty(),
    {
        self.inner.clear();
    }
}

impl Default for ByteBufferCell {
    fn default() -> (r: Self)
        ensures
            r@ == Seq::<u8>::empty(),
    {
        Self::new()
    }
}

} // verus!

use std::collections::VecDeque;
use std::sync::Arc;
use std::sync::Weak;

verus! {

/// Growable first-in-first-out buffer of queued entries.
pub struct BufferDequeCell<T> {
    inner: VecDeque<T>,
}

impl<T> View for BufferDequeCell<T> {
    type V = Seq<T>;

    closed spec fn view(&self) -> Seq<T> {
        self.inner@
    }
}

impl<T> BufferDequeCell<T> {
    /// Creates an empty queue.
    pub fn new() -> (r: Self)
        ensures
            r@ == Seq::<T>::empty(),
    {
        Self { inner: VecDeque::new() }
    }

    /// Exclusive access to the underlying queue.
    pub fn get_mut(&mut self) -> (r: &mut VecDeque<T>)
        ensures
            r@ == old(self)@,
            final(self)@ == final(r)@,
    {
        &mut self.inner
    }

    /// Appends one entry at the back.
    pub fn push(&mut self, v: T)
        ensures
            final(self)@ == old(self)@.push(v),
    {
        self.inner.push_back(v);
    }
}

impl<T> Default for BufferDequeCell<T> {
    fn default() -> (r: Self)
        ensures
            r@ == Seq::<T>::empty(),
    {
        Self::new()
    }
}

/// Opaque holder for a weak reference to a registry entry.  std's `Weak`
/// cannot be declared to Verus directly (its allocator type parameter is
/// behind an unstable feature), so the registry stores it inside this hidden
/// struct; the registry's contracts only speak about slot occupancy.
#[verifier::external_body]
#[verifier::reject_recursive_types(T)]
pub struct WeakRef<T> {
    inner: Weak<T>,
}

/// Relies on std's `Arc::downgrade`: creates a weak reference to the same
/// allocation without changing the strong count.
#[verifier::external_body]
fn arc_downgrade<T>(v: &Arc<T>) -> WeakRef<T> {
    WeakRef { inner: Arc::downgrade(v) }
}

/// Relies on std's `Weak::strong_count`: the number of strong references to
/// the allocation at the moment of the call.  The result depends on what
/// other handles currently exist, so nothing is promised about it.
#[verifier::external_body]
fn weak_strong_count<T>(w: &WeakRef<T>) -> usize {
    w.inner.strong_count()
}

/// Sparse id-keyed table: stable indices for live entries, with a free list
/// so the indices of removed entries are reused.
pub struct IDVec<T> {
    vec: Vec<Option<T>>,
    free: Vec<usize>,
}

impl<T> View for IDVec<T> {
    type V = Seq<Option<T>>;

    closed spec fn view(&self) -> Seq<Option<T>> {
        self.vec@
    }
}

impl<T> IDVec<T> {
    /// The free list names only vacant slots, each at most once.
    pub closed spec fn wf(&self) -> bool {
        &&& forall|k: int|
            0 <= k < self.free@.len() ==> self.free@[k] < self.vec@.len()
                && self.vec@[self.free@[k] as int] is None
        &&& forall|k1: int, k2: int|
            0 <= k1 < k2 < self.free@.len() ==> self.free@[k1] != self.free@[k2]
    }

    /// An id is live when its slot holds an entry.
    pub open spec fn live(&self, id: int) -> bool {
        0 <= id < self@.len() && self@[id] is Some
    }

    /// Creates an empty table.
    pub fn new() -> (r: Self)
        ensures
            r@ == Seq::<Option<T>>::empty(),
            r.wf(),
    {
        Self { vec: Vec::new(), free: Vec::new() }
    }

    /// Stores `v` at a vacant or appended slot and returns its id.  The
    /// returned id was not live before the call, so it cannot collide with
    /// the id of any entry still in the table.
    pub fn insert(&mut self, v: T) -> (id: usize)
        requires
            old(self).wf(),
        ensures
            final(self).wf(),
            !old(self).live(id as int),
            final(self).live(id as int),
            id <= old(self)@.len(),
            final(self)@ == if id < old(self)@.len() {
                old(self)@.update(id as int, Some(v))
            } else {
                old(self)@.push(Some(v))
            },
            forall|j: int| old(self).live(j) ==> final(self).live(j),
    {
        match self.free.pop() {
            Some(id) => {
                self.vec.set(id, Some(v));
                id
            },
            None => {
                self.vec.push(Some(v));
                self.vec.len() - 1
            },
        }
    }

    /// Clears the slot of `id`, returning its entry and marking the slot free
    /// for reuse.
    pub fn remove(&mut self, id: usize) -> (r: Option<T>)
        requires
            old(self).wf(),
            id < old(self)@.len(),
        ensures
            final(self).wf(),
            r == old(self)@[id as int],
            final(self)@ == old(self)@.update(id as int, None::<T>),
            !final(self).live(id as int),
    {
        let slot = &mut self.vec[id];
        let taken = slot.take();
        if taken.is_some() {
            self.free.push(id);
        }
        taken
    }

    /// Number of slots, live or vacant.
    pub fn len(&self) -> (r: usize)
        ensures
            r == self@.len(),
    {
        self.vec.len()
    }

    /// The entry at `id`, or `None` for a vacant or out-of-range slot.
    pub fn get(&self, id: usize) -> (r: Option<&T>)
        ensures
            match r {
                Some(v) => self.live(id as int) && *v == self@[id as int].unwrap(),
                None => !self.live(id as int),
            },
    {
        if id < self.vec.len() {
            self.vec[id].as_ref()
        } else {
            None
        }
    }
}

impl<T> Default for IDVec<T> {
    fn default() -> (r: Self)
        ensures
            r@ == Seq::<Option<T>>::empty(),
            r.wf(),
    {
        Self::new()
    }
}

} // verus!

verus! {

/// True when `s` holds `j` as one of its ids.
pub open spec fn contains_id(s: Seq<usize>, j: int) -> bool {
    exists|k: int| 0 <= k < s.len() && s[k] == j
}

/// Registry of weakly referenced resources: ids stay stable while the entry
/// is live, and the per-frame sweep frees every id whose resource has no
/// strong holder left.
#[verifier::reject_recursive_types(T)]
pub struct IDArenaCell<T> {
    inner: IDVec<WeakRef<T>>,
}

impl<T> View for IDArenaCell<T> {
    type V = Seq<Option<WeakRef<T>>>;

    closed spec fn view(&self) -> Seq<Option<WeakRef<T>>> {
        self.inner@
    }
}

impl<T> IDArenaCell<T> {
    /// The inner table's free list is consistent.
    pub closed spec fn wf(&self) -> bool {
        self.inner.wf()
    }

    /// An id is live when its slot holds a weak reference.
    pub open spec fn live(&self, id: int) -> bool {
        0 <= id < self@.len() && self@[id] is Some
    }

    /// Creates an empty registry.
    pub fn new() -> (r: Self)
        ensures
            r@ == Seq::<Option<WeakRef<T>>>::empty(),
            r.wf(),
    {
        Self { inner: IDVec::new() }
    }

    /// Stores a weak reference to `v` and returns its id.  The id was not
    /// live before the call: no two live entries ever share an id.
    pub fn insert(&mut self, v: &Arc<T>) -> (id: usize)
        requires
            old(self).wf(),
        ensures
            final(self).wf(),
            !old(self).live(id as int),
            final(self).live(id as int),
            id <= old(self)@.len(),
            final(self)@.len() == if id < old(self)@.len() {
                old(self)@.len()
            } else {
                old(self)@.len() + 1
            },
            forall|j: int| j != id && old(self).live(j) <==> j != id && final(self).live(j),
    {
        self.inner.insert(arc_downgrade(v))
    }

    /// Sweeps the table once, clearing every slot whose resource has no
    /// strong reference left, and returns the cleared ids in increasing
    /// order.  Which slots are cleared depends on the handles that still
    /// exist at the moment of the call, so the contract promises only what
    /// holds of every outcome.
    pub fn remove_unused(&mut self) -> (removed: Vec<usize>)
        requires
            old(self).wf(),
        ensures
            final(self).wf(),
            final(self)@.len() == old(self)@.len(),
            forall|k: int|
                0 <= k < removed@.len() ==> old(self).live(#[trigger] removed@[k] as int)
                    && !final(self).live(removed@[k] as int),
            forall|k1: int, k2: int|
                0 <= k1 < k2 < removed@.len() ==> removed@[k1] < removed@[k2],
            forall|j: int|
                0 <= j < old(self)@.len() && !contains_id(removed@, j) ==> final(self)@[j]
                    == old(self)@[j],
    {
        let n = self.inner.len();
        let mut removed: Vec<usize> = Vec::new();
        let mut i: usize = 0;
        while i < n
            invariant
                self.wf(),
                n == old(self)@.len(),
                self@.len() == n,
                i <= n,
                forall|k: int|
                    0 <= k < removed@.len() ==> old(self).live(#[trigger] removed@[k] as int)
                        && !self.live(removed@[k] as int),
                forall|k1: int, k2: int|
                    0 <= k1 < k2 < removed@.len() ==> removed@[k1] < removed@[k2],
                forall|k: int| 0 <= k < removed@.len() ==> removed@[k] < i,
                forall|j: int|
                    0 <= j < n && !contains_id(removed@, j) ==> self@[j] == old(self)@[j],
            decreases n - i,
        {
            let dead = match self.inner.get(i) {
                Some(w) => weak_strong_count(w) == 0,
                None => false,
            };
            if dead {
                proof {
                    assert(!contains_id(removed@, i as int)) by {
                        if contains_id(removed@, i as int) {
                            let k = choose|k: int|
                                0 <= k < removed@.len() && removed@[k] == i;
                            assert(removed@[k] < i);
                        }
                    }
                }
                self.inner.remove(i);
                let ghost prev_removed = removed@;
                removed.push(i);
                proof {
                    assert(removed@[removed@.len() - 1] == i);
                    assert forall|j: int|
                        0 <= j < n && !contains_id(removed@, j) implies self@[j] == old(
                        self,
                    )@[j] by {
                        assert(!contains_id(prev_removed, j)) by {
                            if contains_id(prev_removed, j) {
                                let k = choose|k: int|
                                    0 <= k < prev_removed.len() && prev_removed[k] == j;
                                assert(removed@[k] == j);
                            }
                        }
                        assert(j != i);
                    }
                }
            }
            i = i + 1;
        }
        removed
    }
}

impl<T> Default for IDArenaCell<T> {
    fn default() -> (r: Self)
        ensures
            r@ == Seq::<Option<WeakRef<T>>>::empty(),
            r.wf(),
    {
        Self::new()
    }
}

/// Resource ids are slot indices, so two entries that are live at the same
/// time never share an id, and an id returned by an insert (which was not
/// live before that insert completed) differs from every id that was already
/// live.
pub proof fn lemma_registry_ids_unique<T>(r: IDArenaCell<T>, id_live: int, id_fresh: int)
    requires
        r.live(id_live),
        !r.live(id_fresh),
    ensures
        id_live != id_fresh,
{
}

} // verus!

verus! {

/// The live entries of a slot sequence, in slot order.
pub open spec fn somes_of<T>(s: Seq<Option<T>>) -> Seq<T>
    decreases s.len(),
{
    if s.len() == 0 {
        Seq::empty()
    } else {
        somes_of(s.drop_last()) + match s.last() {
            Some(v) => seq![v],
            None => Seq::empty(),
        }
    }
}

/// Index-addressed table whose entries may be vacant; indexing past the end
/// behaves like a vacant slot.
pub struct SparseVec<T> {
    pub vec: Vec<Option<T>>,
}

impl<T> View for SparseVec<T> {
    type V = Seq<Option<T>>;

    open spec fn view(&self) -> Seq<Option<T>> {
        self.vec@
    }
}

impl<T> SparseVec<T> {
    /// The entry at `index`, `None` when vacant or out of range.
    pub open spec fn spec_get(&self, index: int) -> Option<T> {
        if 0 <= index < self@.len() {
            self@[index]
        } else {
            None
        }
    }

    /// Creates an empty table.
    pub fn new() -> (r: Self)
        ensures
            r@ == Seq::<Option<T>>::empty(),
    {
        Self { vec: Vec::new() }
    }

    /// Stores `v` at `index`, extending the table with vacant slots as
    /// needed.
    pub fn insert(&mut self, index: usize, v: T)
        ensures
            final(self)@.len() == if index < old(self)@.len() {
                old(self)@.len() as int
            } else {
                index + 1
            },
            final(self).spec_get(index as int) == Some(v),
            forall|j: int|
                0 <= j < final(self)@.len() && j != index ==> final(self).spec_get(j) == old(
                    self,
                ).spec_get(j),
    {
        while index >= self.vec.len()
            invariant
                self@.len() == old(self)@.len() || (old(self)@.len() <= self@.len() <= index
                    + 1),
                self@.take(old(self)@.len() as int) == old(self)@ || self@.len() < old(
                    self,
                )@.len(),
                forall|j: int| old(self)@.len() <= j < self@.len() ==> self@[j] is None,
            decreases index + 1 - self@.len(),
        {
            self.vec.push(None);
            proof {
                assert(self@.take(old(self)@.len() as int) == self@.drop_last().take(
                    old(self)@.len() as int,
                ));
            }
        }
        self.vec.set(index, Some(v));
    }

    /// Clears the slot at `index`, returning its entry.
    pub fn remove(&mut self, index: usize) -> (r: Option<T>)
        requires
            index < old(self)@.len(),
        ensures
            r == old(self)@[index as int],
            final(self)@ == old(self)@.update(index as int, None::<T>),
    {
        let slot = &mut self.vec[index];
        slot.take()
    }

    /// The entry at `index`, or `None` when vacant or out of range.
    pub fn get(&self, index: usize) -> (r: Option<&T>)
        ensures
            match r {
                Some(v) => self.spec_get(index as int) == Some(*v),
                None => self.spec_get(index as int) is None,
            },
    {
        if index < self.vec.len() {
            self.vec[index].as_ref()
        } else {
            None
        }
    }

    /// Exclusive access to the entry at an occupied slot.
    pub fn get_mut(&mut self, index: usize) -> (r: &mut T)
        requires
            old(self).spec_get(index as int) is Some,
        ensures
            *r == old(self)@[index as int].unwrap(),
            final(self)@ == old(self)@.update(index as int, Some(*final(r))),
    {
        self.vec[index].as_mut().unwrap()
    }

    /// Consumes the table, returning the live entries in slot order.
    pub fn into_iter(self) -> (r: Vec<T>)
        ensures
            r@ == somes_of(self@),
    {
        let mut out: Vec<T> = Vec::new();
        let mut rest = self.vec;
        let ghost all = rest@;
        let mut i: usize = 0;
        proof {
            assert(all.take(0) == Seq::<Option<T>>::empty());
        }
        while i < rest.len()
            invariant
                i <= all.len(),
                rest@.len() == all.len(),
                forall|j: int| i <= j < all.len() ==> rest@[j] == all[j],
                out@ == somes_of(all.take(i as int)),
            decreases all.len() - i,
        {
            proof {
                assert(all.take(i + 1).drop_last() == all.take(i as int));
                assert(all.take(i + 1).last() == all[i as int]);
                assert(rest@[i as int] == all[i as int]);
            }
            match &rest[i] {
                Some(_) => {
                    let slot = &mut rest[i];
                    let v = slot.take().unwrap();
                    out.push(v);
                },
                None => {},
            }
            i = i + 1;
        }
        proof {
            assert(all.take(all.len() as int) == all);
        }
        out
    }

    /// The live entries in slot order, by reference.
    pub fn iter(&self) -> (r: Vec<&T>)
        ensures
            r@.len() == somes_of(self@).len(),
            forall|k: int| 0 <= k < r@.len() ==> *r@[k] == somes_of(self@)[k],
    {
        let mut out: Vec<&T> = Vec::new();
        let mut i: usize = 0;
        proof {
            assert(self@.take(0) == Seq::<Option<T>>::empty());
        }
        while i < self.vec.len()
            invariant
                i <= self@.len(),
                out@.len() == somes_of(self@.take(i as int)).len(),
                forall|k: int|
                    0 <= k < out@.len() ==> *out@[k] == somes_of(self@.take(i as int))[k],
            decreases self@.len() - i,
        {
            proof {
                assert(self@.take(i + 1).drop_last() == self@.take(i as int));
                assert(self@.take(i + 1).last() == self@[i as int]);
            }
            match &self.vec[i] {
                Some(v) => {
                    out.push(v);
                },
                None => {},
            }
            i = i + 1;
        }
        proof {
            assert(self@.take(self@.len() as int) == self@);
        }
        out
    }
}

impl<T> Default for SparseVec<T> {
    fn default() -> (r: Self)
        ensures
            r@ == Seq::<Option<T>>::empty(),
    {
        Self::new()
    }
}

} // verus!

verus! {

/// Copies a byte vector; the elements are plain values.
pub fn copy_bytes(v: &Vec<u8>) -> (r: Vec<u8>)
    ensures
        r@ == v@,
{
    let mut out: Vec<u8> = Vec::new();
    let mut i: usize = 0;
    while i < v.len()
        invariant
            i <= v@.len(),
            out@ == v@.take(i as int),
        decreases v@.len() - i,
    {
        out.push(v[i]);
        proof {
            assert(v@.take(i + 1) == v@.take(i as int).push(v@[i as int]));
        }
        i = i + 1;
    }
    proof {
        assert(v@.take(v@.len() as int) == v@);
    }
    out
}

} // verus!
