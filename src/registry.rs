//! The handle table: an append-only arena of slots, each holding an instance
//! or a tombstone. A handle is the index of its slot; destroyed slots are
//! never reused, so a handle that stopped being valid stays invalid.
use vstd::prelude::*;

use crate::state::BridgeError;

verus! {

/// True when `h` names an occupied slot.
pub open spec fn handle_live<T>(slots: Seq<Option<T>>, h: int) -> bool {
    0 <= h < slots.len() && slots[h] is Some
}

/// One change that the table allows: nothing, appending an occupied slot,
/// or tombstoning an existing slot.
pub open spec fn registry_step<T>(a: Seq<Option<T>>, b: Seq<Option<T>>) -> bool {
    ||| b == a
    ||| exists|v: T| b == a.push(Some(v))
    ||| exists|k: int| 0 <= k < a.len() && b == a.update(k, None)
}

/// Append-only table of instances indexed by handle.
pub struct Registry<T> {
    slots: Vec<Option<T>>,
}

impl<T> View for Registry<T> {
    type V = Seq<Option<T>>;

    closed spec fn view(&self) -> Seq<Option<T>> {
        self.slots@
    }
}

impl<T> Registry<T> {
    /// An empty table.
    pub fn new() -> (r: Registry<T>)
        ensures
            r@ == Seq::<Option<T>>::empty(),
    {
        Registry { slots: Vec::new() }
    }

    /// Number of slots ever issued, tombstones included.
    pub fn len(&self) -> (r: usize)
        ensures
            r == self@.len(),
    {
        self.slots.len()
    }

    /// Appends `item` in a new slot and returns its handle, the number of
    /// slots before the call; `OutOfMemory`, and the table unchanged, once
    /// every non-negative `i32` has been issued.
    pub fn insert(&mut self, item: T) -> (r: Result<i32, BridgeError>)
        ensures
            r is Ok <==> old(self)@.len() < i32::MAX,
            r matches Ok(h) ==> h == old(self)@.len() && final(self)@ == old(self)@.push(Some(item)),
            r matches Err(e) ==> e == BridgeError::OutOfMemory && final(self)@ == old(self)@,
            registry_step(old(self)@, final(self)@),
    {
        if self.slots.len() >= i32::MAX as usize {
            return Err(BridgeError::OutOfMemory);
        }
        let h = self.slots.len() as i32;
        self.slots.push(Some(item));
        Ok(h)
    }

    /// Tombstones the slot of `h`; `InvalidHandle`, and the table unchanged,
    /// when `h` is negative, was never issued, or was already destroyed.
    pub fn destroy(&mut self, h: i32) -> (r: Result<(), BridgeError>)
        ensures
            r is Ok <==> handle_live(old(self)@, h as int),
            r is Ok ==> final(self)@ == old(self)@.update(h as int, None),
            r matches Err(e) ==> e == BridgeError::InvalidHandle && final(self)@ == old(self)@,
            registry_step(old(self)@, final(self)@),
    {
        if h < 0 || h as usize >= self.slots.len() {
            return Err(BridgeError::InvalidHandle);
        }
        if self.slots[h as usize].is_none() {
            return Err(BridgeError::InvalidHandle);
        }
        self.slots.set(h as usize, None);
        Ok(())
    }

    /// The instance of `h`; `InvalidHandle` when `h` is negative, was never
    /// issued, or was destroyed.
    pub fn lookup(&self, h: i32) -> (r: Result<&T, BridgeError>)
        ensures
            r is Ok <==> handle_live(self@, h as int),
            r matches Ok(item) ==> self@[h as int] == Some(*item),
            r matches Err(e) ==> e == BridgeError::InvalidHandle,
    {
        if h < 0 || h as usize >= self.slots.len() {
            return Err(BridgeError::InvalidHandle);
        }
        match &self.slots[h as usize] {
            Some(item) => Ok(item),
            None => Err(BridgeError::InvalidHandle),
        }
    }
}

/// A handle whose slot is a tombstone stays invalid through any later
/// sequence of insertions and destructions: every lookup of it fails.
pub proof fn lemma_destroyed_handle_stays_invalid<T>(trace: Seq<Seq<Option<T>>>, h: int)
    requires
        trace.len() > 0,
        0 <= h < trace[0].len(),
        trace[0][h] is None,
        forall|i: int| 0 <= i < trace.len() - 1 ==> registry_step(#[trigger] trace[i], trace[i + 1]),
    ensures
        forall|i: int| 0 <= i < trace.len() ==> !handle_live(#[trigger] trace[i], h),
{
    assert forall|i: int| 0 <= i < trace.len() implies !handle_live(#[trigger] trace[i], h) by {
        lemma_tombstone_persists_to(trace, h, i);
    }
}

/// Along a sequence of allowed changes, a tombstone stays a tombstone up to
/// step `i`.
proof fn lemma_tombstone_persists_to<T>(trace: Seq<Seq<Option<T>>>, h: int, i: int)
    requires
        0 <= i < trace.len(),
        0 <= h < trace[0].len(),
        trace[0][h] is None,
        forall|j: int| 0 <= j < trace.len() - 1 ==> registry_step(#[trigger] trace[j], trace[j + 1]),
    ensures
        h < trace[i].len() && trace[i][h] is None,
    decreases i,
{
    if i > 0 {
        lemma_tombstone_persists_to(trace, h, i - 1);
        let a = trace[i - 1];
        let b = trace[i];
        assert(registry_step(a, b));
        if b == a {
        } else if exists|v: T| b == a.push(Some(v)) {
            let v = choose|v: T| b == a.push(Some(v));
            assert(b[h] == a[h]);
        } else {
            let k = choose|k: int| 0 <= k < a.len() && b == a.update(k, None);
            assert(b[h] is None);
        }
    }
}

} // verus!
