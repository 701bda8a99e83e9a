//! An allocator of wire slots: it hands out slot indices, takes them back,
//! and reuses the most recently returned slot before opening a new one.

use vstd::prelude::*;

verus! {

/// Hands out slot indices. Only indices are tracked; no storage is kept.
pub struct FakeSlabAllocator {
    /// Returned slots, the most recently returned last.
    free: Vec<usize>,
    /// Number of slots ever opened: slots `0 .. next` exist.
    next: usize,
    /// The largest number of slots that have been in use at one time.
    peak: Ghost<nat>,
}

impl FakeSlabAllocator {
    /// Returned slots, the most recently returned last.
    pub closed spec fn free_slots(&self) -> Seq<usize> {
        self.free@
    }

    /// Number of slots ever opened.
    pub closed spec fn opened(&self) -> nat {
        self.next as nat
    }

    /// The largest number of slots that have been in use at one time.
    pub closed spec fn peak(&self) -> nat {
        self.peak@
    }

    /// Slot `i` is handed out and not yet returned.
    pub open spec fn is_live(&self, i: int) -> bool {
        0 <= i < self.opened() && !self.free_slots().contains(i as usize)
    }

    /// Number of slots in use now.
    pub open spec fn live_count(&self) -> int {
        self.opened() - self.free_slots().len()
    }

    /// The returned slots are distinct opened slots, and the peak use is the
    /// number of slots opened (a slot is opened only when all are in use).
    pub open spec fn wf(&self) -> bool {
        &&& self.free_slots().no_duplicates()
        &&& forall|k: int|
            0 <= k < self.free_slots().len() ==> #[trigger] self.free_slots()[k] < self.opened()
        &&& self.peak() == self.opened()
    }

    /// The slot the next allocation hands out: the most recently returned one,
    /// or a newly opened one when none has been returned.
    pub open spec fn next_slot(&self) -> usize {
        if self.free_slots().len() > 0 {
            self.free_slots().last()
        } else {
            self.opened() as usize
        }
    }

    /// An allocator with no slot opened.
    pub fn new() -> (s: Self)
        ensures
            s.wf(),
            s.free_slots() == Seq::<usize>::empty(),
            s.opened() == 0,
    {
        FakeSlabAllocator { free: Vec::new(), next: 0, peak: Ghost(0) }
    }

    /// Hands out [`Self::next_slot`].
    pub fn allocate(&mut self) -> (slot: usize)
        requires
            old(self).wf(),
            old(self).opened() < usize::MAX,
        ensures
            final(self).wf(),
            slot == old(self).next_slot(),
            !old(self).is_live(slot as int),
            final(self).is_live(slot as int),
            final(self).live_count() == old(self).live_count() + 1,
            final(self).peak() == if final(self).live_count() > old(self).peak() {
                final(self).live_count() as nat
            } else {
                old(self).peak()
            },
            old(self).free_slots().len() > 0 ==> final(self).free_slots() == old(
                self,
            ).free_slots().drop_last() && final(self).opened() == old(self).opened(),
            old(self).free_slots().len() == 0 ==> final(self).free_slots() == old(
                self,
            ).free_slots() && final(self).opened() == old(self).opened() + 1,
    {
        let ghost old_free = self.free@;
        match self.free.pop() {
            Some(slot) => {
                proof {
                    assert(old_free =~= self.free@.push(slot));
                    assert(!self.free@.contains(slot)) by {
                        if self.free@.contains(slot) {
                            let k = choose|k: int| 0 <= k < self.free@.len() && self.free@[k] == slot;
                            assert(old_free[k] == old_free[old_free.len() - 1]);
                        }
                    }
                    assert(old_free.contains(slot)) by {
                        assert(old_free[old_free.len() - 1] == slot);
                    }
                    let live = self.live_count();
                    self.peak = Ghost(if live > self.peak@ { live as nat } else { self.peak@ });
                }
                slot
            },
            None => {
                let slot = self.next;
                self.next = self.next + 1;
                proof {
                    let live = self.live_count();
                    self.peak = Ghost(if live > self.peak@ { live as nat } else { self.peak@ });
                }
                slot
            },
        }
    }

    /// Takes back a slot that is in use.
    pub fn deallocate(&mut self, slot: usize)
        requires
            old(self).wf(),
            old(self).is_live(slot as int),
        ensures
            final(self).wf(),
            final(self).free_slots() == old(self).free_slots().push(slot),
            final(self).opened() == old(self).opened(),
            final(self).live_count() == old(self).live_count() - 1,
            final(self).peak() == old(self).peak(),
    {
        self.free.push(slot);
    }

    /// The largest number of slots in use at one time so far, which is also
    /// the number of slots opened: every slot handed out is below it.
    pub fn max_allocated_concurrently(&self) -> (n: usize)
        requires
            self.wf(),
        ensures
            n == self.peak(),
            n == self.opened(),
            self.live_count() <= n,
    {
        self.next
    }
}

} // verus!
