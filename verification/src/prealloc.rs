//! Conversion of a v5a circuit, whose gates name wires by absolute ids, into a
//! v5c circuit, whose gates name reusable slots of a bounded scratch space.
//!
//! Wires `0 .. primary_inputs + 2` (the two constants and the primary inputs)
//! keep their ids as slots. Every gate output gets a fresh slot and a number of
//! credits, one per later use; the use that spends the last credit frees the
//! slot for reuse. The scratch space of the v5c circuit is the largest number
//! of slots in use at one time.

use std::collections::HashMap;
use vstd::prelude::*;

use crate::slab::FakeSlabAllocator;

verus! {

/// Where a live gate-output wire sits, and how many uses it has left.
#[derive(Debug, Clone, Copy, PartialEq, Eq, Structural)]
pub struct WireEntry {
    pub slab_idx: usize,
    pub credits_remaining: u16,
}

/// A gate of a v5c circuit: two input slots and an output slot.
#[derive(Debug, Clone, Copy, PartialEq, Eq, Structural)]
pub struct GateV5c {
    pub in1: u32,
    pub in2: u32,
    pub out: u32,
}

/// Why a v5a circuit cannot be converted.
#[derive(Debug, Clone, Copy, PartialEq, Eq, Structural)]
pub enum PreallocError {
    /// A gate reads a wire that no earlier gate produced, or whose uses are spent.
    MissingWire(u64),
}

/// The state of a conversion, as plain values.
pub struct PreallocState {
    /// Live gate-output wires, by absolute wire id.
    pub wires: Map<u64, WireEntry>,
    /// Freed slots, the most recently freed last.
    pub free: Seq<usize>,
    /// Number of slots ever opened.
    pub opened: nat,
    /// Number of primary inputs.
    pub primary_inputs: u64,
}

/// Number of wires that keep their ids as slots: the constants 0 and 1 and
/// the primary inputs.
pub open spec fn fixed_wires(s: PreallocState) -> int {
    s.primary_inputs + 2
}

/// The conversion state at the start: the fixed wires' slots are opened and
/// no gate output is live.
pub open spec fn initial_state(primary_inputs: u64) -> PreallocState {
    PreallocState {
        wires: Map::empty(),
        free: Seq::empty(),
        opened: (primary_inputs + 2) as nat,
        primary_inputs,
    }
}

/// Looking up a wire while reading a gate's input (`ignore_creds` false) or
/// an output of the circuit (`ignore_creds` true): a fixed wire is its own
/// slot; an unknown wire has none; a live wire has its entry's slot, and, for
/// a gate input, spends one credit, and its last credit frees the slot.
pub open spec fn spec_lookup(s: PreallocState, wire: u64, ignore_creds: bool) -> (
    Option<usize>,
    PreallocState,
) {
    if wire < fixed_wires(s) {
        (Some(wire as usize), s)
    } else if !s.wires.contains_key(wire) {
        (None, s)
    } else {
        let e = s.wires[wire];
        if ignore_creds {
            (Some(e.slab_idx), s)
        } else if e.credits_remaining == 1 {
            (
                Some(e.slab_idx),
                PreallocState { wires: s.wires.remove(wire), free: s.free.push(e.slab_idx), ..s },
            )
        } else {
            (
                Some(e.slab_idx),
                PreallocState {
                    wires: s.wires.insert(
                        wire,
                        WireEntry {
                            slab_idx: e.slab_idx,
                            credits_remaining: (e.credits_remaining - 1) as u16,
                        },
                    ),
                    ..s
                },
            )
        }
    }
}

/// Reading a gate input `wire` would spend a credit from an entry that has
/// none left (an arithmetic underflow).
pub open spec fn lookup_underflows(s: PreallocState, wire: u64) -> bool {
    &&& wire >= fixed_wires(s)
    &&& s.wires.contains_key(wire)
    &&& s.wires[wire].credits_remaining == 0
}

/// Opening a slot for a gate output: the most recently freed slot, or a new one.
pub open spec fn spec_alloc(s: PreallocState) -> (usize, PreallocState) {
    if s.free.len() > 0 {
        (s.free.last(), PreallocState { free: s.free.drop_last(), ..s })
    } else {
        (s.opened as usize, PreallocState { opened: s.opened + 1, ..s })
    }
}

/// Converting one gate `in1, in2 -> out` whose output has `credits` uses:
/// look up `in1`, then `in2`, then open a slot for `out`.
pub open spec fn spec_map_gate(s: PreallocState, in1: u64, in2: u64, out: u64, credits: u32) -> (
    Result<GateV5c, PreallocError>,
    PreallocState,
) {
    let (r1, s1) = spec_lookup(s, in1, false);
    match r1 {
        None => (Err(PreallocError::MissingWire(in1)), s1),
        Some(a) => {
            let (r2, s2) = spec_lookup(s1, in2, false);
            match r2 {
                None => (Err(PreallocError::MissingWire(in2)), s2),
                Some(b) => {
                    let (o, s3) = spec_alloc(s2);
                    (
                        Ok(GateV5c { in1: a as u32, in2: b as u32, out: o as u32 }),
                        PreallocState {
                            wires: s3.wires.insert(
                                out,
                                WireEntry { slab_idx: o, credits_remaining: credits as u16 },
                            ),
                            ..s3
                        },
                    )
                },
            }
        },
    }
}

/// Converting this gate would spend a credit that is not there.
pub open spec fn map_gate_underflows(s: PreallocState, in1: u64, in2: u64) -> bool {
    ||| lookup_underflows(s, in1)
    ||| spec_lookup(s, in1, false).0 is Some && lookup_underflows(spec_lookup(s, in1, false).1, in2)
}

/// The slots are consistent: the fixed wires' slots and every live wire's
/// slot are opened and in use; live wires sit above the fixed slots, each in a
/// slot of its own; freed slots are distinct, opened, above the fixed slots
/// and not held by a live wire.
pub open spec fn state_wf(s: PreallocState) -> bool {
    &&& fixed_wires(s) <= s.opened <= usize::MAX
    &&& s.free.no_duplicates()
    &&& forall|k: int|
        0 <= k < s.free.len() ==> fixed_wires(s) <= #[trigger] s.free[k] < s.opened
    &&& forall|w: u64|
        #[trigger] s.wires.contains_key(w) ==> fixed_wires(s) <= s.wires[w].slab_idx < s.opened
            && !s.free.contains(s.wires[w].slab_idx)
    &&& forall|w1: u64, w2: u64|
        #![trigger s.wires[w1], s.wires[w2]]
        s.wires.contains_key(w1) && s.wires.contains_key(w2) && w1 != w2
            ==> s.wires[w1].slab_idx != s.wires[w2].slab_idx
}

/// Looks up `wire` (see [`spec_lookup`]); with `IGNORE_CREDS` false the
/// lookup spends a credit.
fn lookup_wire<const IGNORE_CREDS: bool>(
    map: &mut HashMap<u64, WireEntry>,
    slab: &mut FakeSlabAllocator,
    wire: u64,
    primary_inputs: u64,
) -> (r: Option<usize>)
    requires
        old(slab).wf(),
        state_wf(state_of(*old(map), *old(slab), primary_inputs)),
        !IGNORE_CREDS ==> !lookup_underflows(state_of(*old(map), *old(slab), primary_inputs), wire),
    ensures
        final(slab).wf(),
        (r, state_of(*final(map), *final(slab), primary_inputs)) == spec_lookup(
            state_of(*old(map), *old(slab), primary_inputs),
            wire,
            IGNORE_CREDS,
        ),
{
    let ghost s = state_of(*map, *slab, primary_inputs);
    if wire < primary_inputs + 2 {
        return Some(wire as usize);
    }
    let entry = match map.get(&wire) {
        None => return None,
        Some(e) => *e,
    };
    let idx = entry.slab_idx;
    if !IGNORE_CREDS {
        if entry.credits_remaining == 1 {
            map.remove(&wire);
            slab.deallocate(idx);
        } else {
            map.insert(
                wire,
                WireEntry { slab_idx: idx, credits_remaining: entry.credits_remaining - 1 },
            );
        }
    }
    proof {
        assert(state_of(*map, *slab, primary_inputs).wires =~= spec_lookup(s, wire, IGNORE_CREDS).1.wires);
    }
    Some(idx)
}

/// The conversion state held by a wire map, an allocator and the primary-input count.
pub open spec fn state_of(
    map: HashMap<u64, WireEntry>,
    slab: FakeSlabAllocator,
    primary_inputs: u64,
) -> PreallocState {
    PreallocState {
        wires: map@,
        free: slab.free_slots(),
        opened: slab.opened(),
        primary_inputs,
    }
}


/// A v5a-to-v5c conversion in progress: the live gate-output wires and the
/// slot allocator.
pub struct Preallocator {
    wire_map: HashMap<u64, WireEntry>,
    slab: FakeSlabAllocator,
    primary_inputs: u64,
}

impl Preallocator {
    /// The conversion state, as plain values.
    pub closed spec fn state(&self) -> PreallocState {
        state_of(self.wire_map, self.slab, self.primary_inputs)
    }

    /// The slots are consistent (see [`state_wf`]).
    pub closed spec fn wf(&self) -> bool {
        &&& self.slab.wf()
        &&& state_wf(self.state())
    }

    /// Starts a conversion of a circuit with `primary_inputs` primary inputs:
    /// slots `0 .. primary_inputs + 2` are opened for the constants and the
    /// primary inputs.
    pub fn new(primary_inputs: u64) -> (p: Self)
        requires
            primary_inputs + 2 <= usize::MAX,
        ensures
            p.wf(),
            state_wf(p.state()),
            p.state() == initial_state(primary_inputs),
    {
        let mut slab = FakeSlabAllocator::new();
        let fixed = primary_inputs + 2;
        let mut i: u64 = 0;
        while i < fixed
            invariant
                fixed == primary_inputs + 2,
                fixed <= usize::MAX,
                i <= fixed,
                slab.wf(),
                slab.free_slots() == Seq::<usize>::empty(),
                slab.opened() == i,
            decreases fixed - i,
        {
            slab.allocate();
            i = i + 1;
        }
        let wire_map: HashMap<u64, WireEntry> = HashMap::new();
        let p = Preallocator { wire_map, slab, primary_inputs };
        assert(p.state().wires =~= Map::<u64, WireEntry>::empty());
        p
    }

    /// How many uses the live wire `wire` has left, if it is a live gate output.
    pub fn credits_remaining(&self, wire: u64) -> (c: Option<u16>)
        ensures
            self.state().wires.contains_key(wire) ==> c == Some(
                self.state().wires[wire].credits_remaining,
            ),
            !self.state().wires.contains_key(wire) ==> c is None,
    {
        match self.wire_map.get(&wire) {
            Some(e) => Some(e.credits_remaining),
            None => None,
        }
    }

    /// Converts a gate `in1, in2 -> out` whose output will be read `credits`
    /// times (see [`spec_map_gate`]). Reading `in1` and then `in2` spends one
    /// credit of each; the output gets the most recently freed slot, or a new
    /// one. Fails on an input that is neither fixed nor live. The credit count
    /// is kept in 16 bits, as `credits as u16`.
    pub fn map_gate(&mut self, in1: u64, in2: u64, out: u64, credits: u32) -> (r: Result<
        GateV5c,
        PreallocError,
    >)
        requires
            old(self).wf(),
            !map_gate_underflows(old(self).state(), in1, in2),
            old(self).state().opened < usize::MAX,
        ensures
            final(self).wf(),
            state_wf(final(self).state()),
            (r, final(self).state()) == spec_map_gate(old(self).state(), in1, in2, out, credits),
            r is Ok ==> final(self).state().wires.contains_key(out),
            r is Ok && credits <= u16::MAX ==> final(self).state().wires[out].credits_remaining
                == credits,
    {
        proof {
            lemma_map_gate_keeps_slots_consistent(self.state(), in1, in2, out, credits);
            lemma_lookup_keeps_slots_consistent(self.state(), in1, false);
        }
        let ghost s0 = self.state();
        let a = match lookup_wire::<false>(&mut self.wire_map, &mut self.slab, in1, self.primary_inputs) {
            Some(a) => a,
            None => return Err(PreallocError::MissingWire(in1)),
        };
        proof {
            lemma_lookup_keeps_slots_consistent(self.state(), in2, false);
        }
        let b = match lookup_wire::<false>(&mut self.wire_map, &mut self.slab, in2, self.primary_inputs) {
            Some(b) => b,
            None => return Err(PreallocError::MissingWire(in2)),
        };
        let o = self.slab.allocate();
        self.wire_map.insert(out, WireEntry { slab_idx: o, credits_remaining: credits as u16 });
        proof {
            assert(self.state().wires =~= spec_map_gate(s0, in1, in2, out, credits).1.wires);
        }
        Ok(GateV5c { in1: a as u32, in2: b as u32, out: o as u32 })
    }

    /// The slots of the circuit's output wires, in order; credits are not spent.
    pub fn map_outputs(&mut self, outputs: &[u64]) -> (slots: Vec<u32>)
        requires
            old(self).wf(),
            forall|i: int|
                0 <= i < outputs@.len() ==> #[trigger] spec_lookup(old(self).state(), outputs@[i], true).0 is Some,
        ensures
            final(self).wf(),
            state_wf(final(self).state()),
            final(self).state() == old(self).state(),
            slots@.len() == outputs@.len(),
            forall|i: int|
                0 <= i < outputs@.len() ==> #[trigger] slots@[i] == spec_lookup(
                    old(self).state(),
                    outputs@[i],
                    true,
                ).0.unwrap() as u32,
    {
        let ghost s0 = self.state();
        let mut slots: Vec<u32> = Vec::with_capacity(outputs.len());
        for i in 0..outputs.len()
            invariant
                self.wf(),
                self.state() == s0,
                forall|k: int|
                    0 <= k < outputs@.len() ==> #[trigger] spec_lookup(s0, outputs@[k], true).0 is Some,
                slots@.len() == i,
                forall|k: int|
                    0 <= k < i ==> #[trigger] slots@[k] == spec_lookup(s0, outputs@[k], true).0.unwrap() as u32,
        {
            let idx = lookup_wire::<true>(&mut self.wire_map, &mut self.slab, outputs[i], self.primary_inputs);
            assert(spec_lookup(s0, outputs@[i as int], true).0 is Some);
            slots.push(idx.unwrap() as u32);
        }
        slots
    }

    /// The scratch space the v5c circuit needs: the largest number of slots in
    /// use at one time, which is the number of slots opened.
    pub fn max_allocated_concurrently(&self) -> (n: u64)
        requires
            self.wf(),
        ensures
            state_wf(self.state()),
            n == self.state().opened,
    {
        self.slab.max_allocated_concurrently() as u64
    }
}

/// Looking a wire up keeps the slots consistent, and the slot it yields is an
/// opened one: below the number of slots opened, which is the scratch space.
pub proof fn lemma_lookup_keeps_slots_consistent(s: PreallocState, wire: u64, ignore_creds: bool)
    requires
        state_wf(s),
        !ignore_creds ==> !lookup_underflows(s, wire),
    ensures
        state_wf(spec_lookup(s, wire, ignore_creds).1),
        spec_lookup(s, wire, ignore_creds).1.opened == s.opened,
        spec_lookup(s, wire, ignore_creds).0 matches Some(i) ==> i < s.opened,
{
    let t = spec_lookup(s, wire, ignore_creds).1;
    if wire >= fixed_wires(s) && s.wires.contains_key(wire) && !ignore_creds {
        let e = s.wires[wire];
        if e.credits_remaining == 1 {
            assert forall|k: int| 0 <= k < t.free.len() implies fixed_wires(t) <= #[trigger] t.free[k]
                < t.opened by {
                if k < s.free.len() {
                    assert(t.free[k] == s.free[k]);
                }
            }
            assert(t.free.no_duplicates()) by {
                assert forall|i: int, j: int|
                    0 <= i < t.free.len() && 0 <= j < t.free.len() && i != j implies t.free[i]
                    != t.free[j] by {
                    assert(!s.free.contains(e.slab_idx));
                    if i == s.free.len() as int {
                        assert(t.free[j] == s.free[j]);
                        assert(s.free.contains(s.free[j]));
                    } else if j == s.free.len() as int {
                        assert(t.free[i] == s.free[i]);
                        assert(s.free.contains(s.free[i]));
                    } else {
                        assert(t.free[i] == s.free[i]);
                        assert(t.free[j] == s.free[j]);
                    }
                }
            }
            assert forall|w: u64| #[trigger] t.wires.contains_key(w) implies fixed_wires(t)
                <= t.wires[w].slab_idx < t.opened && !t.free.contains(t.wires[w].slab_idx) by {
                assert(w != wire);
                assert(s.wires.contains_key(w));
                if t.free.contains(t.wires[w].slab_idx) {
                    let k = choose|k: int| 0 <= k < t.free.len() && t.free[k] == t.wires[w].slab_idx;
                    if k < s.free.len() {
                        assert(s.free[k] == t.free[k]);
                    } else {
                        assert(s.wires[w].slab_idx == s.wires[wire].slab_idx);
                    }
                }
            }
            assert forall|w1: u64, w2: u64|
                #![trigger t.wires[w1], t.wires[w2]]
                t.wires.contains_key(w1) && t.wires.contains_key(w2) && w1 != w2 implies t.wires[w1].slab_idx
                != t.wires[w2].slab_idx by {
                assert(s.wires[w1] == t.wires[w1]);
                assert(s.wires[w2] == t.wires[w2]);
            }
        } else {
            assert forall|w1: u64, w2: u64|
                #![trigger t.wires[w1], t.wires[w2]]
                t.wires.contains_key(w1) && t.wires.contains_key(w2) && w1 != w2 implies t.wires[w1].slab_idx
                != t.wires[w2].slab_idx by {
                assert(s.wires.contains_key(w1) && s.wires.contains_key(w2));
                assert(s.wires[w1].slab_idx == t.wires[w1].slab_idx);
                assert(s.wires[w2].slab_idx == t.wires[w2].slab_idx);
            }
            assert forall|w: u64| #[trigger] t.wires.contains_key(w) implies fixed_wires(t)
                <= t.wires[w].slab_idx < t.opened && !t.free.contains(t.wires[w].slab_idx) by {
                assert(s.wires.contains_key(w));
                assert(s.wires[w].slab_idx == t.wires[w].slab_idx);
            }
        }
    }
}

/// Opening a slot for a gate output and recording the output wire there keeps
/// the slots consistent; the slot is new to every live wire, above the fixed
/// slots and below the (possibly grown) number of slots opened, which grows by
/// at most one.
pub proof fn lemma_alloc_keeps_slots_consistent(s: PreallocState, out: u64, credits: u16)
    requires
        state_wf(s),
        s.opened < usize::MAX,
    ensures
        ({
            let (o, t) = spec_alloc(s);
            &&& fixed_wires(s) <= o < t.opened
            &&& s.opened <= t.opened <= s.opened + 1
            &&& forall|w: u64| #[trigger] s.wires.contains_key(w) ==> s.wires[w].slab_idx != o
            &&& state_wf(
                PreallocState {
                    wires: t.wires.insert(out, WireEntry { slab_idx: o, credits_remaining: credits }),
                    ..t
                },
            )
        }),
{
    let (o, t) = spec_alloc(s);
    let u = PreallocState {
        wires: t.wires.insert(out, WireEntry { slab_idx: o, credits_remaining: credits }),
        ..t
    };
    if s.free.len() > 0 {
        let last = s.free.len() - 1;
        assert(s.free[last] == o);
        assert(s.free.contains(o));
        assert forall|w: u64| #[trigger] s.wires.contains_key(w) implies s.wires[w].slab_idx != o by {}
        assert(!t.free.contains(o)) by {
            if t.free.contains(o) {
                let k = choose|k: int| 0 <= k < t.free.len() && t.free[k] == o;
                assert(s.free[k] == s.free[last]);
            }
        }
        assert forall|k: int| 0 <= k < t.free.len() implies fixed_wires(t) <= #[trigger] t.free[k]
            < t.opened by {
            assert(t.free[k] == s.free[k]);
        }
        assert forall|w: u64| #[trigger] u.wires.contains_key(w) implies fixed_wires(u)
            <= u.wires[w].slab_idx < u.opened && !u.free.contains(u.wires[w].slab_idx) by {
            if w != out {
                assert(s.wires.contains_key(w));
                if t.free.contains(s.wires[w].slab_idx) {
                    let k = choose|k: int| 0 <= k < t.free.len() && t.free[k] == s.wires[w].slab_idx;
                    assert(s.free[k] == t.free[k]);
                }
            }
        }
    } else {
        assert forall|w: u64| #[trigger] u.wires.contains_key(w) implies fixed_wires(u)
            <= u.wires[w].slab_idx < u.opened && !u.free.contains(u.wires[w].slab_idx) by {
            if w != out {
                assert(s.wires.contains_key(w));
            }
        }
    }
    assert forall|w1: u64, w2: u64|
        #![trigger u.wires[w1], u.wires[w2]]
        u.wires.contains_key(w1) && u.wires.contains_key(w2) && w1 != w2 implies u.wires[w1].slab_idx
        != u.wires[w2].slab_idx by {
        if w1 != out && w2 != out {
            assert(s.wires[w1] == u.wires[w1]);
            assert(s.wires[w2] == u.wires[w2]);
        } else if w1 == out {
            assert(s.wires.contains_key(w2));
        } else {
            assert(s.wires.contains_key(w1));
        }
    }
}

/// Converting a gate keeps the slots consistent, and every slot the converted
/// gate names is below the number of slots opened afterwards; the output's
/// slot is held by no other live wire. The number of slots opened grows by at
/// most one and never shrinks.
pub proof fn lemma_map_gate_keeps_slots_consistent(
    s: PreallocState,
    in1: u64,
    in2: u64,
    out: u64,
    credits: u32,
)
    requires
        state_wf(s),
        !map_gate_underflows(s, in1, in2),
        s.opened < usize::MAX,
    ensures
        ({
            let (r, t) = spec_map_gate(s, in1, in2, out, credits);
            &&& state_wf(t)
            &&& s.opened <= t.opened <= s.opened + 1
            &&& r is Ok ==> {
                let a = spec_lookup(s, in1, false).0.unwrap();
                let b = spec_lookup(spec_lookup(s, in1, false).1, in2, false).0.unwrap();
                let o = t.wires[out].slab_idx;
                &&& a < t.opened
                &&& b < t.opened
                &&& o < t.opened
                &&& t.wires.contains_key(out)
                &&& forall|w: u64| #[trigger] t.wires.contains_key(w) && w != out ==> t.wires[w].slab_idx != o
            }
        }),
{
    lemma_lookup_keeps_slots_consistent(s, in1, false);
    let (r1, s1) = spec_lookup(s, in1, false);
    if r1 is Some {
        lemma_lookup_keeps_slots_consistent(s1, in2, false);
        let (r2, s2) = spec_lookup(s1, in2, false);
        if r2 is Some {
            lemma_alloc_keeps_slots_consistent(s2, out, credits as u16);
        }
    }
}

/// Two different wires that both resolve to slots resolve to different slots:
/// no two live values ever share a slot.
pub proof fn lemma_wires_do_not_share_slots(s: PreallocState, w1: u64, w2: u64)
    requires
        state_wf(s),
        w1 != w2,
        spec_lookup(s, w1, true).0 is Some,
        spec_lookup(s, w2, true).0 is Some,
    ensures
        spec_lookup(s, w1, true).0 != spec_lookup(s, w2, true).0,
{
    if w1 >= fixed_wires(s) && w2 >= fixed_wires(s) {
        assert(s.wires[w1].slab_idx != s.wires[w2].slab_idx);
    }
}

/// The use that spends a wire's last credit retires the wire and frees its
/// slot, and the next gate output is placed in exactly that slot.
pub proof fn lemma_last_use_frees_slot(s: PreallocState, wire: u64)
    requires
        state_wf(s),
        wire >= fixed_wires(s),
        s.wires.contains_key(wire),
        s.wires[wire].credits_remaining == 1,
    ensures
        !spec_lookup(s, wire, false).1.wires.contains_key(wire),
        spec_lookup(spec_lookup(s, wire, false).1, wire, true).0 is None,
        spec_alloc(spec_lookup(s, wire, false).1).0 == s.wires[wire].slab_idx,
{
    let t = spec_lookup(s, wire, false).1;
    assert(t.free.last() == s.wires[wire].slab_idx);
}

/// The two kinds of gate of a boolean circuit.
#[derive(Debug, Clone, Copy, PartialEq, Eq, Structural)]
pub enum GateKind {
    Xor,
    And,
}

/// A gate of a v5a circuit: input wires, output wire, number of later reads
/// of the output, and kind.
#[derive(Debug, Clone, Copy, PartialEq, Eq, Structural)]
pub struct V5aGate {
    pub in1: u64,
    pub in2: u64,
    pub out: u64,
    pub credits: u32,
    pub kind: GateKind,
}

/// The value a gate of kind `kind` gives to inputs `a` and `b`.
pub open spec fn gate_value(kind: GateKind, a: bool, b: bool) -> bool {
    match kind {
        GateKind::Xor => a != b,
        GateKind::And => a && b,
    }
}

/// Wire values after a v5a gate: its output wire gets its value.
pub open spec fn step_v5a(g: V5aGate, wires: spec_fn(u64) -> bool) -> spec_fn(u64) -> bool {
    |w: u64|
        if w == g.out {
            gate_value(g.kind, wires(g.in1), wires(g.in2))
        } else {
            wires(w)
        }
}

/// Wire values after running the v5a gates in order.
pub open spec fn run_v5a(gates: Seq<V5aGate>, wires: spec_fn(u64) -> bool) -> spec_fn(u64) -> bool
    decreases gates.len(),
{
    if gates.len() == 0 {
        wires
    } else {
        run_v5a(gates.drop_first(), step_v5a(gates[0], wires))
    }
}

/// Slot values after a v5c gate of kind `kind`: its output slot gets its value.
pub open spec fn step_v5c(g: GateV5c, kind: GateKind, slots: spec_fn(int) -> bool) -> spec_fn(
    int,
) -> bool {
    |i: int|
        if i == g.out as int {
            gate_value(kind, slots(g.in1 as int), slots(g.in2 as int))
        } else {
            slots(i)
        }
}

/// Slot values after running the v5c gates in order, the `i`-th of kind `kinds[i]`.
pub open spec fn run_v5c(gates: Seq<GateV5c>, kinds: Seq<GateKind>, slots: spec_fn(int) -> bool) -> spec_fn(
    int,
) -> bool
    decreases gates.len(),
{
    if gates.len() == 0 {
        slots
    } else {
        run_v5c(gates.drop_first(), kinds.drop_first(), step_v5c(gates[0], kinds[0], slots))
    }
}

/// The kinds of the gates, in order.
pub open spec fn kinds_of(gates: Seq<V5aGate>) -> Seq<GateKind> {
    gates.map_values(|g: V5aGate| g.kind)
}

/// Converting the v5a gates one after another, as the conversion loop does:
/// the v5c gates, or `None` when a gate fails, and the state reached.
pub open spec fn spec_convert(s: PreallocState, gates: Seq<V5aGate>) -> (
    Option<Seq<GateV5c>>,
    PreallocState,
)
    decreases gates.len(),
{
    if gates.len() == 0 {
        (Some(Seq::empty()), s)
    } else {
        let g = gates[0];
        let (r, t) = spec_map_gate(s, g.in1, g.in2, g.out, g.credits);
        match r {
            Err(_) => (None, t),
            Ok(c) => {
                let (rest, u) = spec_convert(t, gates.drop_first());
                match rest {
                    None => (None, u),
                    Some(cs) => (Some(seq![c] + cs), u),
                }
            },
        }
    }
}

/// Every gate writes a gate-output wire (not a constant or primary input),
/// spends no credit that is not there, and finds fewer than `u32::MAX` slots
/// opened, so that slot numbers fit the 32-bit fields of a v5c gate.
pub open spec fn convertible(s: PreallocState, gates: Seq<V5aGate>) -> bool
    decreases gates.len(),
{
    gates.len() == 0 || {
        let g = gates[0];
        &&& !map_gate_underflows(s, g.in1, g.in2)
        &&& s.opened < u32::MAX
        &&& g.out >= fixed_wires(s)
        &&& convertible(spec_map_gate(s, g.in1, g.in2, g.out, g.credits).1, gates.drop_first())
    }
}

/// Every wire that resolves to a slot holds, in that slot, its own value.
pub open spec fn simulates(s: PreallocState, wires: spec_fn(u64) -> bool, slots: spec_fn(int) -> bool) -> bool {
    forall|w: u64|
        #[trigger] spec_lookup(s, w, true).0 is Some ==> slots(spec_lookup(s, w, true).0.unwrap() as int)
            == wires(w)
}

proof fn lemma_lookup_keeps_entries(s: PreallocState, wire: u64)
    requires
        !lookup_underflows(s, wire),
    ensures
        spec_lookup(s, wire, false).0 == spec_lookup(s, wire, true).0,
        forall|w: u64|
            #[trigger] spec_lookup(s, wire, false).1.wires.contains_key(w) ==> s.wires.contains_key(w)
                && spec_lookup(s, wire, false).1.wires[w].slab_idx == s.wires[w].slab_idx,
        spec_lookup(s, wire, false).1.primary_inputs == s.primary_inputs,
{
}

/// One converted gate computes what the v5a gate computes: if before it
/// every resolvable wire's slot holds the wire's value, then after it every
/// resolvable wire's slot holds the wire's new value.
pub proof fn lemma_map_gate_simulates(
    s: PreallocState,
    g: V5aGate,
    wires: spec_fn(u64) -> bool,
    slots: spec_fn(int) -> bool,
)
    requires
        state_wf(s),
        !map_gate_underflows(s, g.in1, g.in2),
        s.opened < u32::MAX,
        g.out >= fixed_wires(s),
        simulates(s, wires, slots),
        spec_map_gate(s, g.in1, g.in2, g.out, g.credits).0 is Ok,
    ensures
        simulates(
            spec_map_gate(s, g.in1, g.in2, g.out, g.credits).1,
            step_v5a(g, wires),
            step_v5c(spec_map_gate(s, g.in1, g.in2, g.out, g.credits).0->Ok_0, g.kind, slots),
        ),
{
    let (r1, s1) = spec_lookup(s, g.in1, false);
    lemma_lookup_keeps_entries(s, g.in1);
    lemma_lookup_keeps_slots_consistent(s, g.in1, false);
    let a = r1.unwrap();
    let (r2, s2) = spec_lookup(s1, g.in2, false);
    lemma_lookup_keeps_entries(s1, g.in2);
    lemma_lookup_keeps_slots_consistent(s1, g.in2, false);
    let b = r2.unwrap();
    lemma_alloc_keeps_slots_consistent(s2, g.out, g.credits as u16);
    let (o, s3) = spec_alloc(s2);
    let (r, t) = spec_map_gate(s, g.in1, g.in2, g.out, g.credits);
    let c = r->Ok_0;
    assert(c == GateV5c { in1: a as u32, in2: b as u32, out: o as u32 });
    // The inputs resolve in `s` to the slots it reads.
    assert(spec_lookup(s, g.in1, true).0 == Some(a));
    assert(spec_lookup(s, g.in2, true).0 == Some(b)) by {
        if g.in2 >= fixed_wires(s) {
            assert(s1.wires.contains_key(g.in2));
        }
    }
    assert(slots(a as int) == wires(g.in1));
    assert(slots(b as int) == wires(g.in2));
    assert(c.in1 as int == a && c.in2 as int == b && c.out as int == o);
    let wires2 = step_v5a(g, wires);
    let slots2 = step_v5c(c, g.kind, slots);
    assert forall|w: u64| #[trigger] spec_lookup(t, w, true).0 is Some implies slots2(
        spec_lookup(t, w, true).0.unwrap() as int,
    ) == wires2(w) by {
        if w == g.out {
            assert(spec_lookup(t, w, true).0 == Some(o));
        } else if w < fixed_wires(s) {
            assert(spec_lookup(s, w, true).0 == Some(w as usize));
        } else {
            assert(t.wires.contains_key(w));
            assert(s2.wires.contains_key(w));
            assert(s1.wires.contains_key(w));
            assert(s.wires.contains_key(w));
            assert(spec_lookup(s, w, true).0 == Some(s.wires[w].slab_idx));
            assert(s2.wires[w].slab_idx != o);
        }
    }
}

/// Converting a sequence of gates computes what the v5a gates compute, slot
/// for wire; the number of slots opened never shrinks and stays within
/// `u32::MAX` when it starts there.
pub proof fn lemma_convert_simulates(
    s: PreallocState,
    gates: Seq<V5aGate>,
    wires: spec_fn(u64) -> bool,
    slots: spec_fn(int) -> bool,
)
    requires
        state_wf(s),
        convertible(s, gates),
        simulates(s, wires, slots),
        spec_convert(s, gates).0 is Some,
    ensures
        state_wf(spec_convert(s, gates).1),
        s.opened <= spec_convert(s, gates).1.opened,
        s.opened <= u32::MAX ==> spec_convert(s, gates).1.opened <= u32::MAX,
        simulates(
            spec_convert(s, gates).1,
            run_v5a(gates, wires),
            run_v5c(spec_convert(s, gates).0.unwrap(), kinds_of(gates), slots),
        ),
    decreases gates.len(),
{
    if gates.len() > 0 {
        let g = gates[0];
        let (r, t) = spec_map_gate(s, g.in1, g.in2, g.out, g.credits);
        lemma_map_gate_keeps_slots_consistent(s, g.in1, g.in2, g.out, g.credits);
        lemma_map_gate_simulates(s, g, wires, slots);
        let c = r->Ok_0;
        let rest = gates.drop_first();
        lemma_convert_simulates(t, rest, step_v5a(g, wires), step_v5c(c, g.kind, slots));
        let cs = spec_convert(t, rest).0.unwrap();
        let all = seq![c] + cs;
        assert(spec_convert(s, gates).0.unwrap() == all);
        assert(all[0] == c);
        assert(all.drop_first() =~= cs);
        assert(kinds_of(gates)[0] == g.kind);
        assert(kinds_of(gates).drop_first() =~= kinds_of(rest));
    }
}

/// The conversion preserves the circuit's function. Let a v5a circuit with
/// `primary_inputs` inputs have gates `gates` and outputs `outputs`, and let
/// the conversion succeed on it, each gate writing a gate-output wire and
/// finding its credits and fewer than `u32::MAX` slots. Start the v5a circuit
/// from wire values `wires` and the converted circuit from slot values `slots`
/// that agree on the constants and primary inputs (wire `i` in slot `i`). Then
/// every output of the converted circuit, read from the slot the conversion
/// gives it, holds the value the v5a circuit gives that output.
pub proof fn lemma_conversion_preserves_function(
    primary_inputs: u64,
    gates: Seq<V5aGate>,
    outputs: Seq<u64>,
    wires: spec_fn(u64) -> bool,
    slots: spec_fn(int) -> bool,
)
    requires
        primary_inputs + 2 <= u32::MAX,
        convertible(initial_state(primary_inputs), gates),
        spec_convert(initial_state(primary_inputs), gates).0 is Some,
        forall|w: u64| w < primary_inputs + 2 ==> #[trigger] slots(w as int) == wires(w),
        forall|i: int|
            0 <= i < outputs.len() ==> #[trigger] spec_lookup(
                spec_convert(initial_state(primary_inputs), gates).1,
                outputs[i],
                true,
            ).0 is Some,
    ensures
        ({
            let (cs, t) = spec_convert(initial_state(primary_inputs), gates);
            forall|i: int|
                0 <= i < outputs.len() ==> #[trigger] run_v5c(cs.unwrap(), kinds_of(gates), slots)(
                    (spec_lookup(t, outputs[i], true).0.unwrap() as u32) as int,
                ) == run_v5a(gates, wires)(outputs[i])
        }),
{
    let s = initial_state(primary_inputs);
    assert(state_wf(s));
    assert forall|w: u64| #[trigger] spec_lookup(s, w, true).0 is Some implies slots(
        spec_lookup(s, w, true).0.unwrap() as int,
    ) == wires(w) by {
        assert(w < primary_inputs + 2);
    }
    lemma_convert_simulates(s, gates, wires, slots);
    let (cs, t) = spec_convert(s, gates);
    assert forall|i: int| 0 <= i < outputs.len() implies #[trigger] run_v5c(
        cs.unwrap(),
        kinds_of(gates),
        slots,
    )((spec_lookup(t, outputs[i], true).0.unwrap() as u32) as int) == run_v5a(gates, wires)(
        outputs[i],
    ) by {
        lemma_lookup_keeps_slots_consistent(t, outputs[i], true);
        assert(spec_lookup(t, outputs[i], true).0 is Some);
    }
}

/// The state after `n` gate-input reads of `wire`.
pub open spec fn reads(s: PreallocState, wire: u64, n: nat) -> PreallocState
    decreases n,
{
    if n == 0 {
        s
    } else {
        spec_lookup(reads(s, wire, (n - 1) as nat), wire, false).1
    }
}

/// A live gate-output wire with `c` credits stays live through fewer than `c`
/// reads of it, each read spending one credit and keeping its slot.
pub proof fn lemma_reads_spend_credits(s: PreallocState, wire: u64, n: nat)
    requires
        wire >= fixed_wires(s),
        s.wires.contains_key(wire),
        n < s.wires[wire].credits_remaining,
    ensures
        reads(s, wire, n).primary_inputs == s.primary_inputs,
        reads(s, wire, n).wires.contains_key(wire),
        reads(s, wire, n).wires[wire].slab_idx == s.wires[wire].slab_idx,
        reads(s, wire, n).wires[wire].credits_remaining == s.wires[wire].credits_remaining - n,
        spec_lookup(reads(s, wire, n), wire, false).0 == Some(s.wires[wire].slab_idx),
    decreases n,
{
    if n > 0 {
        lemma_reads_spend_credits(s, wire, (n - 1) as nat);
    }
}

/// A converted gate's output, recorded with `credits` uses (at least one and
/// within 16 bits), keeps its slot for that many reads: each of the first
/// `credits` gate-input reads of it finds it, in the slot it was written to.
pub proof fn lemma_gate_output_lives_for_its_credits(
    s: PreallocState,
    in1: u64,
    in2: u64,
    out: u64,
    credits: u32,
    n: nat,
)
    requires
        state_wf(s),
        !map_gate_underflows(s, in1, in2),
        s.opened < usize::MAX,
        out >= fixed_wires(s),
        1 <= credits <= u16::MAX,
        n < credits,
        spec_map_gate(s, in1, in2, out, credits).0 is Ok,
    ensures
        ({
            let (r, t) = spec_map_gate(s, in1, in2, out, credits);
            &&& t.wires.contains_key(out)
            &&& t.wires[out].credits_remaining == credits
            &&& r->Ok_0.out == t.wires[out].slab_idx as u32
            &&& spec_lookup(reads(t, out, n), out, false).0 == Some(t.wires[out].slab_idx)
        }),
{
    let (r, t) = spec_map_gate(s, in1, in2, out, credits);
    lemma_lookup_keeps_entries(s, in1);
    let s1 = spec_lookup(s, in1, false).1;
    lemma_lookup_keeps_entries(s1, in2);
    assert(t.wires[out].credits_remaining == credits);
    lemma_reads_spend_credits(t, out, n);
}

} // verus!
