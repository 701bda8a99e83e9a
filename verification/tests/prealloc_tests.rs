use garble_service::prealloc::{GateV5c, PreallocError, Preallocator};
use garble_service::slab::FakeSlabAllocator;

#[test]
fn slab_reuses_the_last_freed_slot() {
    let mut slab = FakeSlabAllocator::new();
    assert_eq!(slab.allocate(), 0);
    assert_eq!(slab.allocate(), 1);
    assert_eq!(slab.allocate(), 2);
    slab.deallocate(0);
    slab.deallocate(2);
    assert_eq!(slab.allocate(), 2);
    assert_eq!(slab.allocate(), 0);
    assert_eq!(slab.allocate(), 3);
    assert_eq!(slab.max_allocated_concurrently(), 4);
}

#[test]
fn fixed_wires_keep_their_ids() {
    let mut p = Preallocator::new(2);
    assert_eq!(p.max_allocated_concurrently(), 4);
    assert_eq!(p.map_gate(2, 3, 10, 1), Ok(GateV5c { in1: 2, in2: 3, out: 4 }));
    assert_eq!(p.max_allocated_concurrently(), 5);
}

#[test]
fn last_use_frees_the_slot_for_the_next_output() {
    let mut p = Preallocator::new(2);
    assert_eq!(p.map_gate(2, 3, 10, 1), Ok(GateV5c { in1: 2, in2: 3, out: 4 }));
    assert_eq!(p.map_gate(2, 3, 11, 2), Ok(GateV5c { in1: 2, in2: 3, out: 5 }));
    // Wire 10 is read once: its slot 4 is freed and taken by wire 12.
    assert_eq!(p.map_gate(10, 11, 12, 1), Ok(GateV5c { in1: 4, in2: 5, out: 4 }));
    assert_eq!(p.credits_remaining(10), None);
    assert_eq!(p.credits_remaining(11), Some(1));
    assert_eq!(p.map_gate(11, 12, 13, 1), Ok(GateV5c { in1: 5, in2: 4, out: 4 }));
    assert_eq!(p.max_allocated_concurrently(), 6);
}

#[test]
fn reading_a_spent_wire_fails() {
    let mut p = Preallocator::new(1);
    assert_eq!(p.map_gate(0, 2, 5, 1), Ok(GateV5c { in1: 0, in2: 2, out: 3 }));
    assert_eq!(p.map_gate(5, 1, 6, 1), Ok(GateV5c { in1: 3, in2: 1, out: 3 }));
    assert_eq!(p.map_gate(5, 1, 7, 1), Err(PreallocError::MissingWire(5)));
}

#[test]
fn reading_an_unknown_wire_fails() {
    let mut p = Preallocator::new(1);
    assert_eq!(p.map_gate(0, 9, 5, 1), Err(PreallocError::MissingWire(9)));
}

#[test]
fn same_wire_twice_spends_two_credits() {
    let mut p = Preallocator::new(0);
    assert_eq!(p.map_gate(0, 1, 4, 2), Ok(GateV5c { in1: 0, in2: 1, out: 2 }));
    assert_eq!(p.map_gate(4, 4, 5, 1), Ok(GateV5c { in1: 2, in2: 2, out: 2 }));
    assert_eq!(p.credits_remaining(4), None);
}

#[test]
fn outputs_are_mapped_without_spending_credits() {
    let mut p = Preallocator::new(1);
    assert_eq!(p.map_gate(1, 2, 7, 1), Ok(GateV5c { in1: 1, in2: 2, out: 3 }));
    assert_eq!(p.map_outputs(&[7, 2, 0]), vec![3, 2, 0]);
    assert_eq!(p.credits_remaining(7), Some(1));
    assert_eq!(p.map_outputs(&[7]), vec![3]);
}

/// Evaluates a v5a circuit by wire id: (in1, in2, out, is_and).
fn eval_v5a(pi: u64, gates: &[(u64, u64, u64, bool)], x: &[bool], outputs: &[u64]) -> Vec<bool> {
    let mut vals = std::collections::HashMap::new();
    vals.insert(0u64, false);
    vals.insert(1u64, true);
    for i in 0..pi {
        vals.insert(i + 2, x[i as usize]);
    }
    for &(a, b, o, is_and) in gates {
        let (va, vb) = (vals[&a], vals[&b]);
        vals.insert(o, if is_and { va && vb } else { va != vb });
    }
    outputs.iter().map(|o| vals[o]).collect()
}

#[test]
fn converted_circuit_computes_the_same_function() {
    // A 3-input circuit: t = x0 ^ x1; u = t & x2; v = t ^ u; w = v & 1; outputs [u, w, x0].
    let pi = 3u64;
    let gates = [(2, 3, 10, false), (10, 4, 11, true), (10, 11, 12, false), (12, 1, 13, true)];
    // An output wire keeps one credit for being read as an output.
    let credits = [2u32, 2, 1, 1];
    let outputs = [11u64, 13, 2];

    let mut p = Preallocator::new(pi);
    let mut v5c = Vec::new();
    for (g, c) in gates.iter().zip(credits) {
        let mapped = p.map_gate(g.0, g.1, g.2, c).unwrap();
        v5c.push((mapped, g.3));
    }
    let slot_outputs = p.map_outputs(&outputs);
    let scratch = p.max_allocated_concurrently() as usize;
    assert!(scratch < 5 + gates.len());

    for bits in 0..8u32 {
        let x: Vec<bool> = (0..3).map(|i| bits >> i & 1 == 1).collect();
        let mut slots = vec![false; scratch];
        slots[1] = true;
        for i in 0..3 {
            slots[i + 2] = x[i];
        }
        for (g, is_and) in &v5c {
            let (va, vb) = (slots[g.in1 as usize], slots[g.in2 as usize]);
            slots[g.out as usize] = if *is_and { va && vb } else { va != vb };
        }
        let got: Vec<bool> = slot_outputs.iter().map(|s| slots[*s as usize]).collect();
        assert_eq!(got, eval_v5a(pi, &gates, &x, &outputs));
    }
}
