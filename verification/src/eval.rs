//! The evaluator of a privacy-free half-gates garbled circuit (Zahur, Rosulek
//! and Evans, 2015): it walks the gates holding, for every wire slot, the
//! active label and the plain value carried by that label.

use vstd::prelude::*;

use crate::bits::{bits_of, bitvec_get, bitvec_len, bitvec_repeat, bitvec_set, max_bits, Bits};
use crate::labels::{label_for_bit, label_xor, xor_labels};
use crate::service::EvaluationInstanceConfig;

verus! {

/// Evaluation state: gate counters and, per wire slot, a label and a value.
pub struct X86_64EvaluationInstance {
    /// Number of gates evaluated.
    gate_ctr: u64,
    /// Number of AND gates evaluated.
    and_ctr: u64,
    /// The active label of every slot.
    working_space: Vec<[u8; 16]>,
    /// The plain value of every slot.
    working_space_bits: Bits,
}

/// The label of an AND gate's output in privacy-free half-gates evaluation:
/// the hash of the first input's label, XORed with this gate's ciphertext and
/// the second input's label when the first input's value is true.
pub open spec fn and_gate_label(in1_hash: Seq<u8>, in1_value: bool, ciphertext: Seq<u8>, in2_label: Seq<u8>) -> Seq<u8> {
    if in1_value {
        label_xor(in1_hash, label_xor(ciphertext, in2_label))
    } else {
        in1_hash
    }
}

impl X86_64EvaluationInstance {
    /// The active label of every slot.
    pub closed spec fn labels(&self) -> Seq<[u8; 16]> {
        self.working_space@
    }

    /// The plain value of every slot.
    pub closed spec fn values(&self) -> Seq<bool> {
        bits_of(self.working_space_bits)
    }

    /// Number of gates evaluated.
    pub closed spec fn gates(&self) -> nat {
        self.gate_ctr as nat
    }

    /// Number of AND gates evaluated.
    pub closed spec fn and_gates(&self) -> nat {
        self.and_ctr as nat
    }

    /// One label and one value per slot; AND gates are among the gates counted.
    pub open spec fn wf(&self) -> bool {
        &&& self.labels().len() == self.values().len()
        &&& self.and_gates() <= self.gates()
    }

    /// Sets up evaluation: every slot gets the all-zero label and the value
    /// false; then slot 0 gets the label of constant false and value false,
    /// slot 1 the label of constant true and value true, and slots `2, 3, ...`
    /// the selected labels and values of the primary inputs. The labels of the
    /// two constant wires are those the garbling scheme fixes for them.
    pub fn new<'labels>(
        config: EvaluationInstanceConfig<'labels>,
        zero_label: [u8; 16],
        one_label: [u8; 16],
    ) -> (inst: Self)
        requires
            config.scratch_space >= 2,
            config.scratch_space <= max_bits(),
            config.selected_primary_input_labels@.len() + 2 <= config.scratch_space,
            bits_of(*config.selected_primary_input_values).len() + 2 <= config.scratch_space,
        ensures
            inst.wf(),
            inst.gates() == 0,
            inst.and_gates() == 0,
            inst.labels().len() == config.scratch_space,
            inst.labels()[0] == zero_label,
            inst.labels()[1] == one_label,
            forall|k: int|
                0 <= k < config.selected_primary_input_labels@.len() ==> #[trigger] inst.labels()[k + 2]
                    == config.selected_primary_input_labels@[k],
            forall|i: int|
                2 + config.selected_primary_input_labels@.len() <= i < inst.labels().len() ==> #[trigger] inst.labels()[i]@
                    == Seq::new(16, |j: int| 0u8),
            inst.values()[0] == false,
            inst.values()[1] == true,
            forall|k: int|
                0 <= k < bits_of(*config.selected_primary_input_values).len() ==> #[trigger] inst.values()[k
                    + 2] == bits_of(*config.selected_primary_input_values)[k],
            forall|i: int|
                2 + bits_of(*config.selected_primary_input_values).len() <= i < inst.values().len()
                    ==> !#[trigger] inst.values()[i],
    {
        let n = config.scratch_space as usize;
        let empty_label = [0u8; 16];
        assert(empty_label@ =~= Seq::new(16, |j: int| 0u8));
        let mut working_space: Vec<[u8; 16]> = Vec::with_capacity(n);
        for i in 0..n
            invariant
                working_space@.len() == i,
                forall|j: int| 0 <= j < i ==> #[trigger] working_space@[j] == empty_label,
                empty_label@ == Seq::new(16, |j: int| 0u8),
        {
            working_space.push(empty_label);
        }
        working_space.set(0, zero_label);
        working_space.set(1, one_label);
        let labels = config.selected_primary_input_labels;
        let ghost ws1 = working_space@;
        for k in 0..labels.len()
            invariant
                n == config.scratch_space,
                labels == config.selected_primary_input_labels,
                labels@.len() + 2 <= n,
                working_space@.len() == n,
                working_space@[0] == zero_label,
                working_space@[1] == one_label,
                forall|j: int| 0 <= j < k ==> #[trigger] working_space@[j + 2] == labels@[j],
                forall|i: int| 2 + k <= i < n ==> #[trigger] working_space@[i] == empty_label,
        {
            working_space.set(k + 2, labels[k]);
        }

        let mut bits = bitvec_repeat(false, n);
        bitvec_set(&mut bits, 0, false);
        bitvec_set(&mut bits, 1, true);
        let values = config.selected_primary_input_values;
        let m = values.len();
        for k in 0..m
            invariant
                n == config.scratch_space,
                values == config.selected_primary_input_values,
                m == bits_of(*values).len(),
                m + 2 <= n,
                bits_of(bits).len() == n,
                bits_of(bits)[0] == false,
                bits_of(bits)[1] == true,
                forall|j: int| 0 <= j < k ==> #[trigger] bits_of(bits)[j + 2] == bits_of(*values)[j],
                forall|i: int| 2 + k <= i < n ==> !#[trigger] bits_of(bits)[i],
        {
            let v = values.get(k);
            bitvec_set(&mut bits, k + 2, v);
        }
        X86_64EvaluationInstance {
            gate_ctr: 0,
            and_ctr: 0,
            working_space,
            working_space_bits: bits,
        }
    }

    /// Number of gates evaluated so far; the hash of an AND gate is tweaked by it.
    pub fn gate_count(&self) -> (n: u64)
        ensures
            n == self.gates(),
    {
        self.gate_ctr
    }

    /// Evaluates an XOR gate for free: the output label is the XOR of the
    /// input labels, the output value the XOR of the input values.
    pub fn feed_xor_gate(&mut self, in1_addr: usize, in2_addr: usize, out_addr: usize)
        requires
            old(self).wf(),
            in1_addr < old(self).labels().len(),
            in2_addr < old(self).labels().len(),
            out_addr < old(self).labels().len(),
            old(self).gates() < u64::MAX,
        ensures
            final(self).wf(),
            final(self).labels() == old(self).labels().update(
                out_addr as int,
                final(self).labels()[out_addr as int],
            ),
            final(self).labels()[out_addr as int]@ == label_xor(
                old(self).labels()[in1_addr as int]@,
                old(self).labels()[in2_addr as int]@,
            ),
            final(self).values() == old(self).values().update(
                out_addr as int,
                old(self).values()[in1_addr as int] != old(self).values()[in2_addr as int],
            ),
            final(self).gates() == old(self).gates() + 1,
            final(self).and_gates() == old(self).and_gates(),
    {
        let in1 = self.working_space[in1_addr];
        let in2 = self.working_space[in2_addr];
        self.working_space.set(out_addr, xor_labels(&in1, &in2));
        let value = bitvec_get(&self.working_space_bits, in1_addr) != bitvec_get(
            &self.working_space_bits,
            in2_addr,
        );
        bitvec_set(&mut self.working_space_bits, out_addr, value);
        self.gate_ctr = self.gate_ctr + 1;
    }

    /// Evaluates an AND gate: the output label is [`and_gate_label`] of
    /// `in1_hash`, which is the scheme's tweakable hash of the first input's
    /// label under the tweak of [`Self::gate_count`]; the output value is the
    /// AND of the input values.
    pub fn feed_and_gate(
        &mut self,
        in1_addr: usize,
        in2_addr: usize,
        out_addr: usize,
        ciphertext: [u8; 16],
        in1_hash: [u8; 16],
    )
        requires
            old(self).wf(),
            in1_addr < old(self).labels().len(),
            in2_addr < old(self).labels().len(),
            out_addr < old(self).labels().len(),
            old(self).gates() < u64::MAX,
        ensures
            final(self).wf(),
            final(self).labels() == old(self).labels().update(
                out_addr as int,
                final(self).labels()[out_addr as int],
            ),
            final(self).labels()[out_addr as int]@ == and_gate_label(
                in1_hash@,
                old(self).values()[in1_addr as int],
                ciphertext@,
                old(self).labels()[in2_addr as int]@,
            ),
            final(self).values() == old(self).values().update(
                out_addr as int,
                old(self).values()[in1_addr as int] && old(self).values()[in2_addr as int],
            ),
            final(self).gates() == old(self).gates() + 1,
            final(self).and_gates() == old(self).and_gates() + 1,
    {
        let in2 = self.working_space[in2_addr];
        let permute_bit = bitvec_get(&self.working_space_bits, in1_addr);
        let mut out_label = in1_hash;
        if permute_bit {
            out_label = xor_labels(&out_label, &xor_labels(&ciphertext, &in2));
        }
        self.working_space.set(out_addr, out_label);
        let value = permute_bit && bitvec_get(&self.working_space_bits, in2_addr);
        bitvec_set(&mut self.working_space_bits, out_addr, value);
        self.gate_ctr = self.gate_ctr + 1;
        self.and_ctr = self.and_ctr + 1;
    }

    /// Copies the labels of the given wires into the front of `labels`.
    pub fn get_labels(&self, wires: &[u64], labels: &mut [[u8; 16]])
        requires
            wires@.len() <= old(labels)@.len(),
            forall|i: int| 0 <= i < wires@.len() ==> #[trigger] wires@[i] < self.labels().len(),
        ensures
            final(labels)@.len() == old(labels)@.len(),
            forall|i: int| 0 <= i < wires@.len() ==> #[trigger] final(labels)@[i] == self.labels()[wires@[i] as int],
            forall|i: int| wires@.len() <= i < old(labels)@.len() ==> #[trigger] final(labels)@[i] == old(labels)@[i],
    {
        let len = self.working_space.len();
        for i in 0..wires.len()
            invariant
                len == self.labels().len(),
                wires@.len() <= labels@.len(),
                labels@.len() == old(labels)@.len(),
                forall|j: int| 0 <= j < wires@.len() ==> #[trigger] wires@[j] < self.labels().len(),
                forall|j: int| 0 <= j < i ==> #[trigger] labels@[j] == self.labels()[wires@[j] as int],
                forall|j: int| i <= j < labels@.len() ==> #[trigger] labels@[j] == old(labels)@[j],
        {
            assert(wires@[i as int] < self.labels().len());
            let wire_id = wires[i] as usize;
            labels[i] = self.working_space[wire_id];
            assert(labels@[i as int] == self.labels()[wires@[i as int] as int]);
        }
    }

    /// Copies the values of the given wires into the front of `values`.
    pub fn get_values(&self, wires: &[u64], values: &mut [bool])
        requires
            self.wf(),
            wires@.len() <= old(values)@.len(),
            forall|i: int| 0 <= i < wires@.len() ==> #[trigger] wires@[i] < self.values().len(),
        ensures
            final(values)@.len() == old(values)@.len(),
            forall|i: int| 0 <= i < wires@.len() ==> #[trigger] final(values)@[i] == self.values()[wires@[i] as int],
            forall|i: int| wires@.len() <= i < old(values)@.len() ==> #[trigger] final(values)@[i] == old(values)@[i],
    {
        let len = bitvec_len(&self.working_space_bits);
        for i in 0..wires.len()
            invariant
                len == self.values().len(),
                wires@.len() <= values@.len(),
                values@.len() == old(values)@.len(),
                forall|j: int| 0 <= j < wires@.len() ==> #[trigger] wires@[j] < self.values().len(),
                forall|j: int| 0 <= j < i ==> #[trigger] values@[j] == self.values()[wires@[j] as int],
                forall|j: int| i <= j < values@.len() ==> #[trigger] values@[j] == old(values)@[j],
        {
            assert(wires@[i as int] < self.values().len());
            let wire_id = wires[i] as usize;
            values[i] = bitvec_get(&self.working_space_bits, wire_id);
            assert(values@[i as int] == self.values()[wires@[i as int] as int]);
        }
    }
}


/// Every slot holds the label that encodes its value, relative to the
/// garbler's false labels `false_labels` and offset `delta`.
pub open spec fn labels_active(
    labels: Seq<[u8; 16]>,
    values: Seq<bool>,
    false_labels: Seq<Seq<u8>>,
    delta: Seq<u8>,
) -> bool {
    &&& labels.len() == values.len()
    &&& false_labels.len() == labels.len()
    &&& delta.len() == 16
    &&& forall|i: int| 0 <= i < labels.len() ==> (#[trigger] false_labels[i]).len() == 16
    &&& forall|i: int|
        0 <= i < labels.len() ==> (#[trigger] labels[i])@ == label_for_bit(false_labels[i], delta, values[i])
}

/// Free XOR at the evaluator: when every slot holds the label of its value,
/// evaluating an XOR gate as [`X86_64EvaluationInstance::feed_xor_gate`] does
/// (output label the XOR of the input labels, output value the XOR of the
/// input values) leaves every slot holding the label of its value, where the
/// garbler's false label of the output is the XOR of the inputs' false labels.
pub proof fn lemma_xor_gate_keeps_labels_active(
    labels: Seq<[u8; 16]>,
    values: Seq<bool>,
    false_labels: Seq<Seq<u8>>,
    delta: Seq<u8>,
    in1: int,
    in2: int,
    out: int,
    out_label: [u8; 16],
)
    requires
        labels_active(labels, values, false_labels, delta),
        0 <= in1 < labels.len(),
        0 <= in2 < labels.len(),
        0 <= out < labels.len(),
        out_label@ == label_xor(labels[in1]@, labels[in2]@),
    ensures
        labels_active(
            labels.update(out, out_label),
            values.update(out, values[in1] != values[in2]),
            false_labels.update(out, label_xor(false_labels[in1], false_labels[in2])),
            delta,
        ),
{
    crate::labels::lemma_free_xor(false_labels[in1], false_labels[in2], delta, values[in1], values[in2]);
    let f = false_labels.update(out, label_xor(false_labels[in1], false_labels[in2]));
    assert(f[out].len() == 16);
}

/// The privacy-free half gate (ZRE15) on one AND gate. Let `h0` and `h1` be
/// the tweaked hashes of the first input's two labels (its false label and
/// its false label XOR `delta`), and let the garbler's ciphertext be
/// `h0 XOR h1 XOR f2`, with `f2` the second input's false label. The evaluator
/// holds the hash of the first input's active label (`h1` when the first value
/// is true, `h0` otherwise) and the second input's active label; the label it
/// computes by [`and_gate_label`] is the label that encodes the AND of the two
/// values on a wire whose false label is `h0`.
pub proof fn lemma_and_gate_label(
    f2: Seq<u8>,
    delta: Seq<u8>,
    h0: Seq<u8>,
    h1: Seq<u8>,
    v1: bool,
    v2: bool,
)
    requires
        f2.len() == 16,
        delta.len() == 16,
        h0.len() == 16,
        h1.len() == 16,
    ensures
        and_gate_label(
            if v1 { h1 } else { h0 },
            v1,
            label_xor(label_xor(h0, h1), f2),
            label_for_bit(f2, delta, v2),
        ) == label_for_bit(h0, delta, v1 && v2),
{
    let lhs = and_gate_label(
        if v1 { h1 } else { h0 },
        v1,
        label_xor(label_xor(h0, h1), f2),
        label_for_bit(f2, delta, v2),
    );
    let rhs = label_for_bit(h0, delta, v1 && v2);
    assert forall|i: int| 0 <= i < 16 implies #[trigger] lhs[i] == rhs[i] by {
        let (a, b, f, d) = (h0[i], h1[i], f2[i], delta[i]);
        assert(b ^ (((a ^ b) ^ f) ^ (f ^ d)) == a ^ d) by (bit_vector);
        assert(b ^ (((a ^ b) ^ f) ^ f) == a) by (bit_vector);
    }
    assert(lhs =~= rhs);
}

/// Half gates at the evaluator: when every slot holds the label of its value
/// and the ciphertext is the garbler's privacy-free half gate for the two
/// inputs (see [`lemma_and_gate_label`]), evaluating an AND gate as
/// [`X86_64EvaluationInstance::feed_and_gate`] does, given the hash of the
/// first input's active label, leaves every slot holding the label of its
/// value, where the garbler's false label of the output is `h0`.
pub proof fn lemma_and_gate_keeps_labels_active(
    labels: Seq<[u8; 16]>,
    values: Seq<bool>,
    false_labels: Seq<Seq<u8>>,
    delta: Seq<u8>,
    in1: int,
    in2: int,
    out: int,
    h0: Seq<u8>,
    h1: Seq<u8>,
    ciphertext: [u8; 16],
    out_label: [u8; 16],
)
    requires
        labels_active(labels, values, false_labels, delta),
        0 <= in1 < labels.len(),
        0 <= in2 < labels.len(),
        0 <= out < labels.len(),
        h0.len() == 16,
        h1.len() == 16,
        ciphertext@ == label_xor(label_xor(h0, h1), false_labels[in2]),
        out_label@ == and_gate_label(
            if values[in1] { h1 } else { h0 },
            values[in1],
            ciphertext@,
            labels[in2]@,
        ),
    ensures
        labels_active(
            labels.update(out, out_label),
            values.update(out, values[in1] && values[in2]),
            false_labels.update(out, h0),
            delta,
        ),
{
    lemma_and_gate_label(false_labels[in2], delta, h0, h1, values[in1], values[in2]);
}

} // verus!
