//! Wire labels of free-XOR garbling: 16-byte strings, combined bytewise by XOR.

use rand_chacha::rand_core::RngCore;
use rand_chacha::ChaCha20Rng;
use vstd::prelude::*;

use crate::bits::{bits_of, Bits};
use crate::error::ServiceError;

verus! {

/// Number of bytes in a wire label.
pub const LABEL_BYTES: usize = 16;

/// The all-zero label.
pub open spec fn zero_label() -> Seq<u8> {
    Seq::new(16, |i: int| 0u8)
}

/// Bytewise XOR of two labels.
pub open spec fn label_xor(a: Seq<u8>, b: Seq<u8>) -> Seq<u8> {
    Seq::new(16, |i: int| a[i] ^ b[i])
}

/// The label that encodes bit `bit` on a wire whose false label is `label`,
/// under the global offset `delta`: the false label itself, or the false label
/// XOR `delta`.
pub open spec fn label_for_bit(label: Seq<u8>, delta: Seq<u8>, bit: bool) -> Seq<u8> {
    if bit {
        label_xor(label, delta)
    } else {
        label
    }
}

/// Bytewise XOR of two labels.
pub fn xor_labels(a: &[u8; 16], b: &[u8; 16]) -> (r: [u8; 16])
    ensures
        r@ == label_xor(a@, b@),
{
    let mut out = *a;
    for i in 0..LABEL_BYTES
        invariant
            out@.len() == 16,
            forall|j: int| 0 <= j < i ==> out@[j] == a@[j] ^ b@[j],
            forall|j: int| i <= j < 16 ==> out@[j] == a@[j],
    {
        out[i] = out[i] ^ b[i];
    }
    assert(out@ == label_xor(a@, b@));
    out
}

/// XORs `delta` into `label` when `cond` holds, and gives `label` back
/// unchanged otherwise.
pub fn xor_label_if(label: [u8; 16], delta: &[u8; 16], cond: bool) -> (r: [u8; 16])
    ensures
        r@ == label_for_bit(label@, delta@, cond),
{
    if !cond {
        return label;
    }
    xor_labels(&label, delta)
}

/// The active label of each primary input: input `i` gets its false label when
/// its value is false and its false label XOR `delta` when its value is true.
pub open spec fn spec_selected_labels(
    delta: Seq<u8>,
    false_labels: Seq<[u8; 16]>,
    values: Seq<bool>,
) -> Seq<Seq<u8>> {
    Seq::new(false_labels.len(), |i: int| label_for_bit(false_labels[i]@, delta, values[i]))
}

/// Input `i`'s selected label depends on value `i` only: it differs from input
/// `i`'s false label by exactly `delta` when value `i` is true and by nothing
/// when it is false.
pub proof fn lemma_selected_label_encodes_its_value(
    delta: Seq<u8>,
    false_labels: Seq<[u8; 16]>,
    values: Seq<bool>,
    i: int,
)
    requires
        delta.len() == 16,
        false_labels.len() == values.len(),
        0 <= i < false_labels.len(),
    ensures
        spec_selected_labels(delta, false_labels, values).len() == false_labels.len(),
        label_xor(spec_selected_labels(delta, false_labels, values)[i], false_labels[i]@) == (if values[i] {
            delta
        } else {
            zero_label()
        }),
{
    lemma_label_offset(false_labels[i]@, delta, values[i]);
}

/// The labels handed to the evaluator for the chosen primary input values.
/// Fails, naming both lengths, when there is not exactly one value per false
/// label.
pub fn select_primary_input_labels(
    delta: [u8; 16],
    primary_input_false_labels: &[[u8; 16]],
    selected_primary_input_values: &Bits,
) -> (r: Result<Vec<[u8; 16]>, ServiceError>)
    ensures
        primary_input_false_labels@.len() != bits_of(*selected_primary_input_values).len() ==> r
            == Err::<Vec<[u8; 16]>, ServiceError>(
            ServiceError::PrimaryInputLengthMismatch {
                false_labels: primary_input_false_labels@.len() as usize,
                values: bits_of(*selected_primary_input_values).len() as usize,
            },
        ),
        primary_input_false_labels@.len() == bits_of(*selected_primary_input_values).len() ==> r
            is Ok,
        r matches Ok(labels) ==> labels@.map_values(|l: [u8; 16]| l@) == spec_selected_labels(
            delta@,
            primary_input_false_labels@,
            bits_of(*selected_primary_input_values),
        ),
        r matches Ok(labels) ==> labels@.len() == primary_input_false_labels@.len() && forall|i: int|
            0 <= i < labels@.len() ==> #[trigger] label_xor(labels@[i]@, primary_input_false_labels@[i]@)
                == (if bits_of(*selected_primary_input_values)[i] {
                delta@
            } else {
                zero_label()
            }),
{
    let n = primary_input_false_labels.len();
    let m = selected_primary_input_values.len();
    if n != m {
        return Err(ServiceError::PrimaryInputLengthMismatch { false_labels: n, values: m });
    }
    let mut labels: Vec<[u8; 16]> = Vec::with_capacity(n);
    for i in 0..n
        invariant
            n == primary_input_false_labels@.len(),
            n == bits_of(*selected_primary_input_values).len(),
            labels@.len() == i,
            forall|j: int|
                0 <= j < i ==> #[trigger] labels@[j]@ == label_for_bit(
                    primary_input_false_labels@[j]@,
                    delta@,
                    bits_of(*selected_primary_input_values)[j],
                ),
    {
        let value = selected_primary_input_values.get(i);
        labels.push(xor_label_if(primary_input_false_labels[i], &delta, value));
    }
    proof {
        assert forall|i: int| 0 <= i < labels@.len() implies #[trigger] label_xor(
            labels@[i]@,
            primary_input_false_labels@[i]@,
        ) == (if bits_of(*selected_primary_input_values)[i] {
            delta@
        } else {
            zero_label()
        }) by {
            lemma_label_offset(
                primary_input_false_labels@[i]@,
                delta@,
                bits_of(*selected_primary_input_values)[i],
            );
        }
    }
    assert(labels@.map_values(|l: [u8; 16]| l@) =~= spec_selected_labels(
        delta@,
        primary_input_false_labels@,
        bits_of(*selected_primary_input_values),
    ));
    Ok(labels)
}

/// Free-XOR: on two wires whose false labels are `a` and `b`, XORing the
/// label that encodes `x` on the first with the label that encodes `y` on the
/// second gives the label that encodes `x XOR y` on a wire whose false label
/// is `a XOR b`.
pub proof fn lemma_free_xor(a: Seq<u8>, b: Seq<u8>, delta: Seq<u8>, x: bool, y: bool)
    requires
        a.len() == 16,
        b.len() == 16,
        delta.len() == 16,
    ensures
        label_xor(label_for_bit(a, delta, x), label_for_bit(b, delta, y)) == label_for_bit(
            label_xor(a, b),
            delta,
            x != y,
        ),
{
    assert forall|i: int| 0 <= i < 16 implies #[trigger] label_xor(
        label_for_bit(a, delta, x),
        label_for_bit(b, delta, y),
    )[i] == label_for_bit(label_xor(a, b), delta, x != y)[i] by {
        let (ai, bi, di) = (a[i], b[i], delta[i]);
        assert((ai ^ di) ^ (bi ^ di) == ai ^ bi) by (bit_vector);
        assert((ai ^ di) ^ bi == (ai ^ bi) ^ di) by (bit_vector);
        assert(ai ^ (bi ^ di) == (ai ^ bi) ^ di) by (bit_vector);
    }
    assert(label_xor(label_for_bit(a, delta, x), label_for_bit(b, delta, y)) =~= label_for_bit(
        label_xor(a, b),
        delta,
        x != y,
    ));
}

/// The label that encodes a bit differs from the wire's false label by exactly
/// `delta` when the bit is true and by nothing when it is false; so XORing
/// `delta` in twice gives the false label back.
pub proof fn lemma_label_offset(label: Seq<u8>, delta: Seq<u8>, bit: bool)
    requires
        label.len() == 16,
        delta.len() == 16,
    ensures
        label_xor(label_for_bit(label, delta, bit), label) == (if bit {
            delta
        } else {
            zero_label()
        }),
        label_for_bit(label_for_bit(label, delta, true), delta, true) == label,
{
    assert forall|i: int| 0 <= i < 16 implies #[trigger] label_xor(
        label_for_bit(label, delta, bit),
        label,
    )[i] == (if bit {
        delta
    } else {
        Seq::new(16, |i: int| 0u8)
    })[i] by {
        let (li, di) = (label[i], delta[i]);
        assert((li ^ di) ^ li == di) by (bit_vector);
        assert(li ^ li == 0) by (bit_vector);
    }
    assert(label_xor(label_for_bit(label, delta, bit), label) =~= (if bit {
        delta
    } else {
        Seq::new(16, |i: int| 0u8)
    }));
    assert forall|i: int| 0 <= i < 16 implies #[trigger] label_for_bit(
        label_for_bit(label, delta, true),
        delta,
        true,
    )[i] == label[i] by {
        let (li, di) = (label[i], delta[i]);
        assert((li ^ di) ^ di == li) by (bit_vector);
    }
    assert(label_for_bit(label_for_bit(label, delta, true), delta, true) =~= label);
}

#[verifier::external_type_specification]
#[verifier::external_body]
pub struct ExChaCha20Rng(ChaCha20Rng);

/// Fills a fresh 16-byte label from the generator with rand_core's
/// `RngCore::fill_bytes` on `ChaCha20Rng`. The bytes are the generator's next
/// output and its state moves on; nothing is stated of either.
#[verifier::external_body]
pub(crate) fn random_label(rng: &mut ChaCha20Rng) -> (label: [u8; 16]) {
    let mut label = [0u8; 16];
    rng.fill_bytes(&mut label);
    label
}

/// `n` labels drawn one after another from `rng`, in the order drawn.
pub fn random_labels(n: usize, rng: &mut ChaCha20Rng) -> (labels: Vec<[u8; 16]>)
    ensures
        labels@.len() == n,
{
    let mut labels: Vec<[u8; 16]> = Vec::new();
    for i in 0..n
        invariant
            labels@.len() == i,
    {
        labels.push(random_label(rng));
    }
    labels
}

} // verus!
