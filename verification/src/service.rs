//! What the garbling service checks and prepares before a circuit is run:
//! header-derived sizes, random labels for the garbler, and the instance
//! configurations of the three tasks.

use rand_chacha::ChaCha20Rng;
use vstd::prelude::*;

use crate::bits::{bits_of, Bits};
use crate::error::ServiceError;
use crate::labels::{random_label, random_labels};

verus! {

/// The sizes that a v5c circuit header announces and that the service reads.
#[derive(Debug, Clone, Copy, PartialEq, Eq, Structural)]
pub struct CircuitHeaderV5c {
    /// Number of primary input wires.
    pub primary_inputs: u64,
    /// Number of wire slots the circuit needs while it runs.
    pub scratch_space: u64,
    /// Number of AND gates, each of which has one 16-byte ciphertext.
    pub and_gates: u64,
}

/// Number of bytes of the ciphertext of one AND gate.
pub const CIPHERTEXT_BYTES: u64 = 16;

/// The header's primary-input count as a `usize`, or the error that it does not fit.
pub open spec fn spec_primary_inputs(h: CircuitHeaderV5c) -> Result<usize, ServiceError> {
    if h.primary_inputs > usize::MAX {
        Err(ServiceError::PrimaryInputsTooLarge(h.primary_inputs))
    } else {
        Ok(h.primary_inputs as usize)
    }
}

/// The header's scratch space as a `u32`, or the error that it does not fit.
pub open spec fn spec_scratch_space(h: CircuitHeaderV5c) -> Result<u32, ServiceError> {
    if h.scratch_space > u32::MAX {
        Err(ServiceError::ScratchSpaceTooLarge(h.scratch_space))
    } else {
        Ok(h.scratch_space as u32)
    }
}

fn primary_inputs_usize(h: &CircuitHeaderV5c) -> (r: Result<usize, ServiceError>)
    ensures
        r == spec_primary_inputs(*h),
{
    if h.primary_inputs <= usize::MAX as u64 {
        Ok(h.primary_inputs as usize)
    } else {
        Err(ServiceError::PrimaryInputsTooLarge(h.primary_inputs))
    }
}

fn scratch_space_u32(h: &CircuitHeaderV5c) -> (r: Result<u32, ServiceError>)
    ensures
        r == spec_scratch_space(*h),
{
    if h.scratch_space <= u32::MAX as u64 {
        Ok(h.scratch_space as u32)
    } else {
        Err(ServiceError::ScratchSpaceTooLarge(h.scratch_space))
    }
}

/// What the garbler starts from: the scratch space, the global offset and one
/// false label per primary input.
#[derive(Debug, Clone)]
pub struct GarblingInstanceConfig {
    pub scratch_space: u32,
    pub delta: [u8; 16],
    pub primary_input_false_labels: Vec<[u8; 16]>,
}

impl GarblingInstanceConfig {
    /// The configuration built from labels drawn one after another: all draws
    /// but the last are the primary inputs' false labels, in the order drawn,
    /// and the last draw is the offset `delta`.
    pub fn from_draws(scratch_space: u32, draws: Vec<[u8; 16]>) -> (c: Self)
        requires
            draws@.len() >= 1,
        ensures
            c.scratch_space == scratch_space,
            c.primary_input_false_labels@ == draws@.drop_last(),
            c.delta == draws@.last(),
    {
        let mut labels = draws;
        let delta = labels.pop().unwrap();
        GarblingInstanceConfig { scratch_space, delta, primary_input_false_labels: labels }
    }
}

/// The garbler's configuration with labels drawn from `rng`: one false label
/// per primary input, in the order drawn, and then `delta`.
fn draw_garbling_config(primary_inputs: usize, scratch_space: u32, rng: &mut ChaCha20Rng) -> (c:
    GarblingInstanceConfig)
    ensures
        c.scratch_space == scratch_space,
        c.primary_input_false_labels@.len() == primary_inputs,
{
    let mut draws = random_labels(primary_inputs, rng);
    draws.push(random_label(rng));
    GarblingInstanceConfig::from_draws(scratch_space, draws)
}

/// Prepares garbling: checks that the header's primary-input count fits in
/// `usize` and its scratch space in `u32`, then draws one false label per
/// primary input and after them the offset `delta` from `rng`. On an error
/// nothing is drawn.
pub fn garble_v5c_config(header: &CircuitHeaderV5c, rng: &mut ChaCha20Rng) -> (r: Result<
    GarblingInstanceConfig,
    ServiceError,
>)
    ensures
        spec_primary_inputs(*header) matches Err(e) ==> r == Err::<GarblingInstanceConfig, ServiceError>(e),
        spec_primary_inputs(*header) is Ok ==> (spec_scratch_space(*header) matches Err(e) ==> r
            == Err::<GarblingInstanceConfig, ServiceError>(e)),
        r is Err ==> *final(rng) == *old(rng),
        spec_primary_inputs(*header) is Ok && spec_scratch_space(*header) is Ok ==> r is Ok,
        r matches Ok(c) ==> {
            &&& c.scratch_space == header.scratch_space
            &&& c.primary_input_false_labels@.len() == header.primary_inputs
        },
{
    let primary_inputs = primary_inputs_usize(header)?;
    let scratch_space = scratch_space_u32(header)?;
    Ok(draw_garbling_config(primary_inputs, scratch_space, rng))
}

/// Prepares garbling the way the end-to-end test driver does: one false label
/// per primary input and then `delta` drawn from `rng`, with the scratch space
/// cut down to its low 32 bits and no check on either size.
pub fn garble_test_config(header: &CircuitHeaderV5c, rng: &mut ChaCha20Rng) -> (c:
    GarblingInstanceConfig)
    requires
        header.primary_inputs <= usize::MAX,
    ensures
        c.scratch_space == header.scratch_space as u32,
        c.primary_input_false_labels@.len() == header.primary_inputs,
{
    draw_garbling_config(header.primary_inputs as usize, header.scratch_space as u32, rng)
}

/// The wire ids of the primary inputs: `2, 3, ..., primary_inputs + 1`
/// (wires 0 and 1 carry the constants).
pub fn primary_input_wires(primary_inputs: u64) -> (wires: Vec<u64>)
    requires
        primary_inputs < u64::MAX,
        primary_inputs <= usize::MAX,
    ensures
        wires@.len() == primary_inputs,
        forall|i: int| 0 <= i < wires@.len() ==> #[trigger] wires@[i] == i + 2,
{
    let n = primary_inputs as usize;
    let mut wires: Vec<u64> = Vec::with_capacity(n);
    for i in 0..n
        invariant
            n == primary_inputs,
            primary_inputs < u64::MAX,
            wires@.len() == i,
            forall|k: int| 0 <= k < wires@.len() ==> #[trigger] wires@[k] == k + 2,
    {
        wires.push(i as u64 + 2);
    }
    wires
}

/// What a finished garbling hands back: the offset, the false labels of the
/// primary inputs, and the garbler's labels of the output wires.
#[derive(Debug, Clone)]
pub struct GarbledCircuitArtifacts {
    pub delta: [u8; 16],
    pub primary_input_false_labels: Vec<[u8; 16]>,
    pub garbler_output_labels: Vec<[u8; 16]>,
}

/// What the evaluator starts from.
pub struct EvaluationInstanceConfig<'a> {
    pub scratch_space: u32,
    pub selected_primary_input_labels: &'a [[u8; 16]],
    pub selected_primary_input_values: &'a Bits,
}

/// The checks made before evaluation, in order: the primary-input count fits
/// in `usize`; there is one label and one value per primary input; sixteen
/// bytes per AND gate fits in `usize` and is the ciphertext length; the
/// scratch space fits in `u32`, which is then the result.
pub open spec fn spec_eval_check(
    h: CircuitHeaderV5c,
    labels: nat,
    values: nat,
    ciphertext_bytes: nat,
) -> Result<u32, ServiceError> {
    match spec_primary_inputs(h) {
        Err(e) => Err(e),
        Ok(n) => if labels != n {
            Err(ServiceError::LabelCountMismatch { got: labels as usize, expected: n })
        } else if values != n {
            Err(ServiceError::ValueCountMismatch { got: values as usize, expected: n })
        } else if h.and_gates * 16 > usize::MAX {
            Err(ServiceError::CiphertextSizeOverflow(h.and_gates))
        } else if ciphertext_bytes != h.and_gates * 16 {
            Err(
                ServiceError::CiphertextLengthMismatch {
                    got: ciphertext_bytes as usize,
                    expected: (h.and_gates * 16) as usize,
                    and_gates: h.and_gates,
                },
            )
        } else {
            spec_scratch_space(h)
        },
    }
}

/// An evaluation request is accepted only with one label and one value per
/// primary input and exactly sixteen bytes of ciphertext per AND gate, and
/// then the evaluator's scratch space is the header's.
pub proof fn lemma_eval_check_accepts_exact_sizes(
    h: CircuitHeaderV5c,
    labels: nat,
    values: nat,
    ciphertext_bytes: nat,
)
    requires
        spec_eval_check(h, labels, values, ciphertext_bytes) is Ok,
    ensures
        labels == h.primary_inputs,
        values == h.primary_inputs,
        ciphertext_bytes == h.and_gates * 16,
        spec_eval_check(h, labels, values, ciphertext_bytes)->Ok_0 == h.scratch_space,
{
}

/// Checks an evaluation request against the circuit header (see
/// [`spec_eval_check`]) and builds the evaluator's configuration from it.
pub fn eval_v5c_config<'a>(
    header: &CircuitHeaderV5c,
    ciphertexts: &[u8],
    selected_primary_input_labels: &'a [[u8; 16]],
    selected_primary_input_values: &'a Bits,
) -> (r: Result<EvaluationInstanceConfig<'a>, ServiceError>)
    ensures
        spec_eval_check(
            *header,
            selected_primary_input_labels@.len(),
            bits_of(*selected_primary_input_values).len(),
            ciphertexts@.len(),
        ) matches Err(e) ==> r matches Err(e2) && e2 == e,
        spec_eval_check(
            *header,
            selected_primary_input_labels@.len(),
            bits_of(*selected_primary_input_values).len(),
            ciphertexts@.len(),
        ) matches Ok(s) ==> r matches Ok(c) && c.scratch_space == s
            && c.selected_primary_input_labels == selected_primary_input_labels
            && c.selected_primary_input_values == selected_primary_input_values,
        r matches Ok(c) ==> {
            &&& ciphertexts@.len() == header.and_gates * 16
            &&& selected_primary_input_labels@.len() == header.primary_inputs
            &&& bits_of(*selected_primary_input_values).len() == header.primary_inputs
            &&& c.scratch_space == header.scratch_space
        },
{
    let primary_inputs = primary_inputs_usize(header)?;
    if selected_primary_input_labels.len() != primary_inputs {
        return Err(
            ServiceError::LabelCountMismatch {
                got: selected_primary_input_labels.len(),
                expected: primary_inputs,
            },
        );
    }
    let values = selected_primary_input_values.len();
    if values != primary_inputs {
        return Err(ServiceError::ValueCountMismatch { got: values, expected: primary_inputs });
    }
    if header.and_gates > (usize::MAX as u64) / CIPHERTEXT_BYTES {
        return Err(ServiceError::CiphertextSizeOverflow(header.and_gates));
    }
    let expected = (header.and_gates * CIPHERTEXT_BYTES) as usize;
    if ciphertexts.len() != expected {
        return Err(
            ServiceError::CiphertextLengthMismatch {
                got: ciphertexts.len(),
                expected,
                and_gates: header.and_gates,
            },
        );
    }
    let scratch_space = scratch_space_u32(header)?;
    Ok(EvaluationInstanceConfig {
        scratch_space,
        selected_primary_input_labels,
        selected_primary_input_values,
    })
}

/// What plain execution of the circuit starts from.
pub struct ExecutionInstanceConfig<'a> {
    pub scratch_space: u32,
    pub input_values: &'a Bits,
}

/// The checks made before plain execution, in order: the primary-input count
/// fits in `usize`; there is one value per primary input; the scratch space
/// fits in `u32`, which is then the result.
pub open spec fn spec_exec_check(h: CircuitHeaderV5c, values: nat) -> Result<u32, ServiceError> {
    match spec_primary_inputs(h) {
        Err(e) => Err(e),
        Ok(n) => if values != n {
            Err(ServiceError::ValueCountMismatch { got: values as usize, expected: n })
        } else {
            spec_scratch_space(h)
        },
    }
}

/// A plain-execution request is accepted only with one value per primary
/// input, and then the scratch space is the header's.
pub proof fn lemma_exec_check_accepts_exact_sizes(h: CircuitHeaderV5c, values: nat)
    requires
        spec_exec_check(h, values) is Ok,
    ensures
        values == h.primary_inputs,
        spec_exec_check(h, values)->Ok_0 == h.scratch_space,
{
}

/// Checks a plain-execution request against the circuit header (see
/// [`spec_exec_check`]) and builds the configuration from it.
pub fn exec_v5c_config<'a>(header: &CircuitHeaderV5c, input_values: &'a Bits) -> (r: Result<
    ExecutionInstanceConfig<'a>,
    ServiceError,
>)
    ensures
        spec_exec_check(*header, bits_of(*input_values).len()) matches Err(e) ==> r matches Err(e2)
            && e2 == e,
        spec_exec_check(*header, bits_of(*input_values).len()) matches Ok(s) ==> r matches Ok(c)
            && c.scratch_space == s && c.input_values == input_values,
        r matches Ok(c) ==> bits_of(*input_values).len() == header.primary_inputs
            && c.scratch_space == header.scratch_space,
{
    let primary_inputs = primary_inputs_usize(header)?;
    let values = input_values.len();
    if values != primary_inputs {
        return Err(ServiceError::ValueCountMismatch { got: values, expected: primary_inputs });
    }
    let scratch_space = scratch_space_u32(header)?;
    Ok(ExecutionInstanceConfig { scratch_space, input_values })
}

} // verus!
