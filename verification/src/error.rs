//! Errors of the garbling service.

use vstd::prelude::*;

verus! {

/// Why a garbling, evaluation or execution request was refused.
#[derive(Debug, Clone, Copy, PartialEq, Eq, Structural)]
pub enum ServiceError {
    /// There is not one primary input value per false label.
    PrimaryInputLengthMismatch { false_labels: usize, values: usize },
    /// The circuit's number of primary inputs does not fit in `usize`.
    PrimaryInputsTooLarge(u64),
    /// The circuit's scratch space does not fit in `u32`.
    ScratchSpaceTooLarge(u64),
    /// The number of selected labels is not the circuit's number of primary inputs.
    LabelCountMismatch { got: usize, expected: usize },
    /// The number of input values is not the circuit's number of primary inputs.
    ValueCountMismatch { got: usize, expected: usize },
    /// Sixteen bytes per AND gate does not fit in `usize`; holds the AND-gate count.
    CiphertextSizeOverflow(u64),
    /// The ciphertext stream is not sixteen bytes per AND gate.
    CiphertextLengthMismatch { got: usize, expected: usize, and_gates: u64 },
}

} // verus!
