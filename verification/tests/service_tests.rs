use garble_service::bits::Bits;
use garble_service::error::ServiceError;
use garble_service::service::{
    eval_v5c_config, exec_v5c_config, garble_test_config, garble_v5c_config, primary_input_wires,
    CircuitHeaderV5c, GarblingInstanceConfig,
};
use rand_chacha::rand_core::{RngCore, SeedableRng};
use rand_chacha::ChaCha20Rng;

fn header(primary_inputs: u64, scratch_space: u64, and_gates: u64) -> CircuitHeaderV5c {
    CircuitHeaderV5c { primary_inputs, scratch_space, and_gates }
}

#[test]
fn garble_config_draws_labels_then_delta() {
    let mut rng = ChaCha20Rng::from_seed([7u8; 32]);
    let config = garble_v5c_config(&header(3, 40, 5), &mut rng).unwrap();
    assert_eq!(config.scratch_space, 40);
    assert_eq!(config.primary_input_false_labels.len(), 3);

    let mut reference = ChaCha20Rng::from_seed([7u8; 32]);
    let mut expected = [[0u8; 16]; 4];
    for l in expected.iter_mut() {
        reference.fill_bytes(l);
    }
    assert_eq!(config.primary_input_false_labels, expected[..3].to_vec());
    assert_eq!(config.delta, expected[3]);
}

#[test]
fn garble_config_rejects_large_scratch_space() {
    let mut rng = ChaCha20Rng::from_seed([1u8; 32]);
    let before = rng.clone();
    let r = garble_v5c_config(&header(2, 1u64 << 32, 0), &mut rng);
    assert_eq!(r.unwrap_err(), ServiceError::ScratchSpaceTooLarge(1u64 << 32));
    assert_eq!(rng, before);
}

#[test]
fn garble_test_config_truncates_scratch_space() {
    let mut rng = ChaCha20Rng::from_seed([2u8; 32]);
    let config = garble_test_config(&header(2, (1u64 << 32) + 5, 0), &mut rng);
    assert_eq!(config.scratch_space, 5);
    assert_eq!(config.primary_input_false_labels.len(), 2);
}

#[test]
fn primary_input_wires_start_at_two() {
    assert_eq!(primary_input_wires(3), vec![2, 3, 4]);
    assert_eq!(primary_input_wires(0), Vec::<u64>::new());
}

#[test]
fn eval_config_accepts_a_matching_request() {
    let labels = vec![[0u8; 16]; 2];
    let values = Bits::from_bools(&[true, false]);
    let ciphertexts = vec![0u8; 3 * 16];
    let config = eval_v5c_config(&header(2, 10, 3), &ciphertexts, &labels, &values).ok().unwrap();
    assert_eq!(config.scratch_space, 10);
    assert_eq!(config.selected_primary_input_labels.len(), 2);
}

#[test]
fn eval_config_rejects_label_count() {
    let labels = vec![[0u8; 16]; 1];
    let values = Bits::from_bools(&[true, false]);
    let r = eval_v5c_config(&header(2, 10, 0), &[], &labels, &values);
    assert_eq!(r.err(), Some(ServiceError::LabelCountMismatch { got: 1, expected: 2 }));
}

#[test]
fn eval_config_rejects_value_count() {
    let labels = vec![[0u8; 16]; 2];
    let values = Bits::from_bools(&[true]);
    let r = eval_v5c_config(&header(2, 10, 0), &[], &labels, &values);
    assert_eq!(r.err(), Some(ServiceError::ValueCountMismatch { got: 1, expected: 2 }));
}

#[test]
fn eval_config_rejects_ciphertext_length() {
    let labels = vec![[0u8; 16]; 1];
    let values = Bits::from_bools(&[true]);
    let r = eval_v5c_config(&header(1, 10, 2), &[0u8; 31], &labels, &values);
    assert_eq!(
        r.err(),
        Some(ServiceError::CiphertextLengthMismatch { got: 31, expected: 32, and_gates: 2 })
    );
}

#[test]
fn eval_config_rejects_ciphertext_size_overflow() {
    let labels: Vec<[u8; 16]> = vec![];
    let values = Bits::new();
    let and_gates = (usize::MAX as u64) / 16 + 1;
    let r = eval_v5c_config(&header(0, 10, and_gates), &[], &labels, &values);
    assert_eq!(r.err(), Some(ServiceError::CiphertextSizeOverflow(and_gates)));
}

#[test]
fn eval_config_rejects_large_scratch_space() {
    let labels: Vec<[u8; 16]> = vec![];
    let values = Bits::new();
    let r = eval_v5c_config(&header(0, u64::MAX, 0), &[], &labels, &values);
    assert_eq!(r.err(), Some(ServiceError::ScratchSpaceTooLarge(u64::MAX)));
}

#[test]
fn eval_config_checks_counts_before_ciphertexts() {
    let labels = vec![[0u8; 16]; 3];
    let values = Bits::new();
    let r = eval_v5c_config(&header(2, u64::MAX, 1), &[], &labels, &values);
    assert_eq!(r.err(), Some(ServiceError::LabelCountMismatch { got: 3, expected: 2 }));
}

#[test]
fn exec_config_accepts_a_matching_request() {
    let values = Bits::from_bools(&[true, true, false]);
    let config = exec_v5c_config(&header(3, 12, 9), &values).ok().unwrap();
    assert_eq!(config.scratch_space, 12);
    assert_eq!(config.input_values.len(), 3);
}

#[test]
fn exec_config_rejects_value_count() {
    let values = Bits::from_bools(&[true]);
    let r = exec_v5c_config(&header(3, 12, 9), &values);
    assert_eq!(r.err(), Some(ServiceError::ValueCountMismatch { got: 1, expected: 3 }));
}

#[test]
fn exec_config_rejects_large_scratch_space() {
    let values = Bits::new();
    let r = exec_v5c_config(&header(0, 1u64 << 40, 9), &values);
    assert_eq!(r.err(), Some(ServiceError::ScratchSpaceTooLarge(1u64 << 40)));
}

#[test]
fn config_from_draws_takes_delta_last() {
    let c = GarblingInstanceConfig::from_draws(9, vec![[1; 16], [2; 16], [3; 16]]);
    assert_eq!(c.scratch_space, 9);
    assert_eq!(c.primary_input_false_labels, vec![[1; 16], [2; 16]]);
    assert_eq!(c.delta, [3; 16]);
    let only_delta = GarblingInstanceConfig::from_draws(2, vec![[7; 16]]);
    assert!(only_delta.primary_input_false_labels.is_empty());
    assert_eq!(only_delta.delta, [7; 16]);
}
