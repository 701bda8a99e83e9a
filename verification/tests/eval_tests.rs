use garble_service::bits::Bits;
use garble_service::eval::X86_64EvaluationInstance;
use garble_service::labels::xor_labels;
use garble_service::service::EvaluationInstanceConfig;

fn label(b: u8) -> [u8; 16] {
    [b; 16]
}

fn instance(values: &Bits, labels: &[[u8; 16]], scratch: u32) -> X86_64EvaluationInstance {
    let config = EvaluationInstanceConfig {
        scratch_space: scratch,
        selected_primary_input_labels: labels,
        selected_primary_input_values: values,
    };
    X86_64EvaluationInstance::new(config, label(0), label(1))
}

#[test]
fn new_places_constants_and_inputs() {
    let values = Bits::from_bools(&[true, false]);
    let labels = [label(0x21), label(0x22)];
    let inst = instance(&values, &labels, 6);
    let mut out = [[0xaa; 16]; 6];
    inst.get_labels(&[0, 1, 2, 3, 4, 5], &mut out);
    assert_eq!(out, [label(0), label(1), label(0x21), label(0x22), [0; 16], [0; 16]]);
    let mut vals = [true; 6];
    inst.get_values(&[0, 1, 2, 3, 4, 5], &mut vals);
    assert_eq!(vals, [false, true, true, false, false, false]);
    assert_eq!(inst.gate_count(), 0);
}

#[test]
fn xor_gate_xors_labels_and_values() {
    let values = Bits::from_bools(&[true, true]);
    let labels = [label(0x0f), label(0xf3)];
    let mut inst = instance(&values, &labels, 5);
    inst.feed_xor_gate(2, 3, 4);
    let mut out = [[0; 16]; 1];
    inst.get_labels(&[4], &mut out);
    assert_eq!(out[0], label(0xfc));
    let mut v = [true; 1];
    inst.get_values(&[4], &mut v);
    assert!(!v[0]);
    assert_eq!(inst.gate_count(), 1);
}

#[test]
fn and_gate_with_false_first_input_takes_the_hash() {
    let values = Bits::from_bools(&[false, true]);
    let labels = [label(3), label(5)];
    let mut inst = instance(&values, &labels, 5);
    inst.feed_and_gate(2, 3, 4, label(0x40), label(0x99));
    let mut out = [[0; 16]; 1];
    inst.get_labels(&[4], &mut out);
    assert_eq!(out[0], label(0x99));
    let mut v = [true; 1];
    inst.get_values(&[4], &mut v);
    assert!(!v[0]);
    assert_eq!(inst.gate_count(), 1);
}

#[test]
fn and_gate_with_true_first_input_folds_in_ciphertext_and_second_label() {
    let values = Bits::from_bools(&[true, true]);
    let labels = [label(3), label(5)];
    let mut inst = instance(&values, &labels, 5);
    inst.feed_and_gate(2, 3, 4, label(0x40), label(0x99));
    let mut out = [[0; 16]; 2];
    inst.get_labels(&[4, 3], &mut out);
    assert_eq!(out[0], xor_labels(&label(0x99), &xor_labels(&label(0x40), &label(5))));
    assert_eq!(out[1], label(5));
    let mut v = [false; 1];
    inst.get_values(&[4], &mut v);
    assert!(v[0]);
}

#[test]
fn get_labels_leaves_the_rest_of_the_buffer() {
    let values = Bits::new();
    let inst = instance(&values, &[], 2);
    let mut out = [[7; 16]; 3];
    inst.get_labels(&[1], &mut out);
    assert_eq!(out, [label(1), [7; 16], [7; 16]]);
}

#[test]
fn xor_gates_are_counted_before_an_and_gate() {
    let values = Bits::from_bools(&[true, false]);
    let labels = [label(3), label(5)];
    let mut inst = instance(&values, &labels, 6);
    inst.feed_xor_gate(2, 3, 4);
    assert_eq!(inst.gate_count(), 1);
    inst.feed_and_gate(4, 2, 5, label(0x40), label(0x99));
    assert_eq!(inst.gate_count(), 2);
}
