use garble_service::bits::Bits;
use garble_service::error::ServiceError;
use garble_service::labels::{random_labels, select_primary_input_labels, xor_label_if, xor_labels};
use rand_chacha::rand_core::SeedableRng;
use rand_chacha::ChaCha20Rng;

fn label(first: u8) -> [u8; 16] {
    let mut l = [0u8; 16];
    for (i, b) in l.iter_mut().enumerate() {
        *b = first.wrapping_add(i as u8);
    }
    l
}

#[test]
fn xor_label_if_false_keeps_the_label() {
    let l = label(7);
    assert_eq!(xor_label_if(l, &[0xff; 16], false), l);
}

#[test]
fn xor_label_if_true_xors_delta() {
    let l = [0x0f; 16];
    let d = [0xf0; 16];
    assert_eq!(xor_label_if(l, &d, true), [0xff; 16]);
    let mut d2 = [0u8; 16];
    d2[15] = 1;
    let mut expected = label(0);
    expected[15] ^= 1;
    assert_eq!(xor_label_if(label(0), &d2, true), expected);
}

#[test]
fn xor_labels_is_bytewise() {
    assert_eq!(xor_labels(&[0b1010; 16], &[0b0110; 16]), [0b1100; 16]);
}

#[test]
fn xoring_delta_twice_gives_the_label_back() {
    let l = label(3);
    let d = label(200);
    assert_eq!(xor_label_if(xor_label_if(l, &d, true), &d, true), l);
}

#[test]
fn free_xor_on_concrete_labels() {
    let (a, b, d) = (label(1), label(50), label(99));
    let la = xor_label_if(a, &d, true);
    let lb = xor_label_if(b, &d, false);
    assert_eq!(xor_labels(&la, &lb), xor_label_if(xor_labels(&a, &b), &d, true));
    let lb1 = xor_label_if(b, &d, true);
    assert_eq!(xor_labels(&la, &lb1), xor_labels(&a, &b));
}

#[test]
fn selects_labels_by_value() {
    let delta = [0x80; 16];
    let false_labels = vec![label(0), label(16), label(32)];
    let values = Bits::from_bools(&[true, false, true]);
    let selected = select_primary_input_labels(delta, &false_labels, &values).unwrap();
    assert_eq!(selected.len(), 3);
    assert_eq!(selected[0], xor_labels(&label(0), &delta));
    assert_eq!(selected[1], label(16));
    assert_eq!(selected[2], xor_labels(&label(32), &delta));
}

#[test]
fn selecting_nothing_gives_nothing() {
    let values = Bits::new();
    assert_eq!(select_primary_input_labels([1; 16], &[], &values), Ok(vec![]));
}

#[test]
fn select_rejects_length_mismatch() {
    let values = Bits::from_bools(&[true, false]);
    assert_eq!(
        select_primary_input_labels([0; 16], &[label(0)], &values),
        Err(ServiceError::PrimaryInputLengthMismatch { false_labels: 1, values: 2 })
    );
}

#[test]
fn random_labels_come_from_the_generator() {
    let mut rng1 = ChaCha20Rng::from_seed([0u8; 32]);
    let mut rng2 = ChaCha20Rng::from_seed([0u8; 32]);
    let a = random_labels(4, &mut rng1);
    let b = random_labels(4, &mut rng2);
    assert_eq!(a.len(), 4);
    assert_eq!(a, b);
    assert_ne!(a[0], a[1]);
    assert!(a.iter().any(|l| *l != [0u8; 16]));
}
