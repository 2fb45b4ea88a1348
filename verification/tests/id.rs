use work::id::{encode_base62, new_id};

#[test]
fn test_new_id_length() {
    let id = new_id();
    assert_eq!(id.len(), 22);
}

#[test]
fn test_new_id_uniqueness() {
    let id1 = new_id();
    let id2 = new_id();
    assert_ne!(id1, id2);
}

#[test]
fn test_new_id_chars() {
    let id = new_id();
    assert!(id.chars().all(|c| c.is_ascii_alphanumeric()));
}

#[test]
fn encode_zero_is_all_zero_digits() {
    assert_eq!(encode_base62(0), "0000000000000000000000");
}

#[test]
fn encode_small_values() {
    assert_eq!(encode_base62(61), "000000000000000000000z");
    assert_eq!(encode_base62(62), "0000000000000000000010");
    assert_eq!(encode_base62(10), "000000000000000000000A");
    assert_eq!(encode_base62(36), "000000000000000000000a");
}

#[test]
fn encode_largest_value() {
    assert_eq!(encode_base62(u128::MAX), "7n42DGM5Tflk9n8mt7Fhc7");
}

#[test]
fn encoding_preserves_order() {
    let values: [u128; 6] = [0, 1, 61, 62, 1 << 64, u128::MAX];
    for pair in values.windows(2) {
        assert!(encode_base62(pair[0]) < encode_base62(pair[1]));
    }
}

#[test]
fn ids_generated_in_order_ascend() {
    let mut previous = new_id();
    for _ in 0..200 {
        let next = new_id();
        assert!(previous < next);
        previous = next;
    }
}
