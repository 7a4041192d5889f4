use minimal_compute::layout::{decode, encode, ELEMENT_SIZE};

fn host_bytes(values: &[u32]) -> Vec<u8> {
    let mut bytes = Vec::new();
    for value in values {
        bytes.extend_from_slice(&value.to_ne_bytes());
    }
    bytes
}

#[test]
fn encode_lays_out_four_bytes_per_value_in_host_order() {
    let values = [0x0102_0304u32, 0xAABB_CCDD];
    let bytes = encode(&values);
    assert_eq!(bytes.len(), 8);
    assert_eq!(bytes, host_bytes(&values));
}

#[test]
fn encode_is_little_or_big_endian() {
    let bytes = encode(&[0x0102_0304u32]);
    let little = vec![0x04u8, 0x03, 0x02, 0x01];
    let big = vec![0x01u8, 0x02, 0x03, 0x04];
    assert!(bytes == little || bytes == big);
}

#[test]
fn encode_of_float_bits_is_the_memory_of_the_floats() {
    let floats = [1.0f32, 2.0];
    let bits = [floats[0].to_bits(), floats[1].to_bits()];
    let expected: &[u8] = bytemuck::cast_slice(&floats);
    assert_eq!(encode(&bits), expected.to_vec());
    assert_eq!(bytemuck::bytes_of(&floats), &encode(&bits)[..]);
}

#[test]
fn encode_of_nothing_is_empty() {
    assert_eq!(encode(&[]), Vec::<u8>::new());
}

#[test]
fn decode_reads_values_in_host_order() {
    let bytes = host_bytes(&[7, 0xDEAD_BEEF, u32::MAX]);
    assert_eq!(decode(&bytes), Some(vec![7, 0xDEAD_BEEF, u32::MAX]));
}

#[test]
fn decode_differs_from_its_argument() {
    let one = 1u32.to_ne_bytes();
    assert_eq!(decode(&one), Some(vec![1u32]));
    assert_eq!(decode(&[0, 0, 0, 0, 0, 0, 0, 0]), Some(vec![0u32, 0]));
}

#[test]
fn decode_refuses_a_partial_value() {
    assert_eq!(decode(&[1, 2, 3]), None);
    assert_eq!(decode(&[1, 2, 3, 4, 5]), None);
    assert_eq!(decode(&[1]), None);
}

#[test]
fn decode_of_nothing_is_empty() {
    assert_eq!(decode(&[]), Some(Vec::new()));
}

#[test]
fn values_survive_the_round_trip() {
    let floats = [1.0f32, 2.0];
    let bits: Vec<u32> = floats.iter().map(|f| f.to_bits()).collect();
    let back = decode(&encode(&bits)).expect("whole values");
    let floats_back: Vec<f32> = back.iter().map(|b| f32::from_bits(*b)).collect();
    assert_eq!(floats_back, vec![1.0f32, 2.0]);
}

#[test]
fn every_bit_pattern_survives_the_round_trip() {
    let values = vec![0u32, 1, 0x8000_0000, 0x7FC0_0001, u32::MAX, 0x0102_0304];
    assert_eq!(decode(&encode(&values)), Some(values));
}

#[test]
fn element_size_is_four_bytes() {
    assert_eq!(ELEMENT_SIZE, 4);
    assert_eq!(encode(&[0u32; 5]).len(), 5 * ELEMENT_SIZE);
}
