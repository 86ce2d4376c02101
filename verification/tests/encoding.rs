use processing_instructions::InstructionData;

#[test]
fn encodes_name_then_age() {
    let data = InstructionData::new("Alice".to_string(), 21);
    assert_eq!(
        data.to_vec().unwrap(),
        vec![5u8, 0, 0, 0, b'A', b'l', b'i', b'c', b'e', 21]
    );
}

#[test]
fn encodes_empty_name() {
    let data = InstructionData::new(String::new(), 0);
    assert_eq!(data.to_vec().unwrap(), vec![0u8, 0, 0, 0, 0]);
}

#[test]
fn encodes_length_in_bytes_not_letters() {
    let data = InstructionData::new("Zo\u{eb}".to_string(), 30);
    assert_eq!(
        data.to_vec().unwrap(),
        vec![4u8, 0, 0, 0, b'Z', b'o', 0xc3, 0xab, 30]
    );
}

#[test]
fn encodes_long_name_with_length_lowest_byte_first() {
    let data = InstructionData::new("x".repeat(300), 99);
    let bytes = data.to_vec().unwrap();
    assert_eq!(bytes.len(), 305);
    assert_eq!(&bytes[..4], &[44u8, 1, 0, 0]);
    assert_eq!(bytes[304], 99);
}

#[test]
fn encodes_as_the_serializer_of_a_pair_does() {
    let data = InstructionData::new("Carol".to_string(), 64);
    assert_eq!(
        data.to_vec().unwrap(),
        borsh::to_vec(&("Carol".to_string(), 64u8)).unwrap()
    );
}

#[test]
fn decoding_an_encoding_gives_the_record_back() {
    for (name, age) in [("", 0u8), ("Dave", 17), ("Zo\u{eb}", 18), ("\u{1f37a}", 255)] {
        let bytes = InstructionData::new(name.to_string(), age).to_vec().unwrap();
        let back = InstructionData::try_from_slice(&bytes).unwrap();
        assert_eq!(back.name(), name);
        assert_eq!(back.age(), age);
    }
}

#[test]
fn encoding_a_decoding_gives_the_bytes_back() {
    let bytes = vec![3u8, 0, 0, 0, b'E', b'v', b'e', 200];
    let data = InstructionData::try_from_slice(&bytes).unwrap();
    assert_eq!(data.to_vec().unwrap(), bytes);
}

#[test]
fn new_keeps_name_and_age() {
    let data = InstructionData::new("Frank".to_string(), 33);
    assert_eq!(data.name(), "Frank");
    assert_eq!(data.age(), 33);
}
