use binvid::codec::{pack_binary, rip_binary};

#[test]
fn bits_come_least_significant_first() {
    let bits = rip_binary(vec![0x01, 0x80, 0xA5]).unwrap();
    assert_eq!(bits.len(), 24);
    let expected = vec![
        true, false, false, false, false, false, false, false, false, false, false, false, false,
        false, false, true, true, false, true, false, false, true, false, true,
    ];
    assert_eq!(bits, expected);
}

#[test]
fn packing_undoes_unpacking() {
    let bytes: Vec<u8> = (0..=255u8).collect();
    let bits = rip_binary(bytes.clone()).unwrap();
    assert_eq!(pack_binary(&bits), bytes);
}

#[test]
fn partial_group_is_padded_with_zero_bits() {
    assert_eq!(pack_binary(&[true, false, true]), vec![0b0000_0101]);
    assert_eq!(
        pack_binary(&[false, false, false, false, false, false, false, true, true]),
        vec![0x80, 0x01]
    );
    assert_eq!(pack_binary(&[]), Vec::<u8>::new());
}
