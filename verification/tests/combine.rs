use chip8::combine::combine;

#[test]
fn combine_test1() {
    let inst = [0x1, 0x2, 0x3];
    let combo = combine(&inst);
    assert!(0x123 == combo);
}

#[test]
fn combine_test2() {
    let inst = [0x3];
    let combo = combine(&inst);
    assert!(0x3 == combo);
}

#[test]
fn combine_test3() {
    let inst = [0x1, 0x2, 0x3, 0x4];
    let combo = combine(&inst);
    assert!(0x1234 == combo);
}

#[test]
fn combine_empty_is_zero() {
    let inst: [u8; 0] = [];
    assert_eq!(combine(&inst), 0);
}

#[test]
fn combine_drops_bits_shifted_out() {
    // The fifth nibble pushes the first one out of the 16-bit word.
    let inst = [0x1, 0x2, 0x3, 0x4, 0x5];
    assert_eq!(combine(&inst), 0x2345);
}

#[test]
fn combine_adds_whole_bytes() {
    let inst = [0x1, 0xff];
    assert_eq!(combine(&inst), 0x10f);
}
