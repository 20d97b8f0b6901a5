use juxt::hex::hex_digit;
use juxt::hex::push_hex;

#[test]
fn hex_digits_are_lowercase() {
    let digits: String = (0..16).map(hex_digit).collect();
    assert_eq!(digits, "0123456789abcdef");
}

#[test]
fn a_byte_gives_two_digits_high_first() {
    let mut text = String::from(">");
    push_hex(&mut text, 0x0a);
    push_hex(&mut text, 0xf1);
    push_hex(&mut text, 0x00);
    assert_eq!(text, ">0af100");
}
