use juxt::adler32::Adler32;
use std::str::FromStr;

#[test]
fn it_works() {
    assert_eq!(Adler32::from_str("juxt_adler32").unwrap(), 0x20640498);
    assert_eq!(Adler32::from_str("juxt_adler32").unwrap().to_string(), "20640498");
    assert_eq!(Adler32::from_str("juxt_adler32").unwrap(), Adler32::from_str("juxt_adler32").unwrap().clone());
    assert_eq!(format!("{:?}", Adler32::from_str("juxt_adler32").unwrap()), "Adler32(543425688)");
}

#[test]
fn checksum_of_nothing_is_one() {
    assert_eq!(Adler32::from_bytes(&[]), 1);
    assert_eq!(Adler32::from_bytes(&[]).to_string(), "00000001");
}

#[test]
fn checksum_of_known_text() {
    assert_eq!(juxt::adler32::calc("Wikipedia".as_bytes()), 0x11e60398);
    assert_eq!(juxt::adler32::calc("a".as_bytes()), 0x00620062);
    assert_eq!(juxt::adler32::calc("abc".as_bytes()), 0x024d0127);
}

#[test]
fn checksum_halves_are_reduced() {
    let bytes = vec![0xffu8; 6000];
    assert_eq!(juxt::adler32::calc(&bytes), 0xa49759ea);
    assert_eq!(Adler32::from_bytes(&bytes).value(), 0xa49759ea);
    assert_eq!(Adler32::from_bytes(&bytes).to_string(), "a49759ea");
}

#[test]
fn checksum_text_keeps_leading_zeros() {
    assert_eq!(Adler32::from_str("a").unwrap().to_string(), "00620062");
    assert_eq!(Adler32::from_str("a").unwrap().to_string(), format!("{:08x}", 0x00620062));
}

#[test]
fn checksums_compare_by_value() {
    let a = Adler32::from_str("abc").unwrap();
    let b = Adler32::from_bytes("abc".as_bytes());
    let c = Adler32::from_str("abd").unwrap();
    assert_eq!(a, b);
    assert_ne!(a, c);
    assert_ne!(a, 1);
}
