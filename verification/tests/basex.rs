use juxt::basex::Base64;
use std::str::FromStr;

#[test]
fn lib_it_works() {
    assert_eq!(Base64::from_str("f").unwrap().to_string(), "Zg==");
    assert_eq!(Base64::from_str("+/").unwrap().to_string_safe(), "Ky8=");
    assert_eq!(Base64::from_str("foob").unwrap().to_string(), "Zm9vYg==");
    assert_eq!(format!("{:02x?}", Base64::from("fo".as_bytes())), "Base64([19, 26, 3c, 40])");
}

#[test]
fn encoding_of_nothing_is_empty() {
    assert_eq!(juxt::basex::to_base64(&[]), Vec::<u8>::new());
    assert_eq!(Base64::from_str("").unwrap().to_string(), "");
    assert_eq!(Base64::from_str("").unwrap().to_string_safe(), "");
}

#[test]
fn encoding_pads_the_last_group() {
    assert_eq!(juxt::basex::to_base64("a".as_bytes()), vec![24, 16, 64, 64]);
    assert_eq!(juxt::basex::to_base64("fo".as_bytes()), vec![0x19, 0x26, 0x3c, 0x40]);
    assert_eq!(juxt::basex::to_base64("abc".as_bytes()), vec![24, 22, 9, 35]);
    assert_eq!(Base64::from_str("a").unwrap().to_string(), "YQ==");
    assert_eq!(Base64::from_str("fo").unwrap().to_string(), "Zm8=");
    assert_eq!(Base64::from_str("abc").unwrap().to_string(), "YWJj");
    assert_eq!(Base64::from_str("foobar").unwrap().to_string(), "Zm9vYmFy");
}

#[test]
fn the_two_alphabets_differ_in_two_symbols() {
    let bytes = [0xfbu8, 0xff, 0xfe];
    assert_eq!(Base64::from(&bytes[..]).to_string(), "+//+");
    assert_eq!(Base64::from(&bytes[..]).to_string_safe(), "-__-");
    assert_eq!(Base64::from(&bytes[..]).symbols(), &vec![62, 63, 63, 62]);
    assert_eq!(juxt::basex::BASE64_ALPHABET[62], '+');
    assert_eq!(juxt::basex::BASE64_ALPHABET[63], '/');
    assert_eq!(juxt::basex::BASE64_ALPHABET_SAFE[62], '-');
    assert_eq!(juxt::basex::BASE64_ALPHABET_SAFE[63], '_');
    assert_eq!(juxt::basex::BASE64_ALPHABET[64], '=');
    assert_eq!(juxt::basex::PAD, 64);
}

#[test]
fn encoding_of_every_byte_value() {
    let bytes: Vec<u8> = (0..=255).collect();
    let text = Base64::from(&bytes[..]).to_string();
    assert_eq!(text.len(), 344);
    assert_eq!(&text[..24], "AAECAwQFBgcICQoLDA0ODxAR");
    assert_eq!(&text[320..], "8PHy8/T19vf4+fr7/P3+/w==");
    assert!(juxt::basex::to_base64(&bytes).iter().all(|s| *s <= 64));
}
