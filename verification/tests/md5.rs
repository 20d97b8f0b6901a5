use juxt::md5::Md5;
use std::str::FromStr;

#[test]
fn just_test() {
    assert_eq!(Md5::from_str("just_md5").unwrap().to_string(), "7ada8af6959dc1ec238617351e7b45ea");
    assert_eq!(Md5::from_str("just_md5").unwrap().clone().to_string(), "7ada8af6959dc1ec238617351e7b45ea");
    assert_eq!(Md5::from_str("just_md5").unwrap(), Md5::from_str("just_md5").unwrap());
    assert_eq!(format!("{:02x?}", Md5::from_str("just_md5").unwrap()), "Md5([7a, da, 8a, f6, 95, 9d, c1, ec, 23, 86, 17, 35, 1e, 7b, 45, ea])");
}

#[test]
fn digest_of_known_messages() {
    assert_eq!(Md5::from_str("").unwrap().to_string(), "d41d8cd98f00b204e9800998ecf8427e");
    assert_eq!(Md5::from_str("a").unwrap().to_string(), "0cc175b9c0f1b6a831c399e269772661");
    assert_eq!(Md5::from_str("abc").unwrap().to_string(), "900150983cd24fb0d6963f7d28e17f72");
    assert_eq!(Md5::from_str("message digest").unwrap().to_string(), "f96b697d7cb7938d525a2f31aaf161d0");
    assert_eq!(
        Md5::from_str("12345678901234567890123456789012345678901234567890123456789012345678901234567890")
            .unwrap()
            .to_string(),
        "57edf4a22be3c955ac49da2e2107b67a"
    );
}

#[test]
fn digest_where_the_padding_changes_shape() {
    let cases = [
        (55, "04364420e25c512fd958a70738aa8f72"),
        (56, "668a72d5ba17f08e62dabcafad6db14b"),
        (63, "7dc2ca208106a2f703567bdff99d8981"),
        (64, "c1bb4f81d892b2d57947682aeb252456"),
        (119, "ab347a5f68c8a443cfcddc633f12c24f"),
        (120, "fb98667f98096de92620b64f46e1c5b5"),
    ];
    for (len, expected) in cases {
        let mut bytes = vec![b'x'; len];
        assert_eq!(Md5::from_vec(&mut bytes).to_string(), expected);
    }
}

#[test]
fn digest_leaves_the_message_as_it_was() {
    let mut bytes: Vec<u8> = (0..=255).collect();
    let before = bytes.clone();
    let out = juxt::md5::calc_in_place(&mut bytes);
    assert_eq!(bytes, before);
    assert_eq!(out, [0xe2, 0xc8, 0x65, 0xdb, 0x41, 0x62, 0xbe, 0xd9, 0x63, 0xbf, 0xaa, 0x9e, 0xf6, 0xac, 0x18, 0xf0]);
    assert_eq!(Md5::from_vec(&mut bytes).bytes(), out);
    assert_eq!(bytes, before);
}

#[test]
fn the_four_mixing_functions() {
    let (b, c, d) = (0xf0f0_f0f0u32, 0xcccc_ccccu32, 0xaaaa_aaaau32);
    assert_eq!(juxt::md5::f(b, c, d), 0xcaca_caca);
    assert_eq!(juxt::md5::g(b, c, d), 0xe4e4_e4e4);
    assert_eq!(juxt::md5::h(b, c, d), 0x9696_9696);
    assert_eq!(juxt::md5::i(b, c, d), 0x3939_3939);
}

#[test]
fn the_four_steps() {
    let (a, b, c, d) = (0x6745_2301u32, 0xefcd_ab89u32, 0x98ba_dcfeu32, 0x1032_5476u32);
    let (xi, ti, si) = (0x8000_0000u32, 0xd76a_a478u32, 7u32);
    let step = |m: u32| a.wrapping_add(m).wrapping_add(xi).wrapping_add(ti).rotate_left(si).wrapping_add(b);
    assert_eq!(juxt::md5::ff(a, b, c, d, xi, ti, si), step(b & c | !b & d));
    assert_eq!(juxt::md5::gg(a, b, c, d, xi, ti, si), step(b & d | c & !d));
    assert_eq!(juxt::md5::hh(a, b, c, d, xi, ti, si), step(b ^ c ^ d));
    assert_eq!(juxt::md5::ii(a, b, c, d, xi, ti, si), step(c ^ (b | !d)));
    assert_eq!(juxt::md5::ff(0, 0, 0, 0, 1, 0, 31), 0x8000_0000);
    assert_eq!(juxt::md5::ff(0xffff_ffff, 5, 0, 0, 2, 0, 0), 6);
}

#[test]
fn rotation_takes_the_distance_modulo_32() {
    for n in [0u32, 1, 7, 12, 17, 22, 31, 32, 33, 64, 100] {
        for x in [0u32, 1, 0x8000_0000, 0x1234_5678, 0xffff_ffff] {
            assert_eq!(juxt::md5::rotate_left(x, n), x.rotate_left(n));
        }
    }
}

#[test]
fn digests_compare_by_value() {
    assert_eq!(Md5::from_str("abc").unwrap(), Md5::from_str("abc").unwrap());
    assert_ne!(Md5::from_str("abc").unwrap(), Md5::from_str("abd").unwrap());
}
