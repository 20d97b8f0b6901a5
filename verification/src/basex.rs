//! Base64 encoding of a byte string.

use std::str::FromStr;
use vstd::prelude::*;
use vstd::string::StringSliceAdditionalSpecFns;

verus! {

/// The symbol that stands for a missing group of six bits.
pub const PAD: u8 = 64;

/// The standard alphabet: the symbols of the 64 values, then the padding sign.
pub const BASE64_ALPHABET: [char; 65] = [
    'A', 'B', 'C', 'D', 'E', 'F', 'G', 'H', 'I', 'J', 'K', 'L', 'M', 'N', 'O', 'P',
    'Q', 'R', 'S', 'T', 'U', 'V', 'W', 'X', 'Y', 'Z', 'a', 'b', 'c', 'd', 'e', 'f',
    'g', 'h', 'i', 'j', 'k', 'l', 'm', 'n', 'o', 'p', 'q', 'r', 's', 't', 'u', 'v',
    'w', 'x', 'y', 'z', '0', '1', '2', '3', '4', '5', '6', '7', '8', '9', '+', '/',
    '=',
];

/// The alphabet that is safe in URLs and file names: `-` and `_` in place of `+` and `/`.
pub const BASE64_ALPHABET_SAFE: [char; 65] = [
    'A', 'B', 'C', 'D', 'E', 'F', 'G', 'H', 'I', 'J', 'K', 'L', 'M', 'N', 'O', 'P',
    'Q', 'R', 'S', 'T', 'U', 'V', 'W', 'X', 'Y', 'Z', 'a', 'b', 'c', 'd', 'e', 'f',
    'g', 'h', 'i', 'j', 'k', 'l', 'm', 'n', 'o', 'p', 'q', 'r', 's', 't', 'u', 'v',
    'w', 'x', 'y', 'z', '0', '1', '2', '3', '4', '5', '6', '7', '8', '9', '-', '_',
    '=',
];

/// The four symbols of a full group of three bytes: the 24 bits, six at a time.
pub open spec fn group3(b0: u8, b1: u8, b2: u8) -> Seq<u8> {
    seq![
        (b0 / 4) as u8,
        ((b0 % 4) * 16 + b1 / 16) as u8,
        ((b1 % 16) * 4 + b2 / 64) as u8,
        (b2 % 64) as u8,
    ]
}

/// The four symbols of a last group of two bytes: the 16 bits, then padding.
pub open spec fn group2(b0: u8, b1: u8) -> Seq<u8> {
    seq![(b0 / 4) as u8, ((b0 % 4) * 16 + b1 / 16) as u8, ((b1 % 16) * 4) as u8, PAD]
}

/// The four symbols of a last group of one byte: the 8 bits, then padding.
pub open spec fn group1(b0: u8) -> Seq<u8> {
    seq![(b0 / 4) as u8, ((b0 % 4) * 16) as u8, PAD, PAD]
}

/// The symbols of `s`: four for every three bytes, the last group padded.
pub open spec fn encoded(s: Seq<u8>) -> Seq<u8>
    decreases s.len(),
{
    if s.len() == 0 {
        Seq::empty()
    } else if s.len() == 1 {
        group1(s[0])
    } else if s.len() == 2 {
        group2(s[0], s[1])
    } else {
        group3(s[0], s[1], s[2]) + encoded(s.skip(3))
    }
}

/// Every symbol is a value below 64 or the padding symbol.
pub open spec fn is_symbols(s: Seq<u8>) -> bool {
    forall|k: int| 0 <= k < s.len() ==> s[k] <= PAD
}

/// The encoding has four symbols for every started group of three bytes, and
/// each of them is a symbol.
pub proof fn lemma_encoded(s: Seq<u8>)
    ensures
        encoded(s).len() == (s.len() + 2) / 3 * 4,
        is_symbols(encoded(s)),
    decreases s.len(),
{
    if s.len() >= 3 {
        lemma_encoded(s.skip(3));
    }
}

/// Encodes `bytes`: the result holds, for each symbol, its place in the alphabet.
pub fn to_base64(bytes: &[u8]) -> (result: Vec<u8>)
    ensures
        result@ == encoded(bytes@),
{
    let mut result: Vec<u8> = Vec::new();
    let mut n: usize = 0;
    proof {
        assert(bytes@.skip(0) =~= bytes@);
        assert(result@ + encoded(bytes@) =~= encoded(bytes@));
    }
    while n < bytes.len()
        invariant
            n <= bytes.len(),
            result@ + encoded(bytes@.skip(n as int)) == encoded(bytes@),
        decreases bytes.len() - n,
    {
        let ghost rest = bytes@.skip(n as int);
        let ghost before = result@;
        let left: usize = bytes.len() - n;
        let b0: u8 = bytes[n];
        assert(rest[0] == b0);
        if left == 1 {
            assert(b0 >> 2 == b0 / 4 && (b0 & 0b00000011) << 4 == (b0 % 4) * 16) by (bit_vector);
            result.push(b0 >> 2);
            result.push((b0 & 0b00000011) << 4);
            result.push(64);
            result.push(64);
            proof {
                assert(result@ =~= before + group1(b0));
                assert(bytes@.skip(n + 1).len() == 0);
                assert(before + group1(b0) + encoded(bytes@.skip(n + 1)) =~= before + group1(b0));
            }
            n += 1;
        } else if left == 2 {
            let b1: u8 = bytes[n + 1];
            assert(rest[1] == b1);
            assert(b0 >> 2 == b0 / 4 && ((b0 & 0b00000011) << 4) | (b1 >> 4) == (b0 % 4) * 16 + b1
                / 16 && (b1 & 0b00001111) << 2 == (b1 % 16) * 4) by (bit_vector);
            result.push(b0 >> 2);
            result.push(((b0 & 0b00000011) << 4) | (b1 >> 4));
            result.push((b1 & 0b00001111) << 2);
            result.push(64);
            proof {
                assert(result@ =~= before + group2(b0, b1));
                assert(bytes@.skip(n + 2).len() == 0);
                assert(before + group2(b0, b1) + encoded(bytes@.skip(n + 2)) =~= before + group2(
                    b0,
                    b1,
                ));
            }
            n += 2;
        } else {
            let b1: u8 = bytes[n + 1];
            let b2: u8 = bytes[n + 2];
            assert(rest[1] == b1 && rest[2] == b2);
            assert(b0 >> 2 == b0 / 4 && ((b0 & 0b00000011) << 4) | (b1 >> 4) == (b0 % 4) * 16 + b1
                / 16 && ((b1 & 0b00001111) << 2) | (b2 >> 6) == (b1 % 16) * 4 + b2 / 64 && b2
                & 0b00111111 == b2 % 64) by (bit_vector);
            result.push(b0 >> 2);
            result.push(((b0 & 0b00000011) << 4) | (b1 >> 4));
            result.push(((b1 & 0b00001111) << 2) | (b2 >> 6));
            result.push(b2 & 0b00111111);
            proof {
                assert(result@ =~= before + group3(b0, b1, b2));
                assert(rest.skip(3) =~= bytes@.skip(n + 3));
                assert(before + group3(b0, b1, b2) + encoded(bytes@.skip(n + 3)) =~= before + (
                group3(b0, b1, b2) + encoded(bytes@.skip(n + 3))));
            }
            n += 3;
        }
    }
    proof {
        assert(result@ + encoded(bytes@.skip(n as int)) =~= result@);
    }
    result
}

/// The text of the symbols `s` in `alphabet`.
pub open spec fn text_in(alphabet: [char; 65], s: Seq<u8>) -> Seq<char> {
    Seq::new(s.len(), |k: int| alphabet[s[k] as int])
}

/// A byte string in Base64: its symbols, each as its place in the alphabet.
#[derive(Debug)]
pub struct Base64(Vec<u8>);

impl View for Base64 {
    type V = Seq<u8>;

    closed spec fn view(&self) -> Seq<u8> {
        self.0@
    }
}

impl Base64 {
    #[verifier::type_invariant]
    spec fn well_formed(self) -> bool {
        is_symbols(self.0@)
    }

    /// Writes the symbols in `alphabet`.
    fn text(&self, alphabet: &[char; 65]) -> (text: String)
        ensures
            text@ == text_in(*alphabet, self@),
    {
        proof {
            use_type_invariant(self);
        }
        let mut text = String::new();
        let mut n: usize = 0;
        while n < self.0.len()
            invariant
                n <= self.0.len(),
                is_symbols(self.0@),
                text@ == text_in(*alphabet, self@.take(n as int)),
            decreases self.0.len() - n,
        {
            text.push(alphabet[self.0[n] as usize]);
            proof {
                assert(text@ =~= text_in(*alphabet, self@.take(n + 1)));
            }
            n += 1;
        }
        proof {
            assert(self@.take(n as int) =~= self@);
        }
        text
    }

    /// The text in the standard alphabet.
    pub fn to_string(&self) -> (text: String)
        ensures
            text@ == text_in(BASE64_ALPHABET, self@),
    {
        self.text(&BASE64_ALPHABET)
    }

    /// The text in the alphabet that is safe in URLs and file names.
    pub fn to_string_safe(&self) -> (text: String)
        ensures
            text@ == text_in(BASE64_ALPHABET_SAFE, self@),
    {
        self.text(&BASE64_ALPHABET_SAFE)
    }

    /// The symbols, each as its place in the alphabet.
    pub fn symbols(&self) -> (s: &Vec<u8>)
        ensures
            s@ == self@,
            is_symbols(s@),
    {
        proof {
            use_type_invariant(self);
        }
        &self.0
    }
}

impl From<&[u8]> for Base64 {
    fn from(value: &[u8]) -> (r: Base64)
        ensures
            r@ == encoded(value@),
    {
        proof {
            lemma_encoded(value@);
        }
        Base64(to_base64(value))
    }
}

impl vstd::std_specs::convert::FromSpecImpl<&[u8]> for Base64 {
    /// Two values with the same symbols may differ in what they have
    /// allocated, so the result is stated by its view alone.
    open spec fn obeys_from_spec() -> bool {
        false
    }

    open spec fn from_spec(value: &[u8]) -> Base64 {
        choose|r: Base64| r@ == encoded(value@)
    }
}

impl FromStr for Base64 {
    type Err = std::convert::Infallible;

    fn from_str(s: &str) -> (r: Result<Base64, std::convert::Infallible>)
        ensures
            r matches Ok(b) && b@ == encoded(s.spec_bytes()),
    {
        Ok(Base64::from(s.as_bytes()))
    }
}

} // verus!
