//! The Adler-32 checksum of a byte string.

use crate::hex::hex_of_bytes;
use crate::hex::push_hex;
use std::str::FromStr;
use vstd::string::StringSliceAdditionalSpecFns;
use vstd::prelude::*;

verus! {

/// The largest prime below 2^16; both halves of the checksum are reduced by it.
pub const BASE: u32 = 65521;

/// The sum of all bytes of `s`.
pub open spec fn byte_sum(s: Seq<u8>) -> nat
    decreases s.len(),
{
    if s.len() == 0 {
        0
    } else {
        byte_sum(s.drop_last()) + s.last() as nat
    }
}

/// The sum, over every non-empty prefix of `s`, of one plus the bytes of that prefix.
pub open spec fn prefix_sum(s: Seq<u8>) -> nat
    decreases s.len(),
{
    if s.len() == 0 {
        0
    } else {
        prefix_sum(s.drop_last()) + 1 + byte_sum(s)
    }
}

/// The low half of the checksum: one plus the sum of the bytes, reduced by `BASE`.
pub open spec fn low_half(s: Seq<u8>) -> nat {
    (1 + byte_sum(s)) % (BASE as nat)
}

/// The high half of the checksum: the sum of the running low halves, reduced by `BASE`.
pub open spec fn high_half(s: Seq<u8>) -> nat {
    prefix_sum(s) % (BASE as nat)
}

/// The Adler-32 checksum of `s`: the high half in the upper 16 bits, the low half in the lower.
pub open spec fn checksum(s: Seq<u8>) -> u32 {
    (high_half(s) * 65536 + low_half(s)) as u32
}

/// The four bytes of `v`, most significant first.
pub open spec fn be_bytes(v: u32) -> Seq<u8> {
    seq![(v / 16777216) as u8, (v / 65536 % 256) as u8, (v / 256 % 256) as u8, (v % 256) as u8]
}

/// Computes the Adler-32 checksum of `bytes`.
pub fn calc(bytes: &[u8]) -> (sum: u32)
    ensures
        sum == checksum(bytes@),
        sum as nat == high_half(bytes@) * 65536 + low_half(bytes@),
{
    let mut lo: u32 = 1;
    let mut hi: u32 = 0;
    let mut n: usize = 0;
    while n < bytes.len()
        invariant
            n <= bytes.len(),
            lo as nat == low_half(bytes@.take(n as int)),
            hi as nat == high_half(bytes@.take(n as int)),
        decreases bytes.len() - n,
    {
        proof {
            let next = bytes@.take(n + 1);
            assert(next.drop_last() =~= bytes@.take(n as int));
            assert(next.last() == bytes@[n as int]);
        }
        lo = (lo + bytes[n] as u32) % BASE;
        hi = (hi + lo) % BASE;
        n += 1;
    }
    proof {
        assert(bytes@.take(n as int) =~= bytes@);
        assert((hi << 16) == hi * 65536) by (bit_vector)
            requires
                hi < 65521,
        ;
    }
    (hi << 16) + lo
}

/// An Adler-32 checksum.
#[derive(Clone, Copy, Debug)]
pub struct Adler32(u32);

impl View for Adler32 {
    type V = u32;

    closed spec fn view(&self) -> u32 {
        self.0
    }
}

impl PartialEq for Adler32 {
    fn eq(&self, other: &Adler32) -> (r: bool) {
        self.0 == other.0
    }
}

impl vstd::std_specs::cmp::PartialEqSpecImpl for Adler32 {
    open spec fn obeys_eq_spec() -> bool {
        true
    }

    open spec fn eq_spec(&self, other: &Adler32) -> bool {
        self@ == other@
    }
}

impl Eq for Adler32 {

}

impl PartialEq<u32> for Adler32 {
    fn eq(&self, other: &u32) -> (r: bool) {
        self.0 == *other
    }
}

impl vstd::std_specs::cmp::PartialEqSpecImpl<u32> for Adler32 {
    open spec fn obeys_eq_spec() -> bool {
        true
    }

    open spec fn eq_spec(&self, other: &u32) -> bool {
        self@ == *other
    }
}

impl Adler32 {
    /// The checksum of `bytes`.
    pub fn from_bytes(bytes: &[u8]) -> (sum: Adler32)
        ensures
            sum@ == checksum(bytes@),
    {
        Adler32(calc(bytes))
    }

    /// The checksum as eight lowercase hexadecimal digits, the most significant first.
    pub fn to_string(&self) -> (text: String)
        ensures
            text@ == hex_of_bytes(be_bytes(self@)),
    {
        let v = self.0;
        let mut text = String::new();
        push_hex(&mut text, (v / 16777216) as u8);
        push_hex(&mut text, (v / 65536 % 256) as u8);
        push_hex(&mut text, (v / 256 % 256) as u8);
        push_hex(&mut text, (v % 256) as u8);
        proof {
            reveal_with_fuel(hex_of_bytes, 5);
            let s = be_bytes(v);
            assert(s.drop_last() =~= seq![s[0], s[1], s[2]]);
            assert(s.drop_last().drop_last() =~= seq![s[0], s[1]]);
            assert(s.drop_last().drop_last().drop_last() =~= seq![s[0]]);
            assert(s.drop_last().drop_last().drop_last().drop_last() =~= Seq::<u8>::empty());
            assert(text@ =~= hex_of_bytes(s));
        }
        text
    }

    /// The checksum as a number.
    pub fn value(&self) -> (v: u32)
        ensures
            v == self@,
    {
        self.0
    }
}

impl FromStr for Adler32 {
    type Err = std::convert::Infallible;

    fn from_str(s: &str) -> (r: Result<Adler32, std::convert::Infallible>)
        ensures
            r matches Ok(sum) && sum@ == checksum(s.spec_bytes()),
    {
        Ok(Adler32::from_bytes(s.as_bytes()))
    }
}

} // verus!
