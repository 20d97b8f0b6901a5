//! The MD5 message digest.

use crate::hex::hex_of_bytes;
use crate::hex::push_hex;
use std::str::FromStr;
use vstd::prelude::*;
use vstd::string::StringSliceAdditionalSpecFns;

verus! {

/// The first of the four words that a digest starts from.
pub const A: u32 = 0x67452301;

/// The second of the four words that a digest starts from.
pub const B: u32 = 0xefcdab89;

/// The third of the four words that a digest starts from.
pub const C: u32 = 0x98badcfe;

/// The fourth of the four words that a digest starts from.
pub const D: u32 = 0x10325476;

/// For each of the 64 steps, the index of the message word it mixes in.
pub const KI: [usize; 64] = [
    0x00, 0x01, 0x02, 0x03, 0x04, 0x05, 0x06, 0x07, 0x08, 0x09, 0x0a, 0x0b, 0x0c, 0x0d, 0x0e, 0x0f,
    0x01, 0x06, 0x0b, 0x00, 0x05, 0x0a, 0x0f, 0x04, 0x09, 0x0e, 0x03, 0x08, 0x0d, 0x02, 0x07, 0x0c,
    0x05, 0x08, 0x0b, 0x0e, 0x01, 0x04, 0x07, 0x0a, 0x0d, 0x00, 0x03, 0x06, 0x09, 0x0c, 0x0f, 0x02,
    0x00, 0x07, 0x0e, 0x05, 0x0c, 0x03, 0x0a, 0x01, 0x08, 0x0f, 0x06, 0x0d, 0x04, 0x0b, 0x02, 0x09,
];

/// For each of the 64 steps, the additive constant.
pub const TI: [u32; 64] = [
    0xd76aa478, 0xe8c7b756, 0x242070db, 0xc1bdceee, 0xf57c0faf, 0x4787c62a, 0xa8304613, 0xfd469501,
    0x698098d8, 0x8b44f7af, 0xffff5bb1, 0x895cd7be, 0x6b901122, 0xfd987193, 0xa679438e, 0x49b40821,
    0xf61e2562, 0xc040b340, 0x265e5a51, 0xe9b6c7aa, 0xd62f105d, 0x02441453, 0xd8a1e681, 0xe7d3fbc8,
    0x21e1cde6, 0xc33707d6, 0xf4d50d87, 0x455a14ed, 0xa9e3e905, 0xfcefa3f8, 0x676f02d9, 0x8d2a4c8a,
    0xfffa3942, 0x8771f681, 0x6d9d6122, 0xfde5380c, 0xa4beea44, 0x4bdecfa9, 0xf6bb4b60, 0xbebfbc70,
    0x289b7ec6, 0xeaa127fa, 0xd4ef3085, 0x04881d05, 0xd9d4d039, 0xe6db99e5, 0x1fa27cf8, 0xc4ac5665,
    0xf4292244, 0x432aff97, 0xab9423a7, 0xfc93a039, 0x655b59c3, 0x8f0ccc92, 0xffeff47d, 0x85845dd1,
    0x6fa87e4f, 0xfe2ce6e0, 0xa3014314, 0x4e0811a1, 0xf7537e82, 0xbd3af235, 0x2ad7d2bb, 0xeb86d391,
];

/// For each of the 64 steps, the rotation distance.
pub const SI: [u32; 64] = [
    0x07, 0x0c, 0x11, 0x16, 0x07, 0x0c, 0x11, 0x16, 0x07, 0x0c, 0x11, 0x16, 0x07, 0x0c, 0x11, 0x16,
    0x05, 0x09, 0x0e, 0x14, 0x05, 0x09, 0x0e, 0x14, 0x05, 0x09, 0x0e, 0x14, 0x05, 0x09, 0x0e, 0x14,
    0x04, 0x0b, 0x10, 0x17, 0x04, 0x0b, 0x10, 0x17, 0x04, 0x0b, 0x10, 0x17, 0x04, 0x0b, 0x10, 0x17,
    0x06, 0x0a, 0x0f, 0x15, 0x06, 0x0a, 0x0f, 0x15, 0x06, 0x0a, 0x0f, 0x15, 0x06, 0x0a, 0x0f, 0x15,
];

/// Addition of 32-bit words modulo 2^32.
pub open spec fn add32(x: u32, y: u32) -> u32 {
    ((x + y) % 0x1_0000_0000) as u32
}

/// Rotation of a 32-bit word to the left by `n` bits, `n` taken modulo 32.
pub open spec fn rotl32(x: u32, n: u32) -> u32 {
    let k = n % 32;
    if k == 0 {
        x
    } else {
        x << k | x >> ((32 - k) as u32)
    }
}

/// The selection function of the first round: `c` where `b` is set, `d` elsewhere.
pub open spec fn f_spec(b: u32, c: u32, d: u32) -> u32 {
    b & c | !b & d
}

/// The selection function of the second round: `b` where `d` is set, `c` elsewhere.
pub open spec fn g_spec(b: u32, c: u32, d: u32) -> u32 {
    b & d | c & !d
}

/// The parity function of the third round.
pub open spec fn h_spec(b: u32, c: u32, d: u32) -> u32 {
    b ^ c ^ d
}

/// The function of the fourth round.
pub open spec fn i_spec(b: u32, c: u32, d: u32) -> u32 {
    c ^ (b | !d)
}

/// One step: the mixed word `m`, the message word `xi` and the constant `ti`
/// are added to `a`, the sum is rotated by `si` and `b` is added.
pub open spec fn step_word(a: u32, b: u32, m: u32, xi: u32, ti: u32, si: u32) -> u32 {
    add32(rotl32(add32(add32(add32(a, m), xi), ti), si), b)
}

pub fn f(b: u32, c: u32, d: u32) -> (r: u32)
    ensures
        r == f_spec(b, c, d),
{
    b & c | !b & d
}

pub fn g(b: u32, c: u32, d: u32) -> (r: u32)
    ensures
        r == g_spec(b, c, d),
{
    b & d | c & !d
}

pub fn h(b: u32, c: u32, d: u32) -> (r: u32)
    ensures
        r == h_spec(b, c, d),
{
    b ^ c ^ d
}

pub fn i(b: u32, c: u32, d: u32) -> (r: u32)
    ensures
        r == i_spec(b, c, d),
{
    c ^ (b | !d)
}

/// Rotates `x` to the left by `n` bits, `n` taken modulo 32.
pub fn rotate_left(x: u32, n: u32) -> (r: u32)
    ensures
        r == rotl32(x, n),
{
    let k: u32 = n % 32;
    if k == 0 {
        x
    } else {
        x << k | x >> (32 - k)
    }
}

/// The step shared by the four rounds, on an already mixed word `m`.
fn step(a: u32, b: u32, m: u32, xi: u32, ti: u32, si: u32) -> (r: u32)
    ensures
        r == step_word(a, b, m, xi, ti, si),
{
    rotate_left(a.wrapping_add(m).wrapping_add(xi).wrapping_add(ti), si).wrapping_add(b)
}

pub fn ff(a: u32, b: u32, c: u32, d: u32, xi: u32, ti: u32, si: u32) -> (r: u32)
    ensures
        r == step_word(a, b, f_spec(b, c, d), xi, ti, si),
{
    step(a, b, f(b, c, d), xi, ti, si)
}

pub fn gg(a: u32, b: u32, c: u32, d: u32, xi: u32, ti: u32, si: u32) -> (r: u32)
    ensures
        r == step_word(a, b, g_spec(b, c, d), xi, ti, si),
{
    step(a, b, g(b, c, d), xi, ti, si)
}

pub fn hh(a: u32, b: u32, c: u32, d: u32, xi: u32, ti: u32, si: u32) -> (r: u32)
    ensures
        r == step_word(a, b, h_spec(b, c, d), xi, ti, si),
{
    step(a, b, h(b, c, d), xi, ti, si)
}

pub fn ii(a: u32, b: u32, c: u32, d: u32, xi: u32, ti: u32, si: u32) -> (r: u32)
    ensures
        r == step_word(a, b, i_spec(b, c, d), xi, ti, si),
{
    step(a, b, i(b, c, d), xi, ti, si)
}

/// The four chaining words of a digest in progress.
#[derive(Clone, Copy, Debug)]
pub struct State {
    pub a: u32,
    pub b: u32,
    pub c: u32,
    pub d: u32,
}

/// The state before any block has been absorbed.
pub open spec fn initial_state() -> State {
    State { a: A, b: B, c: C, d: D }
}

/// The little-endian 32-bit word made of the bytes `4k .. 4k + 4` of `block`.
pub open spec fn word_at(block: Seq<u8>, k: int) -> u32 {
    (block[4 * k] + 256 * block[4 * k + 1] + 65536 * block[4 * k + 2] + 16777216 * block[4 * k
        + 3]) as u32
}

/// The word that step `n` mixes from `b`, `c` and `d`: sixteen steps for each of the four rounds.
pub open spec fn mix(n: int, b: u32, c: u32, d: u32) -> u32 {
    if n < 16 {
        f_spec(b, c, d)
    } else if n < 32 {
        g_spec(b, c, d)
    } else if n < 48 {
        h_spec(b, c, d)
    } else {
        i_spec(b, c, d)
    }
}

/// The state after step `n` on `block`: the words move one place on and the
/// second becomes the step's word.
pub open spec fn step_state(s: State, block: Seq<u8>, n: int) -> State {
    State {
        a: s.d,
        b: step_word(s.a, s.b, mix(n, s.b, s.c, s.d), word_at(block, KI[n] as int), TI[n], SI[n]),
        c: s.b,
        d: s.c,
    }
}

/// The state after the first `n` steps on `block`.
pub open spec fn steps(s: State, block: Seq<u8>, n: nat) -> State
    decreases n,
{
    if n == 0 {
        s
    } else {
        step_state(steps(s, block, (n - 1) as nat), block, n - 1)
    }
}

/// Absorbs one 64-byte block: the 64 steps, then each word added to what it was before.
pub open spec fn compress(s: State, block: Seq<u8>) -> State {
    let t = steps(s, block, 64);
    State { a: add32(s.a, t.a), b: add32(s.b, t.b), c: add32(s.c, t.c), d: add32(s.d, t.d) }
}

/// The state after the first `n` blocks of `data` have been absorbed.
pub open spec fn absorb(data: Seq<u8>, n: nat) -> State
    decreases n,
{
    if n == 0 {
        initial_state()
    } else {
        compress(absorb(data, (n - 1) as nat), data.subrange(64 * (n - 1), 64 * n as int))
    }
}

/// The `n` low bytes of `v`, least significant first.
pub open spec fn le_bytes(v: nat, n: nat) -> Seq<u8>
    decreases n,
{
    if n == 0 {
        Seq::empty()
    } else {
        seq![(v % 256) as u8] + le_bytes(v / 256, (n - 1) as nat)
    }
}

/// The number of zero bytes that follow the marker byte, so that the length
/// field ends a 64-byte block.
pub open spec fn zero_fill(len: nat) -> nat {
    ((119 - len % 64) % 64) as nat
}

/// The message as it is digested: the message, the marker byte `0x80`, the
/// zero fill, and the message's length in bits modulo 2^64 in eight bytes.
pub open spec fn padded(msg: Seq<u8>) -> Seq<u8> {
    msg + seq![0x80u8] + Seq::new(zero_fill(msg.len()), |j: int| 0u8) + le_bytes(
        ((msg.len() * 8) % 0x1_0000_0000_0000_0000) as nat,
        8,
    )
}

/// The sixteen bytes of a state: its four words, each least significant byte first.
pub open spec fn state_bytes(s: State) -> Seq<u8> {
    le_bytes(s.a as nat, 4) + le_bytes(s.b as nat, 4) + le_bytes(s.c as nat, 4) + le_bytes(
        s.d as nat,
        4,
    )
}

/// The MD5 digest of `msg`.
pub open spec fn digest(msg: Seq<u8>) -> Seq<u8> {
    let data = padded(msg);
    state_bytes(absorb(data, data.len() / 64))
}

/// The length of a padded message is a whole number of blocks.
pub proof fn lemma_padded_len(msg: Seq<u8>)
    ensures
        padded(msg).len() == msg.len() + 1 + zero_fill(msg.len()) + 8,
        padded(msg).len() % 64 == 0,
{
    lemma_le_bytes_len(((msg.len() * 8) % 0x1_0000_0000_0000_0000) as nat, 8);
}

/// `le_bytes(v, n)` has `n` bytes.
pub proof fn lemma_le_bytes_len(v: nat, n: nat)
    ensures
        le_bytes(v, n).len() == n,
    decreases n,
{
    if n > 0 {
        lemma_le_bytes_len(v / 256, (n - 1) as nat);
    }
}

/// Reads the little-endian word `k` of the block that starts at `base`.
fn read_word(bytes: &Vec<u8>, base: usize, k: usize) -> (w: u32)
    requires
        k < 16,
        base + 64 <= bytes.len(),
    ensures
        w == word_at(bytes@.subrange(base as int, base + 64), k as int),
{
    let at: usize = base + 4 * k;
    let b0: u32 = bytes[at] as u32;
    let b1: u32 = bytes[at + 1] as u32;
    let b2: u32 = bytes[at + 2] as u32;
    let b3: u32 = bytes[at + 3] as u32;
    b0 + 256 * b1 + 65536 * b2 + 16777216 * b3
}

/// Absorbs the block of `bytes` that starts at `base` into `s`.
fn absorb_block(s: State, bytes: &Vec<u8>, base: usize) -> (t: State)
    requires
        base + 64 <= bytes.len(),
    ensures
        t == compress(s, bytes@.subrange(base as int, base + 64)),
{
    let ghost block = bytes@.subrange(base as int, base + 64);
    let mut a: u32 = s.a;
    let mut b: u32 = s.b;
    let mut c: u32 = s.c;
    let mut d: u32 = s.d;
    let mut n: usize = 0;
    while n < 64
        invariant
            n <= 64,
            base + 64 <= bytes.len(),
            block == bytes@.subrange(base as int, base + 64),
            (State { a, b, c, d }) == steps(s, block, n as nat),
        decreases 64 - n,
    {
        let xi = read_word(bytes, base, KI[n]);
        let next = if n < 16 {
            ff(a, b, c, d, xi, TI[n], SI[n])
        } else if n < 32 {
            gg(a, b, c, d, xi, TI[n], SI[n])
        } else if n < 48 {
            hh(a, b, c, d, xi, TI[n], SI[n])
        } else {
            ii(a, b, c, d, xi, TI[n], SI[n])
        };
        let rotated = d;
        d = c;
        c = b;
        b = next;
        a = rotated;
        n += 1;
    }
    State {
        a: s.a.wrapping_add(a),
        b: s.b.wrapping_add(b),
        c: s.c.wrapping_add(c),
        d: s.d.wrapping_add(d),
    }
}

/// The four bytes of `w`, least significant first.
fn word_bytes(w: u32) -> (r: [u8; 4])
    ensures
        r@ == le_bytes(w as nat, 4),
{
    let w1: u32 = w / 256;
    let w2: u32 = w1 / 256;
    let w3: u32 = w2 / 256;
    let r = [(w % 256) as u8, (w1 % 256) as u8, (w2 % 256) as u8, (w3 % 256) as u8];
    proof {
        reveal_with_fuel(le_bytes, 5);
        assert(r@ =~= le_bytes(w as nat, 4));
    }
    r
}

/// Appends to `bytes` the eight low bytes of `v`, least significant first.
fn push_length(bytes: &mut Vec<u8>, v: u64)
    ensures
        final(bytes)@ == old(bytes)@ + le_bytes(v as nat, 8),
{
    let ghost head = bytes@;
    let mut rest: u64 = v;
    let mut k: usize = 0;
    while k < 8
        invariant
            k <= 8,
            bytes@ + le_bytes(rest as nat, (8 - k) as nat) == head + le_bytes(v as nat, 8),
        decreases 8 - k,
    {
        let ghost before = bytes@;
        bytes.push((rest % 256) as u8);
        proof {
            let tail = le_bytes((rest / 256) as nat, (8 - k - 1) as nat);
            assert(le_bytes(rest as nat, (8 - k) as nat) == seq![(rest % 256) as u8] + tail);
            assert(bytes@ + tail =~= before + (seq![(rest % 256) as u8] + tail));
        }
        rest = rest / 256;
        k += 1;
    }
    proof {
        assert(bytes@ + le_bytes(rest as nat, 0) =~= bytes@);
    }
}

/// Computes the MD5 digest of `bytes`.
///
/// The padding is appended to `bytes` itself and taken off again before the
/// function returns, so `bytes` ends as it began.
pub fn calc_in_place(bytes: &mut Vec<u8>) -> (out: [u8; 16])
    ensures
        final(bytes)@ == old(bytes)@,
        out@ == digest(old(bytes)@),
{
    let ghost msg = bytes@;
    let count: usize = bytes.len();
    let bits: u64 = (count as u64).wrapping_mul(8);

    bytes.push(0x80);
    while bytes.len() % 64 != 56
        invariant
            count == msg.len(),
            bytes.len() >= count + 1,
            bytes.len() - count - 1 <= zero_fill(msg.len()),
            bytes@ == msg + seq![0x80u8] + Seq::new(
                (bytes.len() - count - 1) as nat,
                |j: int| 0u8,
            ),
        decreases zero_fill(msg.len()) - (bytes.len() - count - 1),
    {
        bytes.push(0x00);
        proof {
            assert(bytes@ =~= msg + seq![0x80u8] + Seq::new(
                (bytes.len() - count - 1) as nat,
                |j: int| 0u8,
            ));
        }
    }
    assert(bytes.len() - count - 1 == zero_fill(msg.len()));
    push_length(bytes, bits);
    proof {
        lemma_padded_len(msg);
        assert(bytes@ == padded(msg));
    }

    let blocks: usize = bytes.len() / 64;
    let mut s = State { a: A, b: B, c: C, d: D };
    let mut n: usize = 0;
    while n < blocks
        invariant
            n <= blocks,
            blocks * 64 == bytes.len(),
            bytes@ == padded(msg),
            s == absorb(bytes@, n as nat),
        decreases blocks - n,
    {
        s = absorb_block(s, bytes, n * 64);
        n += 1;
    }

    bytes.truncate(count);
    proof {
        assert(bytes@ =~= msg);
    }

    let a = word_bytes(s.a);
    let b = word_bytes(s.b);
    let c = word_bytes(s.c);
    let d = word_bytes(s.d);
    let out = [
        a[0], a[1], a[2], a[3],
        b[0], b[1], b[2], b[3],
        c[0], c[1], c[2], c[3],
        d[0], d[1], d[2], d[3],
    ];
    proof {
        assert(out@ =~= state_bytes(s));
    }
    out
}

/// An MD5 digest.
#[derive(Clone, Copy, Debug)]
pub struct Md5([u8; 16]);

impl View for Md5 {
    type V = Seq<u8>;

    closed spec fn view(&self) -> Seq<u8> {
        self.0@
    }
}

impl PartialEq for Md5 {
    fn eq(&self, other: &Md5) -> (r: bool) {
        let mut n: usize = 0;
        while n < 16
            invariant
                n <= 16,
                forall|k: int| 0 <= k < n ==> self.0[k] == other.0[k],
            decreases 16 - n,
        {
            if self.0[n] != other.0[n] {
                return false;
            }
            n += 1;
        }
        proof {
            assert(self@ =~= other@);
        }
        true
    }
}

impl vstd::std_specs::cmp::PartialEqSpecImpl for Md5 {
    open spec fn obeys_eq_spec() -> bool {
        true
    }

    open spec fn eq_spec(&self, other: &Md5) -> bool {
        self@ == other@
    }
}

impl Eq for Md5 {

}

impl Md5 {
    /// The digest of `bytes`.
    ///
    /// The padding is appended to `bytes` itself and taken off again before
    /// the function returns, so `bytes` ends as it began.
    pub fn from_vec(bytes: &mut Vec<u8>) -> (sum: Md5)
        ensures
            final(bytes)@ == old(bytes)@,
            sum@ == digest(old(bytes)@),
    {
        Md5(calc_in_place(bytes))
    }

    /// The sixteen bytes of the digest.
    pub fn bytes(&self) -> (out: [u8; 16])
        ensures
            out@ == self@,
    {
        self.0
    }

    /// The digest as 32 lowercase hexadecimal digits.
    pub fn to_string(&self) -> (text: String)
        ensures
            text@ == hex_of_bytes(self@),
    {
        let mut text = String::new();
        let mut n: usize = 0;
        while n < 16
            invariant
                n <= 16,
                text@ == hex_of_bytes(self@.take(n as int)),
            decreases 16 - n,
        {
            proof {
                let next = self@.take(n + 1);
                assert(next.drop_last() =~= self@.take(n as int));
            }
            push_hex(&mut text, self.0[n]);
            n += 1;
        }
        proof {
            assert(self@.take(16) =~= self@);
        }
        text
    }
}

impl FromStr for Md5 {
    type Err = std::convert::Infallible;

    fn from_str(s: &str) -> (r: Result<Md5, std::convert::Infallible>)
        ensures
            r matches Ok(sum) && sum@ == digest(s.spec_bytes()),
    {
        let mut bytes = s.as_bytes_vec();
        Ok(Md5::from_vec(&mut bytes))
    }
}

} // verus!
