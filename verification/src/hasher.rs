//! Deterministic 64-bit FNV-1a hashing used for cross-process cache keys.

use vstd::prelude::*;
use vstd::utf8::encode_utf8;

use crate::text::push_char;

verus! {

/// FNV-1a 64-bit offset basis.
pub const FNV_OFFSET_BASIS: u64 = 0xcbf29ce484222325;

/// FNV-1a 64-bit prime.
pub const FNV_PRIME: u64 = 0x100000001b3;

/// One FNV-1a round: xor the byte in, then multiply by the prime modulo 2^64.
pub open spec fn fnv_step(state: u64, byte: u8) -> u64 {
    (((state ^ (byte as u64)) as nat * FNV_PRIME as nat) % 0x1_0000_0000_0000_0000nat) as u64
}

/// The state reached from `state` after hashing every byte of `bytes`, in order.
pub open spec fn fnv_fold(state: u64, bytes: Seq<u8>) -> u64
    decreases bytes.len(),
{
    if bytes.len() == 0 {
        state
    } else {
        fnv_step(fnv_fold(state, bytes.drop_last()), bytes.last())
    }
}

/// Hashing `a` and then `b` reaches the same state as hashing `a + b`.
pub proof fn law_writes_compose(state: u64, a: Seq<u8>, b: Seq<u8>)
    ensures
        fnv_fold(state, a + b) == fnv_fold(fnv_fold(state, a), b),
    decreases b.len(),
{
    if b.len() == 0 {
        assert(a + b =~= a);
    } else {
        law_writes_compose(state, a, b.drop_last());
        assert((a + b).drop_last() =~= a + b.drop_last());
        assert((a + b).last() == b.last());
    }
}

/// The hexadecimal digit for a value below 16, in lower case.
pub open spec fn hex_digit(n: nat) -> char {
    if n < 10 {
        ((n + 48) as u8) as char
    } else {
        ((n - 10 + 97) as u8) as char
    }
}

/// The last `width` hexadecimal digits of `x`, most significant first,
/// padded with zeros.
pub open spec fn hex_digits(x: nat, width: nat) -> Seq<char>
    decreases width,
{
    if width == 0 {
        Seq::empty()
    } else {
        hex_digits(x / 16, (width - 1) as nat).push(hex_digit(x % 16))
    }
}

fn hex_char(n: u64) -> (c: char)
    requires
        n < 16,
    ensures
        c == hex_digit(n as nat),
{
    if n < 10 {
        ((n as u8) + 48) as char
    } else {
        ((n as u8) - 10 + 97) as char
    }
}

fn push_hex_digits(out: &mut String, x: u64, width: usize)
    ensures
        final(out)@ == old(out)@ + hex_digits(x as nat, width as nat),
    decreases width,
{
    if width > 0 {
        push_hex_digits(out, x / 16, width - 1);
        push_char(out, hex_char(x % 16));
    } else {
        assert(old(out)@ + Seq::<char>::empty() =~= old(out)@);
    }
}

/// 64-bit FNV-1a deterministic hasher for cross-process cache keys.
pub struct DeterministicHasher {
    state: u64,
}

impl View for DeterministicHasher {
    type V = u64;

    closed spec fn view(&self) -> u64 {
        self.state
    }
}

impl Default for DeterministicHasher {
    /// A hasher whose state is zero (not the FNV offset basis).
    fn default() -> (h: Self)
        ensures
            h@ == 0,
    {
        DeterministicHasher { state: 0 }
    }
}

impl DeterministicHasher {
    /// A hasher in the FNV-1a initial state.
    pub fn new() -> (h: Self)
        ensures
            h@ == FNV_OFFSET_BASIS,
    {
        DeterministicHasher { state: FNV_OFFSET_BASIS }
    }

    /// Feeds `bytes` into the hash, one FNV-1a round per byte.
    pub fn write_bytes(&mut self, bytes: &[u8])
        ensures
            final(self)@ == fnv_fold(old(self)@, bytes@),
    {
        let ghost start = self.state;
        let mut i: usize = 0;
        while i < bytes.len()
            invariant
                i <= bytes@.len(),
                self.state == fnv_fold(start, bytes@.take(i as int)),
            decreases bytes@.len() - i,
        {
            let b = bytes[i];
            assert(bytes@.take(i + 1).drop_last() =~= bytes@.take(i as int));
            let x = self.state ^ (b as u64);
            self.state = x.wrapping_mul(FNV_PRIME);
            i = i + 1;
        }
        assert(bytes@.take(i as int) =~= bytes@);
    }

    /// Feeds the UTF-8 encoding of `s` into the hash.
    pub fn write_str(&mut self, s: &str)
        ensures
            final(self)@ == fnv_fold(old(self)@, encode_utf8(s@)),
    {
        self.write_bytes(s.as_bytes());
    }

    /// The current state as 16 lower-case hexadecimal digits.
    pub fn finish_hex(&self) -> (res: String)
        ensures
            res@ == hex_digits(self@ as nat, 16),
    {
        let mut out = String::new();
        push_hex_digits(&mut out, self.state, 16);
        assert(Seq::<char>::empty() + hex_digits(self@ as nat, 16) =~= hex_digits(self@ as nat, 16));
        out
    }
}

} // verus!
