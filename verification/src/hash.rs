//! Deterministic hash helpers for datasets, models and audit records.
//!
//! The hash is a small non-cryptographic 32-bit mix (FNV-1a style) whose whole
//! behaviour is stated by the spec functions below, so every digest the core
//! emits is pinned down to the exact character.

use vstd::prelude::*;

verus! {

/// FNV-1a offset basis used as the initial state.
pub const FNV_OFFSET_BASIS: u32 = 2166136261;

/// FNV-1a prime used by each mixing step.
pub const FNV_PRIME: u32 = 16777619;

/// One mixing step: xor the byte in, then multiply by the prime (wrapping).
pub open spec fn hash_step(state: u32, b: u8) -> u32 {
    vstd::wrapping::u32_specs::wrapping_mul(state ^ (b as u32), FNV_PRIME)
}

/// Fold a byte sequence into the running 32-bit state, front to back.
pub open spec fn hash_bytes(state: u32, bytes: Seq<u8>) -> u32
    decreases bytes.len(),
{
    if bytes.len() == 0 {
        state
    } else {
        hash_bytes(hash_step(state, bytes.first()), bytes.drop_first())
    }
}

/// Folding one more byte at the back equals one more step after the fold.
pub proof fn lemma_hash_bytes_snoc(state: u32, bytes: Seq<u8>, b: u8)
    ensures
        hash_bytes(state, bytes.push(b)) == hash_step(hash_bytes(state, bytes), b),
    decreases bytes.len(),
{
    assert(bytes.push(b).len() == bytes.len() + 1);
    if bytes.len() == 0 {
        assert(bytes.push(b).first() == b);
        assert(bytes.push(b).drop_first() =~= Seq::<u8>::empty());
        assert(hash_bytes(state, bytes.push(b)) == hash_bytes(
            hash_step(state, b),
            Seq::<u8>::empty(),
        ));
        assert(hash_bytes(hash_step(state, b), Seq::<u8>::empty()) == hash_step(state, b));
        assert(hash_bytes(state, bytes) == state);
    } else {
        assert(bytes.push(b).first() == bytes.first());
        assert(bytes.push(b).drop_first() =~= bytes.drop_first().push(b));
        assert(hash_bytes(state, bytes.push(b)) == hash_bytes(
            hash_step(state, bytes.first()),
            bytes.drop_first().push(b),
        ));
        lemma_hash_bytes_snoc(hash_step(state, bytes.first()), bytes.drop_first(), b);
    }
}

/// Folding a concatenation equals folding the parts one after the other.
pub proof fn lemma_hash_bytes_concat(state: u32, a: Seq<u8>, b: Seq<u8>)
    ensures
        hash_bytes(state, a + b) == hash_bytes(hash_bytes(state, a), b),
    decreases a.len(),
{
    if a.len() == 0 {
        assert(a + b =~= b);
    } else {
        assert((a + b).drop_first() =~= a.drop_first() + b);
        lemma_hash_bytes_concat(hash_step(state, a.first()), a.drop_first(), b);
    }
}

/// The lowercase hexadecimal character for a value below 16.
pub open spec fn hex_char(n: u32) -> char {
    if n == 0 {
        '0'
    } else if n == 1 {
        '1'
    } else if n == 2 {
        '2'
    } else if n == 3 {
        '3'
    } else if n == 4 {
        '4'
    } else if n == 5 {
        '5'
    } else if n == 6 {
        '6'
    } else if n == 7 {
        '7'
    } else if n == 8 {
        '8'
    } else if n == 9 {
        '9'
    } else if n == 10 {
        'a'
    } else if n == 11 {
        'b'
    } else if n == 12 {
        'c'
    } else if n == 13 {
        'd'
    } else if n == 14 {
        'e'
    } else {
        'f'
    }
}

/// Whether a character is a lowercase hexadecimal digit.
pub open spec fn is_hex_digit(c: char) -> bool {
    ('0' <= c && c <= '9') || ('a' <= c && c <= 'f')
}

/// The zero-padded 8-character lowercase hex rendering of a 32-bit value.
pub open spec fn hex8(state: u32) -> Seq<char> {
    Seq::new(8, |i: int| hex_char((state >> (28 - 4 * i) as u32) & 0xf))
}

/// Rotate a 32-bit value left by five bits.
pub open spec fn rot5(x: u32) -> u32 {
    (x << 5u32) | (x >> 27u32)
}

/// One round of the digest expansion used for 64-character hashes.
pub open spec fn mix_round(state: u32, i: u32) -> u32 {
    vstd::wrapping::u32_specs::wrapping_add(rot5(state), 0x9E37_79B9)
        ^ vstd::wrapping::u32_specs::wrapping_mul(i, 0x85EB_CA6B)
}

/// The remaining rounds of the 64-character expansion, from round `i` on.
pub open spec fn hex64_rounds(state: u32, i: int) -> Seq<char>
    decreases 8 - i,
{
    if i < 0 || i >= 8 {
        Seq::empty()
    } else {
        hex8(mix_round(state, i as u32)) + hex64_rounds(mix_round(state, i as u32), i + 1)
    }
}

/// The 64-character lowercase hex digest expanded from a 32-bit state.
pub open spec fn hex64(state: u32) -> Seq<char> {
    hex64_rounds(state, 0)
}

/// The expansion from round `i` has `8 * (8 - i)` hexadecimal characters.
pub proof fn lemma_hex64_rounds_shape(state: u32, i: int)
    requires
        0 <= i <= 8,
    ensures
        hex64_rounds(state, i).len() == 8 * (8 - i),
        forall|k: int|
            0 <= k < hex64_rounds(state, i).len() ==> is_hex_digit(#[trigger] hex64_rounds(state, i)[k]),
    decreases 8 - i,
{
    if i < 8 {
        lemma_hex64_rounds_shape(mix_round(state, i as u32), i + 1);
    }
}

/// The 64-character digest is 64 hexadecimal characters.
pub proof fn lemma_hex64_shape(state: u32)
    ensures
        hex64(state).len() == 64,
        forall|k: int| 0 <= k < 64 ==> is_hex_digit(#[trigger] hex64(state)[k]),
{
    lemma_hex64_rounds_shape(state, 0);
}

/// Extremely small non-cryptographic hash used for identifiers and audits.
#[derive(Copy, Clone, Debug)]
pub struct SimpleHash {
    state: u32,
}

impl View for SimpleHash {
    type V = u32;

    closed spec fn view(&self) -> u32 {
        self.state
    }
}

/// The lowercase hex character for a value below 16, as executable code.
fn hex_char_exec(n: u32) -> (c: char)
    requires
        n < 16,
    ensures
        c == hex_char(n),
{
    if n == 0 {
        '0'
    } else if n == 1 {
        '1'
    } else if n == 2 {
        '2'
    } else if n == 3 {
        '3'
    } else if n == 4 {
        '4'
    } else if n == 5 {
        '5'
    } else if n == 6 {
        '6'
    } else if n == 7 {
        '7'
    } else if n == 8 {
        '8'
    } else if n == 9 {
        '9'
    } else if n == 10 {
        'a'
    } else if n == 11 {
        'b'
    } else if n == 12 {
        'c'
    } else if n == 13 {
        'd'
    } else if n == 14 {
        'e'
    } else {
        'f'
    }
}

/// Append the 8-character hex rendering of `state` to a character vector.
pub fn push_hex8_chars(out: &mut Vec<char>, state: u32)
    ensures
        final(out)@ == old(out)@ + hex8(state),
{
    let mut i: usize = 0;
    while i < 8
        invariant
            i <= 8,
            out@ == old(out)@ + hex8(state).take(i as int),
        decreases 8 - i,
    {
        let shift: u32 = 28 - 4 * (i as u32);
        let nib: u32 = (state >> shift) & 0xf;
        assert((state >> shift) & 0xf < 16) by (bit_vector);
        out.push(hex_char_exec(nib));
        proof {
            assert(hex8(state).take(i + 1) =~= hex8(state).take(i as int).push(
                hex8(state)[i as int],
            ));
        }
        i = i + 1;
    }
    proof {
        assert(hex8(state).take(8) =~= hex8(state));
    }
}

/// Append the 8-character hex rendering of `state` to a string.
fn push_hex8(out: &mut String, state: u32)
    ensures
        final(out)@ == old(out)@ + hex8(state),
{
    let mut i: usize = 0;
    while i < 8
        invariant
            i <= 8,
            out@ == old(out)@ + hex8(state).take(i as int),
        decreases 8 - i,
    {
        let shift: u32 = 28 - 4 * (i as u32);
        let nib: u32 = (state >> shift) & 0xf;
        assert((state >> shift) & 0xf < 16) by (bit_vector);
        crate::text::string_push(out, hex_char_exec(nib));
        proof {
            assert(hex8(state).take(i + 1) =~= hex8(state).take(i as int).push(
                hex8(state)[i as int],
            ));
        }
        i = i + 1;
    }
    proof {
        assert(hex8(state).take(8) =~= hex8(state));
    }
}

impl SimpleHash {
    /// Create a new hash state with the FNV offset basis.
    pub fn new() -> (r: Self)
        ensures
            r@ == FNV_OFFSET_BASIS,
    {
        SimpleHash { state: FNV_OFFSET_BASIS }
    }

    /// Feed bytes into the hash function.
    pub fn update(&mut self, bytes: &[u8])
        ensures
            final(self)@ == hash_bytes(old(self)@, bytes@),
    {
        let mut st: u32 = self.state;
        let mut i: usize = 0;
        while i < bytes.len()
            invariant
                i <= bytes@.len(),
                st == hash_bytes(old(self)@, bytes@.take(i as int)),
            decreases bytes@.len() - i,
        {
            let b: u8 = bytes[i];
            st = (st ^ (b as u32)).wrapping_mul(FNV_PRIME);
            proof {
                assert(bytes@.take(i + 1) =~= bytes@.take(i as int).push(b));
                lemma_hash_bytes_snoc(old(self)@, bytes@.take(i as int), b);
            }
            i = i + 1;
        }
        proof {
            assert(bytes@.take(bytes@.len() as int) =~= bytes@);
        }
        self.state = st;
    }

    /// Finalise the hash and return a 32-bit value.
    pub fn finish32(&self) -> (r: u32)
        ensures
            r == self@,
    {
        self.state
    }

    /// Finalise the hash and return an 8-character lowercase hex string.
    pub fn finish_hex(&self) -> (r: String)
        ensures
            r@ == hex8(self@),
    {
        let mut out = String::new();
        push_hex8(&mut out, self.state);
        out
    }

    /// Finalise the hash and return a 64-character lowercase hex string.
    pub fn finish_hex64(&self) -> (r: String)
        ensures
            r@ == hex64(self@),
            r@.len() == 64,
            forall|k: int| 0 <= k < 64 ==> is_hex_digit(#[trigger] r@[k]),
    {
        let mut out = String::new();
        let mut state: u32 = self.state;
        let mut i: usize = 0;
        while i < 8
            invariant
                i <= 8,
                hex64(self@) =~= out@ + hex64_rounds(state, i as int),
            decreases 8 - i,
        {
            let rotated: u32 = (state << 5u32) | (state >> 27u32);
            state = rotated.wrapping_add(0x9E37_79B9) ^ (i as u32).wrapping_mul(0x85EB_CA6B);
            push_hex8(&mut out, state);
            i = i + 1;
        }
        proof {
            lemma_hex64_shape(self@);
        }
        out
    }
}

impl Default for SimpleHash {
    /// A fresh hash state, as `new` gives it.
    fn default() -> (r: Self)
        ensures
            r@ == FNV_OFFSET_BASIS,
    {
        Self::new()
    }
}

} // verus!
