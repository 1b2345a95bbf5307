//! Word arithmetic: sign extension of instruction fields and 16-bit
//! wrapping addition.
use vstd::arithmetic::power2::{pow2, lemma2_to64};
use vstd::bits::lemma_u32_shl_is_mul;
use vstd::prelude::*;

verus! {

/// Number of distinct 16-bit words.
pub const WORD_SPAN: u32 = 0x1_0000;

/// The two's-complement value of the low `n` bits of `v`, read as a signed
/// number, taken modulo 2^16 (so that it is again a 16-bit word).
pub open spec fn sext(v: u16, n: nat) -> int {
    if v as int >= pow2((n - 1) as nat) {
        v as int + 0x1_0000 - pow2(n)
    } else {
        v as int
    }
}

/// 16-bit wrapping sum of two words.
pub open spec fn wrap_add(a: u16, b: u16) -> u16 {
    ((a as int + b as int) % 0x1_0000) as u16
}

proof fn lemma_sext_bits(v: u16, n: u16)
    by (bit_vector)
    requires
        1 <= n < 16,
        (v as u32) < (1u32 << n),
    ensures
        ((v >> ((n - 1) as u16)) & 1 != 0) == ((v as u32) >= (1u32 << ((n - 1) as u32))),
        ((v >> ((n - 1) as u16)) & 1 != 0) ==> (v | (0xFFFFu16 << n)) as u32 == v as u32
            + 0x1_0000u32 - (1u32 << n),
{
}

proof fn lemma_high_bits(v: u16, n: u16, i: u16)
    by (bit_vector)
    requires
        1 <= n < 16,
        n <= i < 16,
        (v as u32) < (1u32 << n),
    ensures
        ((v | (0xFFFFu16 << n)) >> i) & 1 == 1,
        (v >> i) & 1 == 0,
{
}

/// Sign extension replicates the field's top bit: for a width `n` in
/// 1..16 and a value `v` with no bit set at or above `n`, every bit of the
/// result from `n` up equals bit `n - 1` of `v`, and the low `n` bits are
/// those of `v`. At full width sign extension changes nothing.
pub proof fn sign_extension_law(v: u16, n: u16)
    requires
        1 <= n < 16,
        (v as int) < pow2(n as nat),
    ensures
        forall|i: u16|
            n <= i < 16 ==> #[trigger] ((sext(v, n as nat) as u16) >> i) & 1 == (v >> ((n - 1) as u16))
                & 1,
        forall|i: u16| i < n ==> #[trigger] ((sext(v, n as nat) as u16) >> i) & 1 == (v >> i) & 1,
        sext(v, 16) == v as int,
{
    lemma2_to64();
    lemma_u32_shl_is_mul(1u32, n as u32);
    lemma_u32_shl_is_mul(1u32, (n - 1) as u32);
    assert((1u32 << (n as u32)) == (1u32 << n)) by (bit_vector);
    lemma_sext_bits(v, n);
    let e = v | (0xFFFFu16 << n);
    if (v >> ((n - 1) as u16)) & 1 != 0 {
        assert(sext(v, n as nat) as u16 == e);
        assert forall|i: u16| n <= i < 16 implies #[trigger] ((sext(v, n as nat) as u16) >> i) & 1
            == (v >> ((n - 1) as u16)) & 1 by {
            lemma_high_bits(v, n, i);
            assert((v >> ((n - 1) as u16)) & 1 != 0 ==> (v >> ((n - 1) as u16)) & 1 == 1)
                by (bit_vector);
        }
        assert forall|i: u16| i < n implies #[trigger] ((sext(v, n as nat) as u16) >> i) & 1 == (v
            >> i) & 1 by {
            assert(i < n ==> ((v | (0xFFFFu16 << n)) >> i) & 1 == (v >> i) & 1) by (bit_vector);
        }
    } else {
        assert(sext(v, n as nat) as u16 == v);
        assert forall|i: u16| n <= i < 16 implies #[trigger] ((sext(v, n as nat) as u16) >> i) & 1
            == (v >> ((n - 1) as u16)) & 1 by {
            lemma_high_bits(v, n, i);
        }
    }
}

/// Extends the sign of the `bit_count`-bit field held in `value` to a full
/// word: when bit `bit_count - 1` is set, every bit from `bit_count` up is set.
pub fn sign_extend(value: u16, bit_count: usize) -> (r: u16)
    requires
        1 <= bit_count <= 16,
        (value as int) < pow2(bit_count as nat),
    ensures
        r as int == sext(value, bit_count as nat),
{
    proof {
        lemma2_to64();
    }
    if bit_count == 16 {
        return value;
    }
    let n: u16 = bit_count as u16;
    proof {
        lemma_u32_shl_is_mul(1u32, n as u32);
        lemma_u32_shl_is_mul(1u32, (n - 1) as u32);
        assert((1u32 << (n as u32)) == (1u32 << n)) by (bit_vector);
        lemma_sext_bits(value, n);
    }
    if (value >> (n - 1)) & 1 != 0 {
        value | (0xFFFFu16 << n)
    } else {
        value
    }
}

/// Adds two words with wraparound at 16 bits.
pub fn add_wrapping(a: u16, b: u16) -> (r: u16)
    ensures
        r == wrap_add(a, b),
{
    let s: u32 = a as u32 + b as u32;
    (s % WORD_SPAN) as u16
}

} // verus!
