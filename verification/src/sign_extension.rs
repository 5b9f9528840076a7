use vstd::prelude::*;
use vstd::arithmetic::power2::{pow2, lemma2_to64, lemma2_to64_rest};

verus! {

/// The bits from bit `b` up, as a 16-bit value.
pub open spec fn high_bits_i16(b: nat) -> i16 {
    if b >= 16 { 0i16 } else { (-(pow2(b) as int)) as i16 }
}

/// The bits from bit `b` up, as a 32-bit value.
pub open spec fn high_bits_i32(b: nat) -> i32 {
    if b >= 32 { 0i32 } else { (-(pow2(b) as int)) as i32 }
}

/// The value `value` with the bits from `before_bit` up set when bit `before_bit - 1`
/// is set.
pub open spec fn spec_sign_extention_i16(value: i16, before_bit: usize) -> i16 {
    if (value >> ((before_bit - 1) as usize)) & 1 == 0 {
        value
    } else {
        value | high_bits_i16(before_bit as nat)
    }
}

/// The value `value` with the bits from `before_bit` up set when bit `before_bit - 1`
/// is set.
pub open spec fn spec_sign_extention_i32(value: i32, before_bit: usize) -> i32 {
    if (value >> ((before_bit - 1) as usize)) & 1 == 0 {
        value
    } else {
        value | high_bits_i32(before_bit as nat)
    }
}

proof fn lemma_shl_i16_bits(k: usize, u: u16)
    by (bit_vector)
    requires
        u == k as u16,
    ensures
        k < 15 ==> (1i16 << k) as int == (1u16 << u) as int,
        k == 15 ==> (1i16 << k) as int == -0x8000,
{
}

proof fn lemma_shl_i32_bits(k: usize, u: u32)
    by (bit_vector)
    requires
        u == k as u32,
    ensures
        k < 31 ==> (1i32 << k) as int == (1u32 << u) as int,
        k == 31 ==> (1i32 << k) as int == -0x8000_0000,
{
}

proof fn lemma_shl_i64_bits(k: usize, u: u64)
    by (bit_vector)
    requires
        u == k as u64,
    ensures
        k < 63 ==> (1i64 << k) as int == (1u64 << u) as int,
{
}

proof fn lemma_sign_bits_i16(value: i16, b: usize, e: i16)
    by (bit_vector)
    ensures
        1 <= b < 16 && 0 <= value && (value as i32) < (1i32 << b) && (value as i32) >= (1i32 << ((b - 1) as usize))
            ==> (value >> ((b - 1) as usize)) & 1 == 1,
        1 <= b < 16 && 0 <= value && (value as i32) < (1i32 << b) && (e as i32) == 0 - (1i32 << b) && (value >> ((b
            - 1) as usize)) & 1 != 0 ==> ((value | e) as i32) == (value as i32) - (1i32 << b) && (value as i32) >= (1i32
            << ((b - 1) as usize)),
        0 <= value && (value >> 15usize) & 1 != 0 ==> false,
{
}

proof fn lemma_sign_bits_i32(value: i32, b: usize, e: i32)
    by (bit_vector)
    ensures
        1 <= b < 32 && 0 <= value && (value as i64) < (1i64 << b) && (value as i64) >= (1i64 << ((b - 1) as usize))
            ==> (value >> ((b - 1) as usize)) & 1 == 1,
        1 <= b < 32 && 0 <= value && (value as i64) < (1i64 << b) && (e as i64) == 0 - (1i64 << b) && (value >> ((b
            - 1) as usize)) & 1 != 0 ==> ((value | e) as i64) == (value as i64) - (1i64 << b) && (value as i64) >= (1i64
            << ((b - 1) as usize)),
        0 <= value && (value >> 31usize) & 1 != 0 ==> false,
{
}

proof fn lemma_shl_i16(k: usize)
    requires k < 16,
    ensures
        k < 15 ==> (1i16 << k) as int == pow2(k as nat),
        k == 15 ==> (1i16 << k) as int == -0x8000,
{
    lemma2_to64();
    let u = k as u16;
    vstd::bits::lemma_u16_shl_is_mul(1, u);
    vstd::bits::lemma_u16_pow2_no_overflow(u as nat);
    lemma_shl_i16_bits(k, u);
}

proof fn lemma_shl_i32(k: usize)
    requires k < 31,
    ensures (1i32 << k) as int == pow2(k as nat),
{
    lemma2_to64();
    let u = k as u32;
    vstd::bits::lemma_u32_shl_is_mul(1, u);
    vstd::bits::lemma_u32_pow2_no_overflow(u as nat);
    lemma_shl_i32_bits(k, u);
}

/// Extends the sign of a `before_bit`-bit value held in the low bits of `value`:
/// when bit `before_bit - 1` is set, all bits from `before_bit` up are set.
pub fn sign_extention_i16(value: i16, before_bit: usize) -> (r: i16)
    requires
        1 <= before_bit <= 16,
    ensures
        r == spec_sign_extention_i16(value, before_bit),
        0 <= value < pow2(before_bit as nat) ==> r == (if value < pow2((before_bit - 1) as nat) {
            value as int
        } else {
            value - pow2(before_bit as nat)
        }),
{
    proof { lemma2_to64(); }
    if (value >> (before_bit - 1)) & 1 == 0 {
        proof {
            let b = before_bit;
            if 0 <= value < pow2(before_bit as nat) && value >= pow2((before_bit - 1) as nat) {
                if b < 16 {
                    lemma_shl_i32(b);
                    lemma_shl_i32((b - 1) as usize);
                    lemma_sign_bits_i16(value, b, 0);
                }
                vstd::arithmetic::power2::lemma_pow2_strictly_increases(15, 16);
            }
        }
        value
    } else {
        let mut extention: i16 = 0;
        let ghost b = before_bit;
        let n = 16 - before_bit;
        for i in 0..n
            invariant
                n == 16 - before_bit,
                b == before_bit,
                1 <= b <= 16,
                extention as int == (if b + i <= 15 || i == 0 { pow2((b + i) as nat) - pow2(b as nat) } else { -pow2(b as nat) }),
        {
            proof {
                lemma2_to64();
                lemma_shl_i16((b + i) as usize);
                vstd::arithmetic::power2::lemma_pow2_unfold((b + i + 1) as nat);
                if i > 0 {
                    vstd::arithmetic::power2::lemma_pow2_strictly_increases(b as nat, (b + i) as nat);
                }
            }
            extention += 1 << (before_bit + i);
        }
        proof {
            if b < 16 {
                lemma_shl_i16(b);
                assert(extention == high_bits_i16(b as nat));
                if 0 <= value < pow2(before_bit as nat) {
                    lemma_shl_i32(b);
                    lemma_shl_i32((b - 1) as usize);
                    let e = extention;
                    lemma_sign_bits_i16(value, b, e);
                }
            } else {
                if 0 <= value < pow2(before_bit as nat) {
                    lemma_shl_i16(15);
                    lemma_sign_bits_i16(value, 16, 0);
                }
            }
        }
        value | extention
    }
}

proof fn lemma_shl_i32n(k: usize)
    requires k < 32,
    ensures
        k < 31 ==> (1i32 << k) as int == pow2(k as nat),
        k == 31 ==> (1i32 << k) as int == -0x8000_0000,
{
    lemma2_to64();
    let u = k as u32;
    vstd::bits::lemma_u32_shl_is_mul(1, u);
    vstd::bits::lemma_u32_pow2_no_overflow(u as nat);
    lemma_shl_i32_bits(k, u);
}

proof fn lemma_shl_i64(k: usize)
    requires k < 63,
    ensures (1i64 << k) as int == pow2(k as nat),
{
    lemma2_to64();
    lemma2_to64_rest();
    let u = k as u64;
    vstd::bits::lemma_u64_shl_is_mul(1, u);
    vstd::bits::lemma_u64_pow2_no_overflow(u as nat);
    lemma_shl_i64_bits(k, u);
}

/// Extends the sign of a `before_bit`-bit value held in the low bits of `value`:
/// when bit `before_bit - 1` is set, all bits from `before_bit` up are set.
pub fn sign_extention_i32(value: i32, before_bit: usize) -> (r: i32)
    requires
        1 <= before_bit <= 32,
    ensures
        r == spec_sign_extention_i32(value, before_bit),
        0 <= value < pow2(before_bit as nat) ==> r == (if value < pow2((before_bit - 1) as nat) {
            value as int
        } else {
            value - pow2(before_bit as nat)
        }),
{
    proof { lemma2_to64(); }
    if (value >> (before_bit - 1)) & 1 == 0 {
        proof {
            let b = before_bit;
            if 0 <= value < pow2(before_bit as nat) && value >= pow2((before_bit - 1) as nat) {
                if b < 32 {
                    lemma_shl_i64(b);
                    lemma_shl_i64((b - 1) as usize);
                    lemma_sign_bits_i32(value, b, 0);
                }
                vstd::arithmetic::power2::lemma_pow2_strictly_increases(31, 32);
            }
        }
        value
    } else {
        let mut extention: i32 = 0;
        let ghost b = before_bit;
        let n = 32 - before_bit;
        for i in 0..n
            invariant
                n == 32 - before_bit,
                b == before_bit,
                1 <= b <= 32,
                extention as int == (if b + i <= 31 || i == 0 { pow2((b + i) as nat) - pow2(b as nat) } else { -pow2(b as nat) }),
        {
            proof {
                lemma2_to64();
                lemma_shl_i32n((b + i) as usize);
                vstd::arithmetic::power2::lemma_pow2_unfold((b + i + 1) as nat);
                if i > 0 {
                    vstd::arithmetic::power2::lemma_pow2_strictly_increases(b as nat, (b + i) as nat);
                }
            }
            extention += 1 << (before_bit + i);
        }
        proof {
            if b < 32 {
                lemma_shl_i32n(b);
                assert(extention == high_bits_i32(b as nat));
                if 0 <= value < pow2(before_bit as nat) {
                    lemma_shl_i64(b);
                    lemma_shl_i64((b - 1) as usize);
                    let e = extention;
                    lemma_sign_bits_i32(value, b, e);
                }
            } else {
                if 0 <= value < pow2(before_bit as nat) {
                    lemma_shl_i32n(31);
                    lemma_sign_bits_i32(value, 32, 0);
                }
            }
        }
        value | extention
    }
}

} // verus!
