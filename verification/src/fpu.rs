use vstd::prelude::*;
use vstd::arithmetic::power2::{pow2, lemma2_to64, lemma2_to64_rest};
use vstd::bits::{low_bits_mask, lemma_u32_low_bits_mask_is_mod, lemma_u64_low_bits_mask_is_mod};
use vstd::std_specs::bits::{u64_leading_zeros, axiom_u64_leading_zeros};

verus! {

/// A single-precision floating-point number held as its 32 bits
/// (1 sign bit, 8 exponent bits, 23 fraction bits).
#[derive(Copy, Clone, Debug)]
pub struct FloatingPoint {
    pub value: u32,
}

/// The low `n` bits of `num`.
pub open spec fn spec_to_n_bits_u32(num: u32, n: nat) -> u32 {
    (num as int % pow2(n) as int) as u32
}

/// The low `n` bits of `num`.
pub open spec fn spec_to_n_bits_u64(num: u64, n: nat) -> u64 {
    (num as int % pow2(n) as int) as u64
}

/// Keeps the low `n` bits of `num`.
pub fn to_n_bits_u32(num: u32, n: u32) -> (r: u32)
    requires
        n < 32,
    ensures
        r == spec_to_n_bits_u32(num, n as nat),
        r as int == num as int % pow2(n as nat) as int,
        (r as int) < pow2(n as nat),
{
    proof {
        vstd::bits::lemma_u32_pow2_no_overflow(n as nat);
        vstd::bits::lemma_u32_shl_is_mul(1, n);
        lemma_u32_low_bits_mask_is_mod(num, n as nat);
        vstd::arithmetic::power2::lemma_pow2_pos(n as nat);
    }
    let mut m: u32 = 1 << n;
    m -= 1;
    assert(m == low_bits_mask(n as nat) as u32);
    num & m
}

/// Keeps the low `n` bits of `num`.
pub fn to_n_bits_u64(num: u64, n: u32) -> (r: u64)
    requires
        n < 64,
    ensures
        r == spec_to_n_bits_u64(num, n as nat),
        r as int == num as int % pow2(n as nat) as int,
        (r as int) < pow2(n as nat),
{
    proof {
        vstd::bits::lemma_u64_pow2_no_overflow(n as nat);
        vstd::bits::lemma_u64_shl_is_mul(1, n as u64);
        lemma_u64_low_bits_mask_is_mod(num, n as nat);
        vstd::arithmetic::power2::lemma_pow2_pos(n as nat);
    }
    let mut m: u64 = 1 << n;
    m -= 1;
    assert(m == low_bits_mask(n as nat) as u64);
    num & m
}

/// The sign bit of `v`.
pub open spec fn sign_bit(v: u32) -> u32 {
    v / 0x8000_0000
}

/// The biased exponent field of `v`.
pub open spec fn exponent_field(v: u32) -> u32 {
    (v / 0x80_0000) % 0x100
}

/// The fraction field of `v`.
pub open spec fn fraction_field(v: u32) -> u32 {
    v % 0x80_0000
}

/// Whether `v` is a NaN: all exponent bits set and a fraction that is not zero.
pub open spec fn is_nan_bits(v: u32) -> bool {
    exponent_field(v) == 255 && fraction_field(v) != 0
}

/// Whether `v` is an infinity: all exponent bits set and a zero fraction.
pub open spec fn is_inf_bits(v: u32) -> bool {
    exponent_field(v) == 255 && fraction_field(v) == 0
}

/// The unpacked operands of the adder: the mantissa with its hidden bit (none when the
/// exponent field is 0) and the exponent (an exponent field of 0 reads as 1).
pub open spec fn unpacked_mantissa(v: u32) -> u32 {
    if exponent_field(v) == 0 {
        spec_to_n_bits_u32(fraction_field(v), 25)
    } else {
        spec_to_n_bits_u32(fraction_field(v) | 0x800000, 25)
    }
}

pub open spec fn unpacked_exponent(v: u32) -> u32 {
    if exponent_field(v) == 0 { 1 } else { exponent_field(v) }
}

/// The alignment stage of the adder: the mantissa `ms`, exponent `es` and sign `ss` of
/// the operand of larger magnitude, and the other mantissa shifted left by 31 and
/// then right by the exponent difference (at most 31), as `mia`.
pub open spec fn fadd_align(x: u32, y: u32) -> (u32, u64, u32, u32) {
    let m1a = unpacked_mantissa(x);
    let e1a = unpacked_exponent(x);
    let m2a = unpacked_mantissa(y);
    let e2a = unpacked_exponent(y);
    let ce: u32 = if e1a > e2a { 0 } else { 1 };
    let tde: u32 = if e1a > e2a {
        spec_to_n_bits_u32((e1a - e2a) as u32, 8)
    } else {
        spec_to_n_bits_u32((e2a - e1a) as u32, 8)
    };
    let de: u32 = if tde >> 5 != 0 { 31 } else { spec_to_n_bits_u32(tde, 5) };
    let sel: u32 = if de == 0 {
        if m1a > m2a { 0 } else { 1 }
    } else {
        ce
    };
    let ms: u32 = if sel == 0 { m1a } else { m2a };
    let mi: u32 = if sel == 0 { m2a } else { m1a };
    let es: u32 = if sel == 0 { e1a } else { e2a };
    let ss: u32 = if sel == 0 { sign_bit(x) } else { sign_bit(y) };
    let mie: u64 = spec_to_n_bits_u64(((mi as u64) << 31u64) as u64, 56);
    let mia: u64 = spec_to_n_bits_u64(mie >> (de as u64), 56);
    (ms, mia, es, ss)
}

/// The addition stage of the adder: the mantissas are added (or subtracted, for
/// operands of different signs), and a carry out is folded into the exponent.
/// Gives the exponent, the 27-bit mantissa and the sticky bit.
pub open spec fn fadd_sum(ms: u32, mia: u64, es: u32, same_sign: bool) -> (u32, u64, u32) {
    let tstck: u32 = if spec_to_n_bits_u64(mia, 29) != 0 { 1 } else { 0 };
    let mye: u64 = if same_sign {
        spec_to_n_bits_u64((((ms as u64) << 2u64) + (mia >> 29u64)) as u64, 27)
    } else {
        spec_to_n_bits_u64((((ms as u64) << 2u64) - (mia >> 29u64)) as u64, 27)
    };
    let esi: u32 = spec_to_n_bits_u32((es + 1) as u32, 8);
    if mye & (1u64 << 26u64) != 0 {
        if esi == 255 {
            (255, 1u64 << 25u64, 0)
        } else {
            (esi, spec_to_n_bits_u64(mye >> 1u64, 27), tstck | (mye & 1) as u32)
        }
    } else {
        (es, mye, tstck)
    }
}

/// The normalisation and rounding stage of the adder: the mantissa is shifted left by
/// its leading zeros (less when the exponent would fall below 1), rounded to nearest
/// with ties to even, and a carry of the rounding goes into the exponent.
/// Gives the exponent and fraction fields of the result.
pub open spec fn fadd_round(eyd: u32, myd: u64, stck: u32, same_sign: bool) -> (u32, u64) {
    let se: u32 = (u64_leading_zeros(spec_to_n_bits_u64(myd, 26)) - 38) as u32;
    let eyf: int = eyd as int - se as int;
    let myf: u64 = if eyf > 0 {
        spec_to_n_bits_u64(myd << (se as u64), 56)
    } else if eyd & 31 == 0 {
        0
    } else {
        spec_to_n_bits_u64(myd << (((eyd & 31) - 1) as u64), 56)
    };
    let eyr: u32 = if eyf > 0 { (eyf as i64 & 0xFF) as u32 } else { 0 };
    let round_up = (myf & 0b10 != 0 && myf & 0b1 == 0 && stck == 0 && myf & 0b100 != 0)
        || (myf & 0b10 != 0 && myf & 0b1 == 0 && same_sign && stck == 1)
        || (myf & 0b10 != 0 && myf & 0b1 != 0);
    let myr: u64 = if round_up {
        spec_to_n_bits_u64((spec_to_n_bits_u64(myf >> 2u64, 25) + 1) as u64, 25)
    } else {
        spec_to_n_bits_u64(myf >> 2u64, 25)
    };
    let eyri: u32 = spec_to_n_bits_u32((eyr + 1) as u32, 8);
    if (myr >> 24u64) & 1 != 0 {
        (eyri, 0)
    } else if spec_to_n_bits_u64(myr, 24) == 0 {
        (0, 0)
    } else {
        (eyr, spec_to_n_bits_u64(myr, 23))
    }
}

/// The packing stage of the adder: infinities and NaNs among the operands decide the
/// result as IEEE 754 prescribes (a NaN keeps its payload and becomes quiet; the sum
/// of infinities of different signs is a NaN); otherwise the result is packed from
/// the sign `ss` of the larger operand (the AND of both signs for a zero result), and
/// the exponent `ey` and fraction `my` computed by the previous stages.
pub open spec fn fadd_pack(x: u32, y: u32, ss: u32, ey: u32, my: u64) -> u32 {
    let s1 = sign_bit(x);
    let e1 = exponent_field(x);
    let m1 = fraction_field(x);
    let s2 = sign_bit(y);
    let e2 = exponent_field(y);
    let m2 = fraction_field(y);
    let sy: u32 = if ey == 0 && my == 0 { s1 & s2 } else { ss };
    let nzm1: u32 = if spec_to_n_bits_u32(m1, 23) != 0 { 1 } else { 0 };
    let nzm2: u32 = if spec_to_n_bits_u32(m2, 23) != 0 { 1 } else { 0 };
    if e1 == 255 && e2 != 255 {
        (s1 * 0x8000_0000 + 255 * 0x80_0000 + nzm1 * 0x40_0000 + spec_to_n_bits_u32(m1, 22)) as u32
    } else if e1 != 255 && e2 == 255 {
        (s2 * 0x8000_0000 + 255 * 0x80_0000 + nzm2 * 0x40_0000 + spec_to_n_bits_u32(m2, 22)) as u32
    } else if e1 == 255 && e2 == 255 && nzm1 == 1 {
        (s1 * 0x8000_0000 + 255 * 0x80_0000 + 0x40_0000 + spec_to_n_bits_u32(m1, 22)) as u32
    } else if e1 == 255 && e2 == 255 && nzm2 == 1 {
        (s2 * 0x8000_0000 + 255 * 0x80_0000 + 0x40_0000 + spec_to_n_bits_u32(m2, 22)) as u32
    } else if e1 == 255 && e2 == 255 && s1 == s2 {
        (s1 * 0x8000_0000 + 255 * 0x80_0000) as u32
    } else if e1 == 255 && e2 == 255 {
        (0x8000_0000u32 + 255 * 0x80_0000 + 0x40_0000) as u32
    } else {
        (sy * 0x8000_0000 + ey * 0x80_0000 + my) as u32
    }
}

/// The bits of the sum of `x` and `y` that the FPU of the machine computes: the
/// stages of its adder circuit, one after the other.
pub open spec fn fadd_bits(x: u32, y: u32) -> u32 {
    let same_sign = sign_bit(x) == sign_bit(y);
    let (ms, mia, es, ss) = fadd_align(x, y);
    let (eyd, myd, stck) = fadd_sum(ms, mia, es, same_sign);
    let (ey, my) = fadd_round(eyd, myd, stck, same_sign);
    fadd_pack(x, y, ss, ey, my)
}


proof fn lemma_hidden_bit(m: u32)
    by (bit_vector)
    ensures
        m < 0x800000 ==> m | 0x800000 == m + 0x800000,
{
}

proof fn lemma_align_bits(tde: u32, m: u64, mie: u64, d: u64)
    by (bit_vector)
    ensures
        tde < 32 ==> tde >> 5 == 0,
        tde >= 32 ==> tde >> 5 != 0,
        m < 0x1000000 ==> (m << 31u64) == m * 0x8000_0000,
        mie < 0x80_0000_0000_0000 ==> mie >> d <= mie,
        mie >> 0u64 == mie,
        m < 0x1000000 && mie == m * 0x8000_0000 && d == 0 ==> (mie >> d) >> 29u64 == m * 4,
        m < 0x1000000 && mie == m * 0x8000_0000 && 1 <= d <= 31 ==> (mie >> d) >> 29u64 <= m * 2,
{
}

proof fn lemma_sum_bits(ms: u64, mia: u64)
    by (bit_vector)
    ensures
        ms < 0x1000000 ==> ms << 2u64 == ms * 4,
        mia < 0x100_0000_0000_0000 ==> mia >> 29u64 <= 0x800_0000,
        1u64 << 25u64 == 0x200_0000,
{
}

proof fn lemma_round_bits(myd26: u64, l: u64, eyf: i64, eyd: u32)
    by (bit_vector)
    ensures
        myd26 < 0x400_0000 && l < 38 ==> (myd26 >> ((63u64 - l) as u64)) & 1u64 == 0u64,
        (eyf & 0xFF) <= 255,
        eyf > 0 ==> (eyf & 0xFF) >= 0,
        eyd & 31 <= 31,
{
}

proof fn lemma_pack_bits(s1: u32, s2: u32, sy: u32, nzm1: u32, nzm2: u32, ey: u32)
    by (bit_vector)
    ensures
        s1 <= 1 && s2 <= 1 ==> s1 & s2 <= 1,
        s1 <= 1 ==> s1 << 31u32 == s1 * 0x8000_0000,
        s2 <= 1 ==> s2 << 31u32 == s2 * 0x8000_0000,
        sy <= 1 ==> sy << 31u32 == sy * 0x8000_0000,
        nzm1 <= 1 ==> nzm1 << 22u32 == nzm1 * 0x40_0000,
        nzm2 <= 1 ==> nzm2 << 22u32 == nzm2 * 0x40_0000,
        ey < 256 ==> ey << 23u32 == ey * 0x80_0000,
        255u32 << 23u32 == 255 * 0x80_0000,
        1u32 << 22u32 == 0x40_0000,
        1u32 << 31u32 == 0x8000_0000,
{
}

proof fn lemma_field_bits(v: u32)
    by (bit_vector)
    ensures
        v & 0x80000000 != 0 ==> v / 0x8000_0000 == 1,
        v & 0x80000000 == 0 ==> v / 0x8000_0000 == 0,
        (v & 0x7f800000) >> 23 == (v / 0x80_0000) % 0x100,
        (v & 0x7fffff) | 0x800000 == v % 0x80_0000 + 0x80_0000,
        ((v & 0x80000000) >> 31) % 2 == v / 0x8000_0000,
        ((v & 0x7f800000) >> 23) % 256 == (v / 0x80_0000) % 0x100,
        (v & 0x7fffff) % 0x80_0000 == v % 0x80_0000,
        v >> 31u32 == v / 0x8000_0000,
{
}

proof fn lemma_zero_bits(s: u64)
    by (bit_vector)
    ensures
        0u64 << s == 0u64,
        0u64 >> s == 0u64,
        0u64 & s == 0u64,
{
}

proof fn lemma_leading_zeros_below(v: u64, k: nat)
    requires
        k <= 64,
        v < pow2(k),
    ensures
        u64_leading_zeros(v) >= 64 - k,
    decreases k,
{
    reveal(u64_leading_zeros);
    lemma2_to64();
    if v != 0 {
        vstd::arithmetic::power2::lemma_pow2_unfold(k);
        lemma_leading_zeros_below(v / 2, (k - 1) as nat);
    }
}

proof fn lemma_leading_zeros_from(v: u64, k: nat)
    requires
        k < 64,
        pow2(k) <= v,
    ensures
        u64_leading_zeros(v) <= 63 - k,
    decreases k,
{
    reveal(u64_leading_zeros);
    lemma2_to64();
    axiom_u64_leading_zeros(v / 2);
    if k > 0 {
        vstd::arithmetic::power2::lemma_pow2_unfold(k);
        lemma_leading_zeros_from(v / 2, (k - 1) as nat);
    }
}

proof fn lemma_shifted_mantissa_bits(m: u64, e: i64)
    by (bit_vector)
    ensures
        m < 0x1000000 ==> (m * 4) as u64 & 0b10 == 0,
        m < 0x1000000 ==> ((m * 4) as u64 >> 2u64) == m,
        m < 0x1000000 ==> (m * 4) as u64 & (1u64 << 26u64) == 0,
        m < 0x1000000 ==> (m >> 24u64) & 1 == 0,
        m << 0u64 == m,
        0 <= e < 256 ==> e & 0xFF == e,
        1u32 & 31 == 1,
{
}

proof fn lemma_fields_compose(v: u32)
    by (bit_vector)
    ensures
        v == (v / 0x8000_0000) * 0x8000_0000 + ((v / 0x80_0000) % 0x100) * 0x80_0000 + v % 0x80_0000,
        0u32 & v == 0,
{
}

/// The sum and rounding stages leave a mantissa alone when the other operand is zero:
/// the exponent and fraction fields come out as they went in.
proof fn lemma_round_unchanged(ms: u32, es: u32, same: bool)
    requires
        ms < 0x1000000,
        1 <= es < 256,
        ms >= 0x800000 || es == 1,
    ensures
        ({
            let (eyd, myd, stck) = fadd_sum(ms, 0, es, same);
            fadd_round(eyd, myd, stck, same) == (if ms >= 0x800000 { es } else { 0u32 }, (ms % 0x800000) as u64)
        }),
{
    lemma2_to64();
    lemma2_to64_rest();
    lemma_zero_bits(29);
    lemma_sum_bits(ms as u64, 0);
    lemma_shifted_mantissa_bits(ms as u64, es as i64);
    assert(spec_to_n_bits_u64(0u64, 29) == 0);
    assert(spec_to_n_bits_u64((ms as u64 * 4) as u64, 27) == ms * 4);
    let (eyd, myd, stck) = fadd_sum(ms, 0, es, same);
    assert(eyd == es && myd == ms * 4 && stck == 0);
    assert(spec_to_n_bits_u64(myd, 26) == myd);
    assert(spec_to_n_bits_u64(myd, 56) == myd);
    assert(spec_to_n_bits_u64(ms as u64, 25) == ms);
    assert(spec_to_n_bits_u64(ms as u64, 24) == ms);
    assert(spec_to_n_bits_u64(ms as u64, 23) == ms % 0x80_0000);
    lemma_shifted_mantissa_bits(myd, 0);
    let se: u32 = (u64_leading_zeros(spec_to_n_bits_u64(myd, 26)) - 38) as u32;
    if ms >= 0x800000 {
        lemma_leading_zeros_below(myd, 26);
        lemma_leading_zeros_from(myd, 25);
        assert(se == 0);
        assert(myd << (se as u64) == myd);
        assert(((eyd as int - se as int) as i64 & 0xFF) as u32 == es);
    } else if ms != 0 {
        lemma_leading_zeros_below(myd, 25);
        assert(se >= 1);
        assert(eyd & 31 == 1);
        assert(myd << (((eyd & 31) - 1) as u64) == myd);
    } else {
        assert(u64_leading_zeros(0) == 64) by {
            reveal(u64_leading_zeros);
        }
        assert(eyd & 31 == 1);
        assert(myd << (((eyd & 31) - 1) as u64) == myd);
    }
}

/// Adding a signed zero to a finite number other than -0 gives back its bits: subnormal
/// numbers are kept and nothing is rounded. The zero may come first or second.
pub proof fn lemma_fadd_zero(x: u32, z: u32)
    requires
        exponent_field(x) != 255,
        x != 0x8000_0000,
        z == 0 || z == 0x8000_0000,
    ensures
        fadd_bits(x, z) == x,
        fadd_bits(z, x) == x,
{
    lemma2_to64();
    lemma2_to64_rest();
    let e = exponent_field(x);
    let f = fraction_field(x);
    let s = sign_bit(x);
    lemma_fields_compose(x);
    assert(e < 256 && f < 0x80_0000 && s <= 1);
    assert(exponent_field(z) == 0 && fraction_field(z) == 0 && sign_bit(z) <= 1);
    assert(spec_to_n_bits_u32(0u32, 25) == 0);
    assert(unpacked_mantissa(z) == 0 && unpacked_exponent(z) == 1);
    lemma_hidden_bit(f);
    let m1 = unpacked_mantissa(x);
    assert(e != 0 ==> m1 == f + 0x80_0000);
    assert(e == 0 ==> m1 == f);
    let (ms, mia, es, ss) = fadd_align(x, z);
    lemma_zero_bits(31);
    lemma_zero_bits(0);
    assert(spec_to_n_bits_u64(0u64, 56) == 0);
    if e >= 2 {
        let d = (e - 1) as u32;
        assert(spec_to_n_bits_u32(d, 8) == d);
        assert(d < 32 ==> spec_to_n_bits_u32(d, 5) == d);
        lemma_align_bits(d, 0, 0, 0);
        lemma_zero_bits(if d >= 32 { 31 } else { d as u64 });
    } else {
        assert(spec_to_n_bits_u32(0u32, 8) == 0);
        assert(spec_to_n_bits_u32(0u32, 5) == 0);
        lemma_align_bits(0, 0, 0, 0);
    }
    assert(mia == 0);
    let zero_x = e == 0 && f == 0;
    assert(zero_x ==> x == 0);
    assert(!zero_x ==> ms == m1 && es == unpacked_exponent(x) && ss == s);
    assert(zero_x ==> ms == 0 && es == 1);
    let same = sign_bit(x) == sign_bit(z);
    lemma_round_unchanged(ms, es, same);
    let (ey, my) = fadd_round(fadd_sum(ms, mia, es, same).0, fadd_sum(ms, mia, es, same).1, fadd_sum(ms, mia, es, same).2, same);
    assert(e != 0 ==> ey == e && my == f);
    assert(e == 0 ==> ey == 0 && my == f);
    lemma_fields_compose(sign_bit(z));
    let sy: u32 = if ey == 0 && my == 0 { s & sign_bit(z) } else { ss };
    assert(sy == s);
    assert(fadd_bits(x, z) == fadd_pack(x, z, ss, ey, my));
    assert(fadd_pack(x, z, ss, ey, my) == (sy * 0x8000_0000 + ey * 0x80_0000 + my) as u32);
    assert(fadd_bits(x, z) == x);
    lemma_fadd_commutative(x, z);
}

/// Rounding leaves a normal mantissa, shifted left by two and with no sticky bit, as it
/// is: the exponent and fraction fields come out as they went in.
proof fn lemma_round_normal(eyd: u32, ms: u32, same: bool)
    requires
        0x800000 <= ms < 0x1000000,
        1 <= eyd < 256,
    ensures
        fadd_round(eyd, (ms * 4) as u64, 0, same) == (eyd, (ms % 0x800000) as u64),
{
    lemma2_to64();
    lemma2_to64_rest();
    let myd = (ms * 4) as u64;
    lemma_shifted_mantissa_bits(ms as u64, eyd as i64);
    lemma_shifted_mantissa_bits(myd, 0);
    assert(spec_to_n_bits_u64(myd, 26) == myd);
    assert(spec_to_n_bits_u64(myd, 56) == myd);
    assert(spec_to_n_bits_u64(ms as u64, 25) == ms);
    assert(spec_to_n_bits_u64(ms as u64, 24) == ms);
    assert(spec_to_n_bits_u64(ms as u64, 23) == ms % 0x80_0000);
    lemma_leading_zeros_below(myd, 26);
    lemma_leading_zeros_from(myd, 25);
    let se: u32 = (u64_leading_zeros(spec_to_n_bits_u64(myd, 26)) - 38) as u32;
    assert(se == 0);
    assert(myd << (se as u64) == myd);
    assert(((eyd as int - se as int) as i64 & 0xFF) as u32 == eyd);
}

proof fn lemma_doubled_mantissa_bits(m: u64)
    by (bit_vector)
    ensures
        0x800000 <= m < 0x1000000 ==> (m * 8) as u64 & (1u64 << 26u64) != 0,
        m < 0x1000000 ==> ((m * 8) as u64 >> 1u64) == m * 4,
        m < 0x1000000 ==> (m * 8) as u64 & 1 == 0,
        0u32 | 0u32 == 0u32,
{
}

/// Adding a normal number to itself doubles it exactly: the sum has the same sign and
/// fraction and an exponent one higher, as long as that exponent is finite.
pub proof fn lemma_fadd_doubles(x: u32)
    requires
        1 <= exponent_field(x) < 254,
    ensures
        fadd_bits(x, x) == x + 0x80_0000,
{
    lemma2_to64();
    lemma2_to64_rest();
    let e = exponent_field(x);
    let f = fraction_field(x);
    let s = sign_bit(x);
    lemma_fields_compose(x);
    lemma_hidden_bit(f);
    let m = unpacked_mantissa(x);
    assert(m == f + 0x80_0000);
    assert(spec_to_n_bits_u32(0u32, 8) == 0);
    assert(spec_to_n_bits_u32(0u32, 5) == 0);
    lemma_align_bits(0, m as u64, 0, 0);
    let (ms, mia, es, ss) = fadd_align(x, x);
    assert(ms == m && es == e && ss == s);
    let mie = spec_to_n_bits_u64(((m as u64) << 31u64) as u64, 56);
    assert(mie == m * 0x8000_0000);
    lemma_align_bits(0, m as u64, mie, 0);
    assert(mia == mie);
    lemma_sum_bits(m as u64, mia);
    assert(mia % 0x2000_0000 == 0) by {
        vstd::arithmetic::div_mod::lemma_mod_multiples_basic(m as int * 4, 0x2000_0000);
    }
    assert(spec_to_n_bits_u64(mia, 29) == 0);
    let mye = spec_to_n_bits_u64((((ms as u64) << 2u64) + (mia >> 29u64)) as u64, 27);
    assert(mye == m * 8);
    lemma_doubled_mantissa_bits(m as u64);
    assert(spec_to_n_bits_u32((e + 1) as u32, 8) == e + 1);
    assert(spec_to_n_bits_u64(mye >> 1u64, 27) == m * 4);
    assert(fadd_sum(ms, mia, es, true) == ((e + 1) as u32, (m * 4) as u64, 0u32));
    lemma_round_normal((e + 1) as u32, m, true);
    assert(fadd_bits(x, x) == fadd_pack(x, x, s, (e + 1) as u32, f as u64));
}

/// Negation on the FPU undoes itself: negating twice gives back the same bits.
pub proof fn lemma_neg_involutive(v: u32)
    by (bit_vector)
    ensures
        (v ^ 0x8000_0000) ^ 0x8000_0000 == v,
{
}

proof fn lemma_sign_and_commutes(s1: u32, s2: u32)
    by (bit_vector)
    ensures
        s1 & s2 == s2 & s1,
{
}

/// The alignment stage treats its operands alike: swapped, it gives the same mantissas
/// and exponent, and the same sign unless the operands have the same magnitude.
proof fn lemma_align_symmetric(x: u32, y: u32)
    ensures
        fadd_align(x, y).0 == fadd_align(y, x).0,
        fadd_align(x, y).1 == fadd_align(y, x).1,
        fadd_align(x, y).2 == fadd_align(y, x).2,
        fadd_align(x, y).3 == fadd_align(y, x).3 || (unpacked_exponent(x) == unpacked_exponent(y)
            && unpacked_mantissa(x) == unpacked_mantissa(y)),
        unpacked_exponent(x) == unpacked_exponent(y) && unpacked_mantissa(x) == unpacked_mantissa(y) ==> fadd_align(
            x,
            y,
        ).1 == spec_to_n_bits_u64(((fadd_align(x, y).0 as u64) << 31u64) as u64, 56),
{
    lemma2_to64();
    lemma2_to64_rest();
    let e1a = unpacked_exponent(x);
    let e2a = unpacked_exponent(y);
    assert(exponent_field(x) < 256 && exponent_field(y) < 256);
    assert(1 <= e1a < 256 && 1 <= e2a < 256);
    if e1a == e2a {
        assert(spec_to_n_bits_u32(0u32, 8) == 0);
        assert(spec_to_n_bits_u32(0u32, 5) == 0);
        lemma_align_bits(0, 0, 0, 0);
    } else {
        let d: u32 = if e1a > e2a { (e1a - e2a) as u32 } else { (e2a - e1a) as u32 };
        assert(0 < d < 256);
        assert(spec_to_n_bits_u32(d, 8) == d);
        assert(d < 32 ==> spec_to_n_bits_u32(d, 5) == d);
        lemma_align_bits(d, 0, 0, 0);
    }
    let mie = spec_to_n_bits_u64(((fadd_align(x, y).0 as u64) << 31u64) as u64, 56);
    lemma_align_bits(0, 0, mie, 0);
}

/// The sum of two operands of the same magnitude and different signs is zero.
proof fn lemma_cancelled_sum(ms: u32, mia: u64, es: u32)
    requires
        ms < 0x1000000,
        es < 256,
        mia == spec_to_n_bits_u64(((ms as u64) << 31u64) as u64, 56),
    ensures
        ({
            let (eyd, myd, stck) = fadd_sum(ms, mia, es, false);
            fadd_round(eyd, myd, stck, false) == (0u32, 0u64)
        }),
{
    lemma2_to64();
    lemma2_to64_rest();
    lemma_align_bits(0, ms as u64, 0, 0);
    let mie = ((ms as u64) << 31u64) as u64;
    assert(mie == ms * 0x8000_0000);
    assert(mia == mie);
    lemma_align_bits(0, ms as u64, mie, 0);
    lemma_sum_bits(ms as u64, mia);
    assert(mia % 0x2000_0000 == 0) by {
        vstd::arithmetic::div_mod::lemma_mod_multiples_basic(ms as int * 4, 0x2000_0000);
    }
    assert(spec_to_n_bits_u64(mia, 29) == 0);
    assert(spec_to_n_bits_u64(0u64, 27) == 0);
    lemma_zero_bits(1u64 << 26u64);
    lemma_zero_bits(1);
    lemma_zero_bits(2);
    lemma_zero_bits(24);
    lemma_zero_bits(26);
    assert(fadd_sum(ms, mia, es, false) == (es, 0u64, 0u32));
    assert(spec_to_n_bits_u64(0u64, 26) == 0);
    assert(u64_leading_zeros(0) == 64) by {
        reveal(u64_leading_zeros);
    }
    let se: u32 = (u64_leading_zeros(spec_to_n_bits_u64(0u64, 26)) - 38) as u32;
    assert(se == 26);
    lemma_zero_bits(se as u64);
    lemma_zero_bits((((es & 31) - 1) as u64));
    assert(spec_to_n_bits_u64(0u64, 56) == 0);
    assert(spec_to_n_bits_u64(0u64, 25) == 0);
    assert(spec_to_n_bits_u64(0u64, 24) == 0);
}

/// Addition on the FPU is commutative: `x + y` and `y + x` have the same bits, unless
/// both are NaNs (the sum then keeps the sign and payload of its first operand) whose
/// signs or payloads differ.
pub proof fn lemma_fadd_commutative(x: u32, y: u32)
    requires
        !(is_nan_bits(x) && is_nan_bits(y)) || (sign_bit(x) == sign_bit(y) && fraction_field(x) % 0x40_0000
            == fraction_field(y) % 0x40_0000),
    ensures
        fadd_bits(x, y) == fadd_bits(y, x),
{
    lemma2_to64();
    lemma_align_symmetric(x, y);
    let same_sign = sign_bit(x) == sign_bit(y);
    let (ms, mia, es, ss) = fadd_align(x, y);
    let (eyd, myd, stck) = fadd_sum(ms, mia, es, same_sign);
    let (ey, my) = fadd_round(eyd, myd, stck, same_sign);
    let ss2 = fadd_align(y, x).3;
    if ss != ss2 {
        assert(sign_bit(x) != sign_bit(y)) by {
            assert(sign_bit(x) == 0 || sign_bit(x) == 1);
            assert(sign_bit(y) == 0 || sign_bit(y) == 1);
        }
        assert(ms < 0x1000000 && es < 256) by {
            assert(fraction_field(x) < 0x80_0000 && fraction_field(y) < 0x80_0000);
            assert(exponent_field(x) < 256 && exponent_field(y) < 256);
            lemma_hidden_bit(fraction_field(x));
            lemma_hidden_bit(fraction_field(y));
            assert(unpacked_mantissa(x) < 0x1000000);
            assert(unpacked_mantissa(y) < 0x1000000);
        }
        lemma_cancelled_sum(ms, mia, es);
    }
    lemma_sign_and_commutes(sign_bit(x), sign_bit(y));
    assert(spec_to_n_bits_u32(fraction_field(x), 23) == fraction_field(x));
    assert(spec_to_n_bits_u32(fraction_field(y), 23) == fraction_field(y));
}

/// The mantissa with its hidden bit and the exponent of an operand of the adder.
fn unpack_operand(e: u32, m: u32) -> (r: (u32, u32))
    requires
        e < 256,
        m < 0x800000,
    ensures
        r.0 < 0x1000000,
        r.1 >= 1 && r.1 < 256,
        r.1 >= 2 ==> r.0 >= 0x800000,
        forall|v: u32| exponent_field(v) == e && fraction_field(v) == m ==> r == (unpacked_mantissa(v), unpacked_exponent(v)),
{
    proof {
        lemma2_to64();
        lemma_hidden_bit(m);
    }
    if e == 0 {
        (to_n_bits_u32(m, 25), 1)
    } else {
        (to_n_bits_u32(m | 0x800000, 25), e)
    }
}

/// The alignment stage of the adder (see `fadd_align`).
fn add_align(x: u32, y: u32) -> (r: (u32, u64, u32, u32))
    ensures
        r == fadd_align(x, y),
        r.0 < 0x1000000,
        r.1 < 0x100_0000_0000_0000,
        r.1 >> 29u64 <= (r.0 as u64) * 4,
        1 <= r.2 < 256,
        r.3 == sign_bit(x) || r.3 == sign_bit(y),
{
    proof {
        lemma2_to64();
        lemma2_to64_rest();
    }
    let fx = FloatingPoint { value: x };
    let fy = FloatingPoint { value: y };
    let (s1, e1, m1) = fx.gets();
    let (s2, e2, m2) = fy.gets();
    let (m1a, e1a) = unpack_operand(e1, m1);
    let (m2a, e2a) = unpack_operand(e2, m2);
    let (ce, tde) = if e1a > e2a {
        (0u32, to_n_bits_u32(e1a - e2a, 8))
    } else {
        (1u32, to_n_bits_u32(e2a - e1a, 8))
    };
    proof {
        lemma_align_bits(tde, 0, 0, 0);
    }
    let de = if tde >> 5 != 0 {
        31
    } else {
        to_n_bits_u32(tde, 5)
    };
    assert(de == 0 <==> e1a == e2a);
    let sel = if de == 0 {
        if m1a > m2a {
            0
        } else {
            1
        }
    } else {
        ce
    };
    let (ms, mi, es, ss) = if sel == 0 {
        (m1a, m2a, e1a, s1)
    } else {
        (m2a, m1a, e2a, s2)
    };
    assert(de == 0 ==> ms >= mi);
    assert(de != 0 ==> ms >= 0x800000);
    proof {
        lemma_align_bits(tde, mi as u64, 0, de as u64);
    }
    let mie = to_n_bits_u64((mi as u64) << 31u64, 56);
    assert(mie == (mi as u64) * 0x8000_0000);
    let mia = to_n_bits_u64(mie >> (de as u64), 56);
    proof {
        lemma_align_bits(tde, mi as u64, mie, de as u64);
    }
    assert(de == 0 ==> mia >> 29u64 == (mi as u64) * 4);
    assert(de != 0 ==> mia >> 29u64 <= (mi as u64) * 2);
    (ms, mia, es, ss)
}

/// The addition stage of the adder (see `fadd_sum`).
fn add_sum(ms: u32, mia: u64, es: u32, same_sign: bool) -> (r: (u32, u64, u32))
    requires
        ms < 0x1000000,
        mia < 0x100_0000_0000_0000,
        mia >> 29u64 <= (ms as u64) * 4,
        1 <= es < 256,
    ensures
        r == fadd_sum(ms, mia, es, same_sign),
        r.0 < 256,
        r.1 < 0x800_0000,
{
    proof {
        lemma2_to64();
        lemma2_to64_rest();
    }
    let tstck: u32 = if to_n_bits_u64(mia, 29) != 0 {
        1
    } else {
        0
    };
    proof {
        lemma_sum_bits(ms as u64, mia);
    }
    let msl = (ms as u64) << 2u64;
    let mye = if same_sign {
        to_n_bits_u64(msl + (mia >> 29u64), 27)
    } else {
        to_n_bits_u64(msl - (mia >> 29u64), 27)
    };
    let esi = to_n_bits_u32(es + 1, 8);
    if mye & (1u64 << 26u64) != 0 {
        if esi == 255 {
            (255, 1u64 << 25u64, 0)
        } else {
            (esi, to_n_bits_u64(mye >> 1u64, 27), tstck | (mye & 1) as u32)
        }
    } else {
        (es, mye, tstck)
    }
}

/// The normalisation and rounding stage of the adder (see `fadd_round`).
fn add_round(eyd: u32, myd: u64, stck: u32, same_sign: bool) -> (r: (u32, u64))
    requires
        eyd < 256,
        myd < 0x800_0000,
    ensures
        r == fadd_round(eyd, myd, stck, same_sign),
        r.0 < 256,
        r.1 < 0x80_0000,
{
    proof {
        lemma2_to64();
        lemma2_to64_rest();
    }
    let myd26 = to_n_bits_u64(myd, 26);
    let lz = myd26.leading_zeros();
    proof {
        axiom_u64_leading_zeros(myd26);
        lemma_round_bits(myd26, lz as u64, 0, eyd);
    }
    let se = lz - 38;
    let eyf = eyd as i64 - se as i64;
    proof {
        vstd::bits::lemma_u64_pow2_no_overflow(se as nat);
        vstd::arithmetic::power2::lemma_pow2_strictly_increases(se as nat, 27);
        vstd::arithmetic::mul::lemma_mul_strict_inequality(myd as int, 0x800_0000, pow2(se as nat) as int);
        vstd::bits::lemma_u64_shl_is_mul(myd, se as u64);
    }
    proof {
        lemma_round_bits(myd26, lz as u64, eyf, eyd);
    }
    let (myf, eyr) = if eyf > 0 {
        (to_n_bits_u64(myd << (se as u64), 56), (eyf & 0xFF) as u32)
    } else if eyd & 31 == 0 {
        // Only reached for an infinite or NaN operand, whose result `add_pack` fixes;
        // the shift by `(eyd & 31) - 1` wraps here and leaves no bit in the low 56 bits.
        (0, 0)
    } else {
        (to_n_bits_u64(myd << (((eyd & 31) - 1) as u64), 56), 0)
    };
    let myr = if (myf & 0b10 != 0 && myf & 0b1 == 0 && stck == 0 && myf & 0b100 != 0) || (myf
        & 0b10 != 0 && myf & 0b1 == 0 && same_sign && stck == 1) || (myf & 0b10 != 0 && myf & 0b1
        != 0) {
        to_n_bits_u64(to_n_bits_u64(myf >> 2u64, 25) + 1, 25)
    } else {
        to_n_bits_u64(myf >> 2u64, 25)
    };
    let eyri = to_n_bits_u32(eyr + 1, 8);
    if (myr >> 24u64) & 1 != 0 {
        (eyri, 0)
    } else if to_n_bits_u64(myr, 24) == 0 {
        (0, 0)
    } else {
        (eyr, to_n_bits_u64(myr, 23))
    }
}

/// The packing stage of the adder (see `fadd_pack`).
fn add_pack(x: u32, y: u32, ss: u32, ey: u32, my: u64) -> (r: u32)
    requires
        ss <= 1,
        ey < 256,
        my < 0x80_0000,
    ensures
        r == fadd_pack(x, y, ss, ey, my),
{
    proof {
        lemma2_to64();
    }
    let fx = FloatingPoint { value: x };
    let fy = FloatingPoint { value: y };
    let (s1, e1, m1) = fx.gets();
    let (s2, e2, m2) = fy.gets();
    proof {
        lemma_pack_bits(s1, s2, 0, 0, 0, ey);
    }
    let sy = if ey == 0 && my == 0 {
        s1 & s2
    } else {
        ss
    };
    let nzm1: u32 = if to_n_bits_u32(m1, 23) != 0 {
        1
    } else {
        0
    };
    let nzm2: u32 = if to_n_bits_u32(m2, 23) != 0 {
        1
    } else {
        0
    };
    proof {
        lemma_pack_bits(s1, s2, sy, nzm1, nzm2, ey);
    }
    if e1 == 255 && e2 != 255 {
        (s1 << 31u32) + (255 << 23u32) + (nzm1 << 22u32) + to_n_bits_u32(m1, 22)
    } else if e1 != 255 && e2 == 255 {
        (s2 << 31u32) + (255 << 23u32) + (nzm2 << 22u32) + to_n_bits_u32(m2, 22)
    } else if e1 == 255 && e2 == 255 && nzm1 == 1 {
        (s1 << 31u32) + (255 << 23u32) + (1 << 22u32) + to_n_bits_u32(m1, 22)
    } else if e1 == 255 && e2 == 255 && nzm2 == 1 {
        (s2 << 31u32) + (255 << 23u32) + (1 << 22u32) + to_n_bits_u32(m2, 22)
    } else if e1 == 255 && e2 == 255 && s1 == s2 {
        (s1 << 31u32) + (255 << 23u32)
    } else if e1 == 255 && e2 == 255 {
        (1 << 31u32) + (255 << 23u32) + (1 << 22u32)
    } else {
        (sy << 31u32) + (ey << 23u32) + (my as u32)
    }
}

impl FloatingPoint {
    /// The number whose bits are `value`.
    pub fn new(value: u32) -> (r: Self)
        ensures
            r.value == value,
    {
        FloatingPoint { value }
    }

    /// The 32 bits of the number.
    pub fn get_32_bits(&self) -> (r: u32)
        ensures
            r == self.value,
    {
        self.value
    }

    /// -1 for a number whose sign bit is set, 1 otherwise.
    pub fn get_sign(&self) -> (r: i32)
        ensures
            r == (if sign_bit(self.value) == 1 { -1i32 } else { 1i32 }),
    {
        let v = self.value;
        proof {
            lemma_field_bits(v);
        }
        if v & 0x80000000 != 0 {
            -1
        } else {
            1
        }
    }

    /// The unbiased exponent: the exponent field less 127.
    pub fn get_exp(&self) -> (r: i32)
        ensures
            r == exponent_field(self.value) as int - 127,
    {
        let result = self.value;
        let mut exp = result & 0x7f800000;
        exp >>= 23;
        proof {
            lemma_field_bits(result);
        }
        exp as i32 - 127
    }

    /// The fraction field with the hidden bit set.
    pub fn get_fraction(&self) -> (r: u32)
        ensures
            r == fraction_field(self.value) + 0x80_0000,
    {
        let result = self.value;
        let mut fraction = result & 0x7fffff;
        fraction |= 0x800000;
        proof {
            lemma_field_bits(result);
        }
        fraction
    }

    /// The sign, the unbiased exponent and the fraction with its hidden bit.
    pub fn get_all(&self) -> (r: (i32, i32, u32))
        ensures
            r.0 == (if sign_bit(self.value) == 1 { -1i32 } else { 1i32 }),
            r.1 == exponent_field(self.value) as int - 127,
            r.2 == fraction_field(self.value) + 0x80_0000,
    {
        (self.get_sign(), self.get_exp(), self.get_fraction())
    }

    /// The sign bit, the exponent field and the fraction field.
    pub fn gets(&self) -> (r: (u32, u32, u32))
        ensures
            r == (sign_bit(self.value), exponent_field(self.value), fraction_field(self.value)),
    {
        let v = self.value;
        proof {
            lemma2_to64();
        }
        let s = to_n_bits_u32((v & 0x80000000) >> 31, 1);
        let e = to_n_bits_u32((v & 0x7f800000) >> 23, 8);
        let m = to_n_bits_u32(v & 0x7fffff, 23);
        proof {
            lemma_field_bits(v);
        }
        (s, e, m)
    }

    /// The sum of two numbers, as the machine's FPU computes it.
    pub fn add(self, other: Self) -> (r: Self)
        ensures
            r.value == fadd_bits(self.value, other.value),
    {
        let x = self.value;
        let y = other.value;
        let same_sign = (x >> 31u32) == (y >> 31u32);
        proof {
            lemma_field_bits(x);
            lemma_field_bits(y);
        }
        let (ms, mia, es, ss) = add_align(x, y);
        let (eyd, myd, stck) = add_sum(ms, mia, es, same_sign);
        let (ey, my) = add_round(eyd, myd, stck, same_sign);
        FloatingPoint { value: add_pack(x, y, ss, ey, my) }
    }

    /// The number with the sign bit flipped.
    pub fn neg(self) -> (r: Self)
        ensures
            r.value == self.value ^ 0x8000_0000,
    {
        let mut result = self.value;
        result ^= 0x80000000;
        FloatingPoint { value: result }
    }
}

} // verus!
