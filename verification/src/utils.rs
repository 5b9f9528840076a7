use vstd::prelude::*;
use vstd::string::StrSliceExecFns;

verus! {

/// The signed byte whose bits are those of `value`.
pub open spec fn spec_u8_to_i8(value: u8) -> i8 {
    (if value <= 127 { value as int } else { value - 256 }) as i8
}

/// The byte whose bits are those of the signed byte `value`.
pub open spec fn spec_i8_to_u8(value: i8) -> u8 {
    (if value >= 0 { value as int } else { value + 256 }) as u8
}

/// The signed 16-bit value whose bits are those of `value`.
pub open spec fn spec_u16_to_i16(value: u16) -> i16 {
    (if value <= 0x7fff { value as int } else { value - 0x1_0000 }) as i16
}

/// The signed 32-bit value whose bits are those of `value`.
pub open spec fn spec_u32_to_i32(value: u32) -> i32 {
    (if value <= 0x7fff_ffff { value as int } else { value - 0x1_0000_0000 }) as i32
}

/// The unsigned 32-bit value whose bits are those of `value`.
pub open spec fn spec_i32_to_u32(value: i32) -> u32 {
    (if value >= 0 { value as int } else { value + 0x1_0000_0000 }) as u32
}

/// Reinterprets the bits of a byte as a signed byte.
pub fn u8_to_i8(value: u8) -> (r: i8)
    ensures
        r == spec_u8_to_i8(value),
        r as int == (if value <= 127 { value as int } else { value - 256 }),
{
    if value <= i8::MAX as u8 {
        value as i8
    } else {
        (value as i16 - (u8::MAX as i16 + 1)) as i8
    }
}

/// Reinterprets the bits of a signed byte as a byte.
pub fn i8_to_u8(value: i8) -> (r: u8)
    ensures
        r == spec_i8_to_u8(value),
        r as int == (if value >= 0 { value as int } else { value + 256 }),
{
    if value >= 0 {
        value as u8
    } else {
        (value as i16 + (u8::MAX as i16 + 1)) as u8
    }
}

/// Reinterprets the bits of a 16-bit value as a signed 16-bit value.
pub fn u16_to_i16(value: u16) -> (r: i16)
    ensures
        r == spec_u16_to_i16(value),
        r as int == (if value <= 0x7fff { value as int } else { value - 0x1_0000 }),
{
    if value <= i16::MAX as u16 {
        value as i16
    } else {
        (value as i32 - (u16::MAX as i32 + 1)) as i16
    }
}

/// Reinterprets the bits of a 32-bit value as a signed 32-bit value.
pub fn u32_to_i32(value: u32) -> (r: i32)
    ensures
        r == spec_u32_to_i32(value),
        r as int == (if value <= 0x7fff_ffff { value as int } else { value - 0x1_0000_0000 }),
{
    if value <= i32::MAX as u32 {
        value as i32
    } else {
        (value as i64 - (u32::MAX as i64 + 1)) as i32
    }
}

/// Reinterprets the bits of a signed 32-bit value as an unsigned 32-bit value.
pub fn i32_to_u32(value: i32) -> (r: u32)
    ensures
        r == spec_i32_to_u32(value),
        r as int == (if value >= 0 { value as int } else { value + 0x1_0000_0000 }),
{
    if value >= 0 {
        value as u32
    } else {
        (value as i64 + (u32::MAX as i64 + 1)) as u32
    }
}

/// Reinterpreting a byte as a signed byte and back gives the byte again, and the
/// other way round.
pub proof fn lemma_byte_reinterpretation_round_trip(u: u8, s: i8)
    ensures
        spec_i8_to_u8(spec_u8_to_i8(u)) == u,
        spec_u8_to_i8(spec_i8_to_u8(s)) == s,
{
}

/// Reinterpreting a 32-bit value as signed and back gives the value again, and the
/// other way round.
pub proof fn lemma_word_reinterpretation_round_trip(u: u32, s: i32)
    ensures
        spec_i32_to_u32(spec_u32_to_i32(u)) == u,
        spec_u32_to_i32(spec_i32_to_u32(s)) == s,
{
}

/// Wraps `text` in the terminal escape sequence that shows it in colour `color`.
pub fn colorize(text: &str, color: &str) -> (r: String)
    ensures
        r@ == "\x1b["@ + color@ + "m"@ + text@ + "\x1b[0m"@,
{
    let mut r = String::from_str("\x1b[");
    r.append(color);
    r.append("m");
    r.append(text);
    r.append("\x1b[0m");
    r
}

/// The decimal digits of `n`, most significant first, as ASCII bytes.
pub open spec fn digits_text(n: nat) -> Seq<u8>
    decreases n,
{
    if n < 10 {
        seq![(48 + n) as u8]
    } else {
        digits_text(n / 10).push((48 + n % 10) as u8)
    }
}

/// The decimal text of `v` as ASCII bytes: a minus sign for a negative number, then its
/// digits without leading zeros.
pub open spec fn decimal_text(v: int) -> Seq<u8> {
    if v < 0 {
        seq![45u8] + digits_text((-v) as nat)
    } else {
        digits_text(v as nat)
    }
}

fn push_digits(n: u64, out: &mut Vec<u8>)
    ensures
        final(out)@ == old(out)@ + digits_text(n as nat),
    decreases n,
{
    if n >= 10 {
        push_digits(n / 10, out);
    }
    out.push((48 + n % 10) as u8);
    assert(final(out)@ =~= old(out)@ + digits_text(n as nat));
}

/// The decimal text of `v`, as `to_string` writes it, in ASCII bytes.
pub fn decimal_bytes(v: i64) -> (r: Vec<u8>)
    ensures
        r@ == decimal_text(v as int),
{
    let mut out: Vec<u8> = Vec::new();
    if v < 0 {
        out.push(45);
        let magnitude: u64 = (-(v as i128)) as u64;
        push_digits(magnitude, &mut out);
    } else {
        push_digits(v as u64, &mut out);
    }
    assert(out@ =~= decimal_text(v as int));
    out
}

/// The bytes of the characters of `s` (ASCII for the texts this crate writes).
pub open spec fn ascii(s: Seq<char>) -> Seq<u8> {
    s.map_values(|c: char| c as u8)
}

/// Appends the bytes of the characters of `s` to `out`.
pub fn push_text(out: &mut Vec<u8>, s: &str)
    ensures
        final(out)@ == old(out)@ + ascii(s@),
{
    let n = s.unicode_len();
    let mut i: usize = 0;
    while i < n
        invariant
            n == s@.len(),
            i <= n,
            out@ == old(out)@ + ascii(s@.subrange(0, i as int)),
        decreases n - i,
    {
        let c = s.get_char(i);
        out.push(c as u8);
        assert(ascii(s@.subrange(0, i + 1)) =~= ascii(s@.subrange(0, i as int)).push(c as u8));
        i += 1;
    }
    assert(s@.subrange(0, n as int) =~= s@);
}

} // verus!
