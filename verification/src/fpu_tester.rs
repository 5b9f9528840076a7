use vstd::prelude::*;
use vstd::string::StrSliceExecFns;
use crate::fpu::{FloatingPoint, exponent_field, fadd_bits};
use crate::fpu_order::fp_lt;

verus! {

/// The four arithmetic operations of the FPU.
#[derive(Clone, Copy, PartialEq, Eq, Structural, Debug)]
pub enum FourArithmeticOperation {
    Add,
    Sub,
    Mul,
    Div,
}

/// A comparison of the FPU with the results that the real machine wrote to a file.
#[derive(Clone, Copy, PartialEq, Eq, Structural, Debug)]
pub enum FpuTest {
    FourArithmetic(FourArithmeticOperation),
    Sqrt,
    Lt,
    CvtSW,
    CvtWS,
}

/// What one line of a result file gives.
#[derive(Clone, Copy, PartialEq, Eq, Structural, Debug)]
pub enum LineCheck {
    /// The line does not hold a test (wrong number of tokens, or a first token that is not
    /// a number): it is passed over.
    Skipped,
    /// The FPU computes the result the line expects.
    Passed,
    /// The FPU computes another result than the line expects.
    Mismatch,
    /// A token after the first is not a number.
    Malformed,
    /// The FPU has no circuit for the operation.
    Unimplemented,
}

/// The test that an operation name selects.
pub open spec fn fpu_test_of(operation: Seq<char>) -> Option<FpuTest> {
    if operation == "fadd"@ {
        Some(FpuTest::FourArithmetic(FourArithmeticOperation::Add))
    } else if operation == "fsub"@ {
        Some(FpuTest::FourArithmetic(FourArithmeticOperation::Sub))
    } else if operation == "fmul"@ {
        Some(FpuTest::FourArithmetic(FourArithmeticOperation::Mul))
    } else if operation == "fdiv"@ {
        Some(FpuTest::FourArithmetic(FourArithmeticOperation::Div))
    } else if operation == "fsqrt"@ {
        Some(FpuTest::Sqrt)
    } else if operation == "flt"@ {
        Some(FpuTest::Lt)
    } else if operation == "fcvtsw"@ {
        Some(FpuTest::CvtSW)
    } else if operation == "fcvtws"@ {
        Some(FpuTest::CvtWS)
    } else {
        None
    }
}

fn str_equals(s: &str, t: &str) -> (r: bool)
    ensures
        r == (s@ == t@),
{
    let n = s.unicode_len();
    if n != t.unicode_len() {
        return false;
    }
    let mut i: usize = 0;
    while i < n
        invariant
            n == s@.len(),
            n == t@.len(),
            i <= n,
            forall|j: int| 0 <= j < i ==> s@[j] == t@[j],
        decreases n - i,
    {
        if s.get_char(i) != t.get_char(i) {
            return false;
        }
        i += 1;
    }
    assert(s@ =~= t@);
    true
}

/// The test that `operation` names (`fadd`, `fsub`, `fmul`, `fdiv`, `fsqrt`, `flt`,
/// `fcvtsw` or `fcvtws`), or `None` for any other name.
fn named_test(operation: &str) -> (r: Option<FpuTest>)
    ensures
        r == fpu_test_of(operation@),
{
    if str_equals(operation, "fadd") {
        Some(FpuTest::FourArithmetic(FourArithmeticOperation::Add))
    } else if str_equals(operation, "fsub") {
        Some(FpuTest::FourArithmetic(FourArithmeticOperation::Sub))
    } else if str_equals(operation, "fmul") {
        Some(FpuTest::FourArithmetic(FourArithmeticOperation::Mul))
    } else if str_equals(operation, "fdiv") {
        Some(FpuTest::FourArithmetic(FourArithmeticOperation::Div))
    } else if str_equals(operation, "fsqrt") {
        Some(FpuTest::Sqrt)
    } else if str_equals(operation, "flt") {
        Some(FpuTest::Lt)
    } else if str_equals(operation, "fcvtsw") {
        Some(FpuTest::CvtSW)
    } else if str_equals(operation, "fcvtws") {
        Some(FpuTest::CvtWS)
    } else {
        None
    }
}

/// Every test, in the order fadd, fsub, fmul, fdiv, fsqrt, flt, fcvtsw, fcvtws.
pub open spec fn all_fpu_tests() -> Seq<FpuTest> {
    seq![
        FpuTest::FourArithmetic(FourArithmeticOperation::Add),
        FpuTest::FourArithmetic(FourArithmeticOperation::Sub),
        FpuTest::FourArithmetic(FourArithmeticOperation::Mul),
        FpuTest::FourArithmetic(FourArithmeticOperation::Div),
        FpuTest::Sqrt,
        FpuTest::Lt,
        FpuTest::CvtSW,
        FpuTest::CvtWS,
    ]
}

/// The tests that an operation name selects: every test for `all`, else the one test the
/// name selects, if any.
pub open spec fn fpu_tests_of(operation: Seq<char>) -> Option<Seq<FpuTest>> {
    if operation == "all"@ {
        Some(all_fpu_tests())
    } else {
        match fpu_test_of(operation) {
            Some(test) => Some(seq![test]),
            None => None,
        }
    }
}

/// Whether `operation` is a name of an FPU test (`fadd`, `fsub`, `fmul`, `fdiv`,
/// `fsqrt`, `flt`, `fcvtsw` or `fcvtws`) or `all`.
pub fn is_fpu_operation(operation: &str) -> (r: bool)
    ensures
        r == fpu_tests_of(operation@) is Some,
{
    str_equals(operation, "all") || named_test(operation).is_some()
}

/// The comparisons to run for `operation`, in turn: all eight for `all`, in the order
/// fadd, fsub, fmul, fdiv, fsqrt, flt, fcvtsw, fcvtws, else the one it names.
pub fn test_fpu(operation: &str) -> (r: Vec<FpuTest>)
    requires
        fpu_tests_of(operation@) is Some,
    ensures
        r@ == fpu_tests_of(operation@)->0,
{
    if str_equals(operation, "all") {
        let v = vec![
            FpuTest::FourArithmetic(FourArithmeticOperation::Add),
            FpuTest::FourArithmetic(FourArithmeticOperation::Sub),
            FpuTest::FourArithmetic(FourArithmeticOperation::Mul),
            FpuTest::FourArithmetic(FourArithmeticOperation::Div),
            FpuTest::Sqrt,
            FpuTest::Lt,
            FpuTest::CvtSW,
            FpuTest::CvtWS,
        ];
        assert(v@ =~= all_fpu_tests());
        v
    } else {
        let test = named_test(operation).unwrap();
        let v = vec![test];
        assert(v@ =~= seq![test]);
        v
    }
}

/// The file that holds the results of the real machine for `test`.
pub fn result_file_path(test: FpuTest) -> (r: &'static str)
    ensures
        r@ == match test {
            FpuTest::FourArithmetic(FourArithmeticOperation::Add) => "../test_result/fadd_result.txt"@,
            FpuTest::FourArithmetic(FourArithmeticOperation::Sub) => "../test_result/fsub_result.txt"@,
            FpuTest::FourArithmetic(FourArithmeticOperation::Mul) => "../test_result/fmul_result.txt"@,
            FpuTest::FourArithmetic(FourArithmeticOperation::Div) => "../test_result/fdiv_result.txt"@,
            FpuTest::Sqrt => "../test_result/fsqrt_result.txt"@,
            FpuTest::Lt => "../test_result/flt_result.txt"@,
            FpuTest::CvtSW => "../test_result/fcvtsw_result.txt"@,
            FpuTest::CvtWS => "../test_result/fcvtws_result.txt"@,
        },
{
    match test {
        FpuTest::FourArithmetic(FourArithmeticOperation::Add) => "../test_result/fadd_result.txt",
        FpuTest::FourArithmetic(FourArithmeticOperation::Sub) => "../test_result/fsub_result.txt",
        FpuTest::FourArithmetic(FourArithmeticOperation::Mul) => "../test_result/fmul_result.txt",
        FpuTest::FourArithmetic(FourArithmeticOperation::Div) => "../test_result/fdiv_result.txt",
        FpuTest::Sqrt => "../test_result/fsqrt_result.txt",
        FpuTest::Lt => "../test_result/flt_result.txt",
        FpuTest::CvtSW => "../test_result/fcvtsw_result.txt",
        FpuTest::CvtWS => "../test_result/fcvtws_result.txt",
    }
}

/// The value of the binary digits `s`.
pub open spec fn binary_value(s: Seq<char>) -> int
    decreases s.len(),
{
    if s.len() == 0 {
        0
    } else {
        binary_value(s.drop_last()) * 2 + (if s.last() == '1' { 1int } else { 0int })
    }
}

/// Whether every character of `s` is a binary digit.
pub open spec fn all_binary_digits(s: Seq<char>) -> bool {
    forall|i: int| 0 <= i < s.len() ==> #[trigger] s[i] == '0' || s[i] == '1'
}

/// The unsigned number that `s` writes in binary: an optional `+` sign and at least one
/// binary digit, with a value below 2^32.
pub open spec fn binary_u32(s: Seq<char>) -> Option<u32> {
    let digits = if s.len() > 0 && s[0] == '+' { s.drop_first() } else { s };
    if digits.len() > 0 && all_binary_digits(digits) && binary_value(digits) <= u32::MAX {
        Some(binary_value(digits) as u32)
    } else {
        None
    }
}

/// The signed number that `s` writes in binary: an optional `+` or `-` sign and at least
/// one binary digit, with a value that fits in 32 bits.
pub open spec fn binary_i32(s: Seq<char>) -> Option<i32> {
    let negative = s.len() > 0 && s[0] == '-';
    let digits = if s.len() > 0 && (s[0] == '+' || s[0] == '-') { s.drop_first() } else { s };
    let value = if negative { -binary_value(digits) } else { binary_value(digits) };
    if digits.len() > 0 && all_binary_digits(digits) && i32::MIN <= value <= i32::MAX {
        Some(value as i32)
    } else {
        None
    }
}

/// The value of a string of binary digits is at least that of each of its prefixes, and
/// not negative.
proof fn lemma_binary_value_grows(s: Seq<char>, k: int)
    requires
        all_binary_digits(s),
        0 <= k <= s.len(),
    ensures
        binary_value(s) >= binary_value(s.subrange(0, k)) >= 0,
    decreases s.len(),
{
    if s.len() > 0 {
        let front = s.drop_last();
        assert(all_binary_digits(front)) by {
            assert forall|i: int| 0 <= i < front.len() implies #[trigger] front[i] == '0' || front[i] == '1' by {
                assert(front[i] == s[i]);
            }
        }
        if k == s.len() {
            assert(s.subrange(0, k) =~= s);
            lemma_binary_value_grows(front, front.len() as int);
            assert(front.subrange(0, front.len() as int) =~= front);
        } else {
            lemma_binary_value_grows(front, k);
            assert(front.subrange(0, k) =~= s.subrange(0, k));
        }
    } else {
        assert(s.subrange(0, k) =~= s);
    }
}

/// The value of the binary digits of `s` from `start` on, when there is at least one, all
/// are binary digits and the value is at most `limit`.
fn binary_magnitude(s: &str, start: usize, limit: u64) -> (r: Option<u64>)
    requires
        start <= s@.len(),
        limit <= u32::MAX,
    ensures
        ({
            let digits = s@.subrange(start as int, s@.len() as int);
            match r {
                Some(v) => digits.len() > 0 && all_binary_digits(digits) && v == binary_value(digits) && v <= limit,
                None => !(digits.len() > 0 && all_binary_digits(digits) && binary_value(digits) <= limit),
            }
        }),
{
    let n = s.unicode_len();
    let ghost t = s@;
    let ghost digits = t.subrange(start as int, n as int);
    if start >= n {
        return None;
    }
    let mut value: u64 = 0;
    let mut j: usize = start;
    while j < n
        invariant
            s@ == t,
            n == t.len(),
            start <= j <= n,
            limit <= u32::MAX,
            digits == t.subrange(start as int, n as int),
            all_binary_digits(t.subrange(start as int, j as int)),
            value == binary_value(t.subrange(start as int, j as int)),
            value <= limit,
        decreases n - j,
    {
        let c = s.get_char(j);
        let ghost before = t.subrange(start as int, j as int);
        let ghost after = t.subrange(start as int, j + 1);
        assert(after.drop_last() =~= before);
        assert(after.last() == c);
        if c != '0' && c != '1' {
            assert(digits[j - start] == c);
            return None;
        }
        assert(all_binary_digits(after)) by {
            assert forall|i: int| 0 <= i < after.len() implies #[trigger] after[i] == '0' || after[i] == '1' by {
                if i < before.len() {
                    assert(after[i] == before[i]);
                }
            }
        }
        value = if c == '1' { value * 2 + 1 } else { value * 2 };
        if value > limit {
            proof {
                if all_binary_digits(digits) {
                    lemma_binary_value_grows(digits, (j + 1 - start) as int);
                    assert(digits.subrange(0, (j + 1 - start) as int) =~= after);
                }
            }
            return None;
        }
        j += 1;
    }
    assert(t.subrange(start as int, j as int) =~= digits);
    Some(value)
}

/// The unsigned number that `token` writes in binary, as `u32::from_str_radix(token, 2)`
/// reads it: an optional `+` sign and at least one binary digit, with a value below 2^32.
fn parse_binary_u32(token: &String) -> (r: Option<u32>)
    ensures
        r == binary_u32(token@),
{
    let s = token.as_str();
    let n = s.unicode_len();
    let start: usize = if n > 0 && s.get_char(0) == '+' { 1 } else { 0 };
    let ghost t = token@;
    assert(t.subrange(start as int, t.len() as int) =~= (if t.len() > 0 && t[0] == '+' { t.drop_first() } else { t }));
    match binary_magnitude(s, start, 0xffff_ffff) {
        Some(v) => Some(v as u32),
        None => None,
    }
}

/// The signed number that `token` writes in binary, as `i32::from_str_radix(token, 2)`
/// reads it: an optional `+` or `-` sign and at least one binary digit, with a value that
/// fits in 32 bits.
fn parse_binary_i32(token: &String) -> (r: Option<i32>)
    ensures
        r == binary_i32(token@),
{
    let s = token.as_str();
    let n = s.unicode_len();
    let mut start: usize = 0;
    let mut negative = false;
    if n > 0 {
        let c = s.get_char(0);
        if c == '-' {
            negative = true;
            start = 1;
        } else if c == '+' {
            start = 1;
        }
    }
    let ghost t = token@;
    assert(t.subrange(start as int, t.len() as int) =~= (if t.len() > 0 && (t[0] == '+' || t[0] == '-') {
        t.drop_first()
    } else {
        t
    }));
    match binary_magnitude(s, start, 0x8000_0000) {
        Some(v) => if negative {
            Some((0 - v as i64) as i32)
        } else if v <= 0x7fff_ffff {
            Some(v as i32)
        } else {
            None
        },
        None => None,
    }
}

/// Whether the FPU's result `computed` counts as the expected `expected`: when either
/// has the exponent field 0 (zero or subnormal), only their exponents are compared;
/// otherwise all their bits.
pub open spec fn results_agree(computed: u32, expected: u32) -> bool {
    if exponent_field(computed) == 0 || exponent_field(expected) == 0 {
        exponent_field(computed) == exponent_field(expected)
    } else {
        computed == expected
    }
}

fn results_match(computed: FloatingPoint, expected: FloatingPoint) -> (r: bool)
    ensures
        r == results_agree(computed.value, expected.value),
{
    let exp_of_correct_result = computed.get_exp();
    let ey = expected.get_exp();
    if exp_of_correct_result == -127 || ey == -127 {
        exp_of_correct_result == ey
    } else {
        computed == expected
    }
}

/// What a line of tokens `line` of the result file of `test` gives.
pub open spec fn line_check(test: FpuTest, line: Seq<Seq<char>>) -> LineCheck {
    let arity = match test {
        FpuTest::FourArithmetic(_) => 3int,
        FpuTest::Lt => 3,
        _ => 2,
    };
    let first_ok = match test {
        FpuTest::CvtSW => binary_i32(line[0]) is Some,
        _ => binary_u32(line[0]) is Some,
    };
    if line.len() != arity || !first_ok {
        LineCheck::Skipped
    } else if binary_u32(line[1]) is None || (arity == 3 && binary_u32(line[2]) is None) {
        LineCheck::Malformed
    } else {
        match test {
            FpuTest::FourArithmetic(FourArithmeticOperation::Add) => {
                let computed = fadd_bits(binary_u32(line[0])->0, binary_u32(line[1])->0);
                if results_agree(computed, binary_u32(line[2])->0) {
                    LineCheck::Passed
                } else {
                    LineCheck::Mismatch
                }
            },
            FpuTest::Lt => {
                let computed = fp_lt(binary_u32(line[0])->0, binary_u32(line[1])->0);
                if computed == (binary_u32(line[2])->0 == 1) {
                    LineCheck::Passed
                } else {
                    LineCheck::Mismatch
                }
            },
            _ => LineCheck::Unimplemented,
        }
    }
}

/// Checks one line of the result file of `test`, split into its tokens: a line of two
/// numbers (three for the arithmetic operations and the comparison) gives the operands
/// and the expected result, in binary.
pub fn check_result_line(test: FpuTest, line: &Vec<String>) -> (r: LineCheck)
    ensures
        r == line_check(test, line@.map_values(|t: String| t@)),
{
    let ghost tokens = line@.map_values(|t: String| t@);
    let arity: usize = match test {
        FpuTest::FourArithmetic(_) => 3,
        FpuTest::Lt => 3,
        _ => 2,
    };
    if line.len() != arity {
        return LineCheck::Skipped;
    }
    assert(tokens[0] == line@[0]@ && tokens[1] == line@[1]@);
    let first_ok = match test {
        FpuTest::CvtSW => parse_binary_i32(&line[0]).is_some(),
        _ => parse_binary_u32(&line[0]).is_some(),
    };
    if !first_ok {
        return LineCheck::Skipped;
    }
    let x2 = match parse_binary_u32(&line[1]) {
        Some(x2) => x2,
        None => {
            return LineCheck::Malformed;
        },
    };
    if arity == 2 {
        return LineCheck::Unimplemented;
    }
    assert(tokens[2] == line@[2]@);
    let y = match parse_binary_u32(&line[2]) {
        Some(y) => y,
        None => {
            return LineCheck::Malformed;
        },
    };
    let x1 = FloatingPoint::new(parse_binary_u32(&line[0]).unwrap());
    let x2 = FloatingPoint::new(x2);
    match test {
        FpuTest::FourArithmetic(FourArithmeticOperation::Add) => {
            let correct_result = x1.add(x2);
            if results_match(correct_result, FloatingPoint::new(y)) {
                LineCheck::Passed
            } else {
                LineCheck::Mismatch
            }
        },
        FpuTest::Lt => {
            let correct_result = x1 < x2;
            if correct_result == (y == 1) {
                LineCheck::Passed
            } else {
                LineCheck::Mismatch
            }
        },
        _ => LineCheck::Unimplemented,
    }
}

} // verus!
