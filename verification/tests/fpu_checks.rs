use cpuex2_simulator::fpu_tester::{check_result_line, is_fpu_operation, result_file_path, test_fpu, FourArithmeticOperation, FpuTest, LineCheck};

fn tokens(line: &str) -> Vec<String> {
    line.split_whitespace().map(|t| t.to_string()).collect()
}

#[test]
fn operation_names_select_tests() {
    assert_eq!(test_fpu("fadd"), vec![FpuTest::FourArithmetic(FourArithmeticOperation::Add)]);
    assert_eq!(test_fpu("fsub"), vec![FpuTest::FourArithmetic(FourArithmeticOperation::Sub)]);
    assert_eq!(test_fpu("fmul"), vec![FpuTest::FourArithmetic(FourArithmeticOperation::Mul)]);
    assert_eq!(test_fpu("fdiv"), vec![FpuTest::FourArithmetic(FourArithmeticOperation::Div)]);
    assert_eq!(test_fpu("fsqrt"), vec![FpuTest::Sqrt]);
    assert_eq!(test_fpu("flt"), vec![FpuTest::Lt]);
    assert_eq!(test_fpu("fcvtsw"), vec![FpuTest::CvtSW]);
    assert_eq!(test_fpu("fcvtws"), vec![FpuTest::CvtWS]);
    assert!(is_fpu_operation("all"));
    assert!(is_fpu_operation("fcvtws"));
    assert!(!is_fpu_operation(""));
    assert!(!is_fpu_operation("fadd "));
}

#[test]
fn result_files() {
    assert_eq!(result_file_path(FpuTest::FourArithmetic(FourArithmeticOperation::Add)), "../test_result/fadd_result.txt");
    assert_eq!(result_file_path(FpuTest::Lt), "../test_result/flt_result.txt");
    assert_eq!(result_file_path(FpuTest::CvtWS), "../test_result/fcvtws_result.txt");
}

#[test]
fn fadd_lines() {
    let add = FpuTest::FourArithmetic(FourArithmeticOperation::Add);
    // 1.0 + 2.0 = 3.0
    let line = tokens("00111111100000000000000000000000 01000000000000000000000000000000 01000000010000000000000000000000");
    assert_eq!(check_result_line(add, &line), LineCheck::Passed);
    let wrong = tokens("00111111100000000000000000000000 01000000000000000000000000000000 01000000010000000000000000000001");
    assert_eq!(check_result_line(add, &wrong), LineCheck::Mismatch);
    // results with exponent field 0 only compare their exponents
    let tiny = tokens("00000000000000000000000000000001 00000000000000000000000000000001 00000000000000000000000000000111");
    assert_eq!(check_result_line(add, &tiny), LineCheck::Passed);
}

#[test]
fn lines_that_hold_no_test() {
    let add = FpuTest::FourArithmetic(FourArithmeticOperation::Add);
    assert_eq!(check_result_line(add, &tokens("x1 x2 y")), LineCheck::Skipped);
    assert_eq!(check_result_line(add, &tokens("1 1")), LineCheck::Skipped);
    assert_eq!(check_result_line(add, &tokens("1 2 1")), LineCheck::Malformed);
    assert_eq!(check_result_line(add, &tokens("1 1 -1")), LineCheck::Malformed);
    assert_eq!(check_result_line(FpuTest::Sqrt, &tokens("1 1 1")), LineCheck::Skipped);
}

#[test]
fn flt_lines() {
    let less = tokens("00111111100000000000000000000000 01000000000000000000000000000000 1");
    assert_eq!(check_result_line(FpuTest::Lt, &less), LineCheck::Passed);
    let not_less = tokens("01000000000000000000000000000000 00111111100000000000000000000000 0");
    assert_eq!(check_result_line(FpuTest::Lt, &not_less), LineCheck::Passed);
    let wrong = tokens("01000000000000000000000000000000 00111111100000000000000000000000 1");
    assert_eq!(check_result_line(FpuTest::Lt, &wrong), LineCheck::Mismatch);
}

#[test]
fn operations_without_a_circuit() {
    let sub = FpuTest::FourArithmetic(FourArithmeticOperation::Sub);
    assert_eq!(check_result_line(sub, &tokens("1 1 0")), LineCheck::Unimplemented);
    assert_eq!(check_result_line(FpuTest::Sqrt, &tokens("1 1")), LineCheck::Unimplemented);
    assert_eq!(check_result_line(FpuTest::CvtSW, &tokens("-101 1")), LineCheck::Unimplemented);
    assert_eq!(check_result_line(FpuTest::CvtWS, &tokens("-101 1")), LineCheck::Skipped);
}

#[test]
fn all_selects_every_test_in_turn() {
    assert_eq!(
        test_fpu("all"),
        vec![
            FpuTest::FourArithmetic(FourArithmeticOperation::Add),
            FpuTest::FourArithmetic(FourArithmeticOperation::Sub),
            FpuTest::FourArithmetic(FourArithmeticOperation::Mul),
            FpuTest::FourArithmetic(FourArithmeticOperation::Div),
            FpuTest::Sqrt,
            FpuTest::Lt,
            FpuTest::CvtSW,
            FpuTest::CvtWS,
        ]
    );
    assert_eq!(test_fpu("flt"), vec![FpuTest::Lt]);
    assert!(!is_fpu_operation("fma"));
    assert!(!is_fpu_operation("All"));
}

#[test]
fn binary_tokens_follow_the_radix_syntax() {
    let add = FpuTest::FourArithmetic(FourArithmeticOperation::Add);
    // a first token with a sign that an unsigned number does not take holds no test
    assert_eq!(check_result_line(add, &tokens("-0 0 0")), LineCheck::Skipped);
    assert_eq!(check_result_line(add, &tokens("+0 +0 0")), LineCheck::Passed);
    assert_eq!(check_result_line(add, &tokens("2 0 0")), LineCheck::Skipped);
    assert_eq!(check_result_line(add, &tokens("0 0 100000000000000000000000000000000")), LineCheck::Malformed);
    assert_eq!(check_result_line(add, &tokens("0 0 11111111111111111111111111111111")), LineCheck::Mismatch);
    // a signed first token is read for the integer conversion
    assert_eq!(check_result_line(FpuTest::CvtSW, &tokens("-10000000000000000000000000000000 1")), LineCheck::Unimplemented);
    assert_eq!(check_result_line(FpuTest::CvtSW, &tokens("-100000000000000000000000000000001 1")), LineCheck::Skipped);
    assert_eq!(check_result_line(FpuTest::CvtSW, &tokens("+ 1")), LineCheck::Skipped);
}
