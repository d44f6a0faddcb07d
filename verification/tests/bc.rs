use bc::{bc, bc_timeout, BCError};

/// A small arbitrary-precision calculator speaking the bc protocol, for the
/// tests to invoke as a child process: one statement per input line, each
/// result newline-terminated, results wider than 70 columns wrapped with a
/// backslash-newline continuation marker, assignments silent, malformed
/// statements reported on the error stream, and huge exponentiations slow in
/// small interruptible steps so that a wrapping timeout supervisor can end
/// them promptly.
const CALCULATOR_SCRIPT: &str = r#"#!/usr/bin/python3
import re
import sys
import time
from fractions import Fraction
from math import log10

try:
    sys.set_int_max_str_digits(1_000_000_000)
except AttributeError:
    pass

WIDTH = 69
names = {}


def emit(text):
    lines = []
    while len(text) > WIDTH:
        lines.append(text[:WIDTH] + "\\")
        text = text[WIDTH:]
    lines.append(text)
    sys.stdout.write("\n".join(lines) + "\n")
    sys.stdout.flush()


def fmt(value, scale):
    sign = "-" if value < 0 else ""
    value = abs(value)
    if scale == 0:
        return sign + str(value.numerator // value.denominator)
    digits = str((value.numerator * 10 ** scale) // value.denominator)
    if len(digits) < scale + 1:
        digits = "0" * (scale + 1 - len(digits)) + digits
    whole, frac = digits[:-scale], digits[-scale:]
    return sign + ("" if whole == "0" else whole) + "." + frac


def throttle(expr):
    work = 0.0
    for base, exp in re.findall(r"(\d+)\^(\d+)", expr):
        if base not in ("0", "1"):
            work += float(exp) * log10(float(base))
    if work > 50_000:
        for _ in range(int(work) // 1_000):
            time.sleep(0.1)


def arith(expr):
    if not re.fullmatch(r"[0-9a-z_+\-*/^%(). ]+", expr):
        raise SyntaxError(expr)
    throttle(expr)
    py = re.sub(r"(\d+\.\d+|\.\d+|\d+)", r"Fraction('\g<1>')", expr.replace("^", "**"))
    scope = {n: names.get(n, Fraction(0)) for n in re.findall(r"[a-z][a-z0-9_]*", expr)}
    value = eval(py, {"Fraction": Fraction, "__builtins__": {}}, scope)
    if not isinstance(value, Fraction):
        value = Fraction(value)
    return value, "/" in expr


def statement(line):
    line = line.strip()
    if not line:
        return None
    if line in ("quit", "halt"):
        sys.exit(0)
    m = re.fullmatch(r"([a-z][a-z0-9_]*)\s*=\s*([^=].*)", line)
    if m:
        names[m.group(1)] = arith(m.group(2))[0]
        return None
    value, used_div = arith(line)
    return fmt(value, 20 if used_div else 0)


lineno = 0
for line in sys.stdin:
    lineno += 1
    try:
        result = statement(line)
    except SystemExit:
        raise
    except Exception:
        sys.stderr.write("(standard_in) %d: syntax error\n" % lineno)
        sys.stderr.flush()
        continue
    if result is not None:
        emit(result)
"#;

/// Writes the calculator onto the disk and returns its path.
fn calculator() -> String {
    let path = "/tmp/bc_test_calculator";
    duct::cmd("tee", [path])
        .stdin_bytes(CALCULATOR_SCRIPT)
        .stdout_capture()
        .run()
        .unwrap();
    duct::cmd("chmod", ["755", path]).run().unwrap();
    path.to_string()
}

#[test]
fn add() {
    let result = bc(&calculator(), "1+1").unwrap();

    assert_eq!(2, result.parse::<isize>().unwrap());
}

#[test]
fn sub() {
    let result = bc(&calculator(), "2-1").unwrap();

    assert_eq!(1, result.parse::<isize>().unwrap());
}

#[test]
fn multiply() {
    let result = bc(&calculator(), "2*3").unwrap();

    assert_eq!(6, result.parse::<isize>().unwrap());
}

#[test]
fn divide() {
    let result = bc(&calculator(), "5/2").unwrap();

    let value = result.parse::<f64>().unwrap();
    assert!((value - 2.5).abs() < 1.0e-6);
}

#[test]
fn power() {
    let result = bc(&calculator(), "2^100").unwrap();

    assert_eq!(1_267_650_600_228_229_401_496_703_205_376, result.parse::<i128>().unwrap());
}

#[test]
#[should_panic(expected = "called `Result::unwrap()` on an `Err` value: Timeout")]
fn power_extreme() {
    bc_timeout("timeout", 1, &calculator(), "99999^99999").unwrap();
}

#[test]
fn syntax_error_reported_on_stderr() {
    let r = bc(&calculator(), "1+");
    assert!(matches!(r, Err(BCError::Error(_))));
}

#[test]
fn assignment_produces_no_result() {
    let r = bc(&calculator(), "x=1");
    assert!(matches!(r, Err(BCError::NoResult)));
}

#[test]
fn long_result_is_rejoined() {
    let result = bc(&calculator(), "99^99").unwrap();
    assert_eq!(
        result,
        "369729637649726772657187905628805440595668764281741102430259972423552570455277523421410650010128232727940978889548326540119429996769494359451621570193644014418071060667659301384999779999159200499899"
    );
}
