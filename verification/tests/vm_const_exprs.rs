//! Constant expressions evaluated through the whole pipeline: source
//! text is compiled, and the body of `main` is evaluated against the
//! indexed constants.

use rune::{eval_entry, ConstValue};

fn eval_bool(source: &str) -> bool {
    match eval_entry(source) {
        Ok(ConstValue::Bool(b)) => b,
        Ok(_) => panic!("expected a boolean out of program `{}`", source),
        Err(_) => panic!("failed to evaluate program `{}`", source),
    }
}

fn eval_str(source: &str) -> String {
    match eval_entry(source) {
        Ok(ConstValue::Str(s)) => s,
        Ok(_) => panic!("expected a string out of program `{}`", source),
        Err(_) => panic!("failed to evaluate program `{}`", source),
    }
}

fn eval_i64(source: &str) -> i64 {
    match eval_entry(source) {
        Ok(ConstValue::Integer(n)) => n,
        Ok(_) => panic!("expected an integer out of program `{}`", source),
        Err(_) => panic!("failed to evaluate program `{}`", source),
    }
}

fn int_op(lhs: &str, op: &str, rhs: &str) -> i64 {
    let program = format!(
        r#"const A = {lhs}; const B = {rhs}; const VALUE = A {op} B; fn main() {{ VALUE }}"#,
        lhs = lhs,
        op = op,
        rhs = rhs,
    );
    eval_i64(&program)
}

fn bool_op(lhs: &str, op: &str, rhs: &str) -> bool {
    let program = format!(
        r#"const A = {lhs}; const B = {rhs}; const VALUE = A {op} B; fn main() {{ VALUE }}"#,
        lhs = lhs,
        op = op,
        rhs = rhs,
    );
    eval_bool(&program)
}

#[test]
fn test_const_values() {
    assert_eq!(true, eval_bool(r#"const VALUE = true; fn main() { VALUE }"#));

    assert_eq!(
        "Hello World",
        eval_str(r#"const VALUE = "Hello World"; fn main() { VALUE }"#)
    );

    assert_eq!(
        "Hello World 1 1.0 true",
        eval_str(
            r#"
            const VALUE = `Hello {WORLD} {A} {B} {C}`;
            const WORLD = "World";
            const A = 1;
            const B = 1.0;
            const C = true;
            fn main() { VALUE }
        "#
        )
    );
}

#[test]
fn test_integer_ops() {
    assert_eq!(3, int_op("1", "+", "2"));
    assert_eq!(1, int_op("2", "-", "1"));
    assert_eq!(4, int_op("8", "/", "2"));
    assert_eq!(16, int_op("8", "*", "2"));
    assert_eq!(0b101000, int_op("0b1010", "<<", "2"));
    assert_eq!(0b10, int_op("0b1010", ">>", "2"));
    assert_eq!(true, bool_op("1", "<", "2"));
    assert_eq!(false, bool_op("2", "<", "2"));
    assert_eq!(true, bool_op("1", "<=", "1"));
    assert_eq!(false, bool_op("2", "<=", "1"));
    assert_eq!(true, bool_op("3", ">", "2"));
    assert_eq!(false, bool_op("2", ">", "2"));
    assert_eq!(true, bool_op("1", ">=", "1"));
    assert_eq!(false, bool_op("0", ">=", "2"));
}

#[test]
fn test_const_value_float_spelling() {
    match eval_entry(r#"const VALUE = 1.5; fn main() { VALUE }"#) {
        Ok(ConstValue::Float(text)) => assert_eq!("1.5", text),
        _ => panic!("expected a float constant"),
    }
}

#[test]
fn test_const_errors() {
    let errors = eval_entry(r#"const A = 1; fn main() { MISSING }"#).unwrap_err();
    assert_eq!(1, errors.len());
    match &errors.get(0).kind {
        rune::LoadErrorKind::Compile(e) => {
            assert!(matches!(e.kind, rune::CompileErrorKind::MissingConst { .. }));
        }
        _ => panic!("expected a compile error"),
    }

    let errors = eval_entry(r#"const A = A + 1; fn main() { A }"#).unwrap_err();
    assert_eq!(1, errors.len());
    match &errors.get(0).kind {
        rune::LoadErrorKind::Compile(e) => {
            assert!(matches!(e.kind, rune::CompileErrorKind::ConstDepthExceeded));
        }
        _ => panic!("expected a compile error"),
    }

    let errors =
        eval_entry(r#"const A = 9223372036854775807 + 1; fn main() { A }"#).unwrap_err();
    match &errors.get(0).kind {
        rune::LoadErrorKind::Compile(e) => {
            assert!(matches!(
                e.kind,
                rune::CompileErrorKind::ConstArithmeticOverflow
            ));
        }
        _ => panic!("expected a compile error"),
    }

    let errors = eval_entry(r#"const A = 1 / 0; fn main() { A }"#).unwrap_err();
    match &errors.get(0).kind {
        rune::LoadErrorKind::Compile(e) => {
            assert!(matches!(e.kind, rune::CompileErrorKind::ConstDivisionByZero));
        }
        _ => panic!("expected a compile error"),
    }
}

#[test]
fn test_template_negative_integer() {
    assert_eq!(
        "at -42 degrees",
        eval_str(
            r#"
            const N = 0 - 42;
            const VALUE = `at {N} degrees`;
            fn main() { VALUE }
        "#
        )
    );
}
