use adan_backend::target::CompilationTarget;
use adan_backend::value::{clone_value, value_text, values_equal, Value};

#[test]
fn truthiness_rules() {
    assert!(!Value::Null.is_truthy());
    assert!(Value::Boolean(true).is_truthy());
    assert!(!Value::Boolean(false).is_truthy());
    assert!(Value::Integer(-3).is_truthy());
    assert!(!Value::Integer(0).is_truthy());
    assert!(Value::Float(1.5f64.to_bits()).is_truthy());
    assert!(!Value::Float(0.0f64.to_bits()).is_truthy());
    assert!(!Value::Float((-0.0f64).to_bits()).is_truthy());
    assert!(Value::Float(f64::NAN.to_bits()).is_truthy());
    assert!(Value::Str("x".to_string()).is_truthy());
    assert!(!Value::Str(String::new()).is_truthy());
}

#[test]
fn equality_is_structural_per_variant() {
    assert!(values_equal(&Value::Integer(1), &Value::Integer(1)));
    assert!(!values_equal(&Value::Integer(1), &Value::Float(1.0f64.to_bits())));
    assert!(!values_equal(&Value::Null, &Value::Boolean(false)));
    assert!(values_equal(
        &Value::Str("ab".to_string()),
        &Value::Str("ab".to_string())
    ));
}

#[test]
fn float_equality_is_ieee() {
    let nan = f64::NAN.to_bits();
    assert!(!values_equal(&Value::Float(nan), &Value::Float(nan)));
    assert!(values_equal(
        &Value::Float(0.0f64.to_bits()),
        &Value::Float((-0.0f64).to_bits())
    ));
    assert!(!values_equal(
        &Value::Float(1.0f64.to_bits()),
        &Value::Float(2.0f64.to_bits())
    ));
}

#[test]
fn printed_forms() {
    assert_eq!(value_text(&Value::Null), "null");
    assert_eq!(value_text(&Value::Boolean(true)), "true");
    assert_eq!(value_text(&Value::Boolean(false)), "false");
    assert_eq!(value_text(&Value::Integer(-42)), "-42");
    assert_eq!(value_text(&Value::Integer(i64::MIN)), i64::MIN.to_string());
    assert_eq!(value_text(&Value::Str("hi".to_string())), "hi");
}

#[test]
fn float_printed_form_is_decimal() {
    assert_eq!(value_text(&Value::Float(0.5f64.to_bits())), "0.5");
}

#[test]
fn clone_preserves_values() {
    let v = Value::Str("deep".to_string());
    let c = clone_value(&v);
    assert!(values_equal(&v, &c));
}

#[test]
fn target_names_parse_case_insensitively() {
    assert_eq!(
        CompilationTarget::from_str("LINUX"),
        Some(CompilationTarget::X86_64Linux)
    );
    assert_eq!(
        CompilationTarget::from_str("x86_64-macos"),
        Some(CompilationTarget::X86_64MacOS)
    );
    assert_eq!(
        CompilationTarget::from_str("Apple-Silicon"),
        Some(CompilationTarget::AArch64MacOS)
    );
    assert_eq!(
        CompilationTarget::from_str("arm64-linux"),
        Some(CompilationTarget::AArch64Linux)
    );
    assert_eq!(CompilationTarget::from_str("riscv"), None);
}
