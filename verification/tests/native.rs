use std::collections::hash_map::DefaultHasher;
use std::hash::Hash;
use std::hash::Hasher;

use coda_native::BindLoadError;
use coda_native::ControlFlowImpact;
use coda_native::NativeBind;
use coda_native::NativeHandler;
use coda_native::NativeValue;

fn add_handler(args: Vec<NativeValue>) -> Option<ControlFlowImpact> {
    match (args.get(0), args.get(1)) {
        (Some(NativeValue::Integer(a)), Some(NativeValue::Integer(b))) => Some(
            ControlFlowImpact::Return(NativeValue::Integer(a + b)),
        ),
        _ => None,
    }
}

fn noop_handler(_args: Vec<NativeValue>) -> Option<ControlFlowImpact> {
    None
}

fn hash_of(bind: &NativeBind) -> u64 {
    let mut hasher = DefaultHasher::new();
    bind.hash(&mut hasher);
    hasher.finish()
}

#[test]
fn renders_character() {
    assert_eq!(NativeValue::Character('a').to_text(), "a");
}

#[test]
fn renders_boolean() {
    assert_eq!(NativeValue::Boolean(false).to_text(), "false");
    assert_eq!(NativeValue::Boolean(true).to_text(), "true");
}

#[test]
fn renders_integer() {
    assert_eq!(NativeValue::Integer(-5).to_text(), "-5");
    assert_eq!(NativeValue::Integer(0).to_text(), "0");
    assert_eq!(NativeValue::Integer(i32::MIN).to_text(), "-2147483648");
    assert_eq!(NativeValue::Integer(i32::MAX).to_text(), "2147483647");
}

#[test]
fn renders_long() {
    assert_eq!(NativeValue::Long(42).to_text(), "42");
    assert_eq!(
        NativeValue::Long(i128::MIN).to_text(),
        "-170141183460469231731687303715884105728",
    );
    assert_eq!(
        NativeValue::Long(i128::MAX).to_text(),
        "170141183460469231731687303715884105727",
    );
}

#[test]
fn renders_byte() {
    assert_eq!(NativeValue::Byte(0).to_text(), "0");
    assert_eq!(NativeValue::Byte(255).to_text(), "255");
}

#[test]
fn renders_string() {
    assert_eq!(
        NativeValue::String(String::from("hello coda")).to_text(),
        "hello coda",
    );
}

#[test]
fn renders_double() {
    assert_eq!(NativeValue::Double(2.5f64.to_bits()).to_text(), "2.5");
    assert_eq!(NativeValue::Double(100000.0f64.to_bits()).to_text(), "100000");
    assert_eq!(NativeValue::Double(0.0625f64.to_bits()).to_text(), "0.0625");
    assert_eq!(NativeValue::Double(0.0f64.to_bits()).to_text(), "0");
    assert_eq!(
        NativeValue::Double(1.0e20f64.to_bits()).to_text(),
        "100000000000000000000",
    );
    assert_eq!(
        NativeValue::Double((-1.0e18f64).to_bits()).to_text(),
        "-1000000000000000000",
    );
}

#[test]
fn binds_equal_when_name_and_function_agree() {
    let a = NativeBind { name: "add", handler: NativeHandler { inner: add_handler } };
    let b = NativeBind { name: "add", handler: NativeHandler { inner: add_handler } };
    assert!(a == b);
    assert_eq!(hash_of(&a), hash_of(&b));
}

#[test]
fn binds_differ_by_name() {
    let a = NativeBind { name: "add", handler: NativeHandler { inner: add_handler } };
    let b = NativeBind { name: "plus", handler: NativeHandler { inner: add_handler } };
    assert!(a != b);
}

#[test]
fn binds_differ_by_function() {
    let a = NativeBind { name: "add", handler: NativeHandler { inner: add_handler } };
    let b = NativeBind { name: "add", handler: NativeHandler { inner: noop_handler } };
    assert!(a != b);
}

#[test]
fn add_binding_scenario() {
    let binds = vec![NativeBind { name: "add", handler: NativeHandler { inner: add_handler } }];
    assert_eq!(binds.len(), 1);
    assert_eq!(binds[0].name, "add");
    let outcome = (binds[0].handler.inner)(vec![
        NativeValue::Integer(2),
        NativeValue::Integer(3),
    ]);
    assert_eq!(
        outcome,
        Some(ControlFlowImpact::Return(NativeValue::Integer(5))),
    );
}

#[test]
fn open_failure_is_wrapped() {
    let err = match dlopen::symbor::Library::open("/nonexistent/coda/extension.so") {
        Ok(_) => panic!("a nonexistent path must not open"),
        Err(e) => e,
    };
    let wrapped = BindLoadError::from(err);
    assert!(matches!(wrapped, BindLoadError::DlOpen(_)));
    let text = wrapped.message();
    assert!(text.starts_with("BindLoadError: "));
    assert!(text.len() > "BindLoadError: ".len());
}

#[test]
fn prefixed_message_keeps_text_verbatim() {
    assert_eq!(
        coda_native::prefixed_message("no such symbol"),
        "BindLoadError: no such symbol",
    );
}

#[test]
fn simple_error_message() {
    let err = BindLoadError::Simple("bootstrap symbol missing");
    assert_eq!(err.message(), "BindLoadError: bootstrap symbol missing");
}
