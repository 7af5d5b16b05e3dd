use qjs_core::builder::ContextBuilder;
use qjs_core::error::{ExceptionKind, JsError};
use qjs_core::runtime::JSRuntime;
use qjs_core::value::Value;

#[test]
fn arithmetic_is_left_to_right() {
    let mut rt = JSRuntime::new();
    let ctx = ContextBuilder::default().build(&mut rt).unwrap();
    assert_eq!(rt.eval(&ctx, "1+1"), Ok(Value::Int(2)));
    assert_eq!(rt.eval(&ctx, "1+2+3"), Ok(Value::Int(6)));
    assert_eq!(rt.eval(&ctx, "10-4+2"), Ok(Value::Int(8)));
    assert_eq!(rt.eval(&ctx, "  12 + 34 "), Ok(Value::Int(46)));
    assert_eq!(rt.eval(&ctx, "2147483647"), Ok(Value::Int(2147483647)));
    assert_eq!(rt.eval(&ctx, "0-2147483647-1"), Ok(Value::Int(-2147483648)));
}

#[test]
fn a_literal_too_large_for_the_engine_is_a_syntax_error() {
    let mut rt = JSRuntime::new();
    let ctx = ContextBuilder::default().build(&mut rt).unwrap();
    match rt.eval(&ctx, "2147483648") {
        Err(JsError::Exception(e)) => assert_eq!(e.kind, ExceptionKind::Syntax),
        other => panic!("expected a syntax error, got {:?}", other),
    }
}

#[test]
fn a_sum_out_of_range_is_a_script_level_type_error() {
    let mut rt = JSRuntime::new();
    let ctx = ContextBuilder::default().build(&mut rt).unwrap();
    match rt.eval(&ctx, "2147483647+1") {
        Err(JsError::Exception(e)) => assert_eq!(e.kind, ExceptionKind::Type),
        other => panic!("expected a type error, got {:?}", other),
    }
}

#[test]
fn malformed_scripts_are_syntax_errors() {
    let mut rt = JSRuntime::new();
    let ctx = ContextBuilder::default().build(&mut rt).unwrap();
    for bad in ["", "   ", "1 & 2", "+", "1+", "1 2", "throw", "throw +"] {
        match rt.eval(&ctx, bad) {
            Err(JsError::Exception(e)) => {
                assert_eq!(e.kind, ExceptionKind::Syntax, "script {:?}", bad)
            },
            other => panic!("expected a syntax error for {:?}, got {:?}", bad, other),
        }
    }
}

#[test]
fn arithmetic_on_an_object_is_a_type_error() {
    let mut rt = JSRuntime::new();
    let ctx = ContextBuilder::default()
        .with::<qjs_core::intrinsic::Date>()
        .build(&mut rt)
        .unwrap();
    match rt.eval(&ctx, "Date+1") {
        Err(JsError::Exception(e)) => assert_eq!(e.kind, ExceptionKind::Type),
        other => panic!("expected a type error, got {:?}", other),
    }
}

#[test]
fn a_thrown_value_is_captured_and_the_context_recovers() {
    let mut rt = JSRuntime::new();
    let ctx = ContextBuilder::default().build(&mut rt).unwrap();
    match rt.eval(&ctx, "throw 42") {
        Err(JsError::Exception(e)) => {
            assert_eq!(e.kind, ExceptionKind::Thrown);
            assert_eq!(e.value, Value::Int(42));
        },
        other => panic!("expected a thrown exception, got {:?}", other),
    }
    // The pending slot was cleared when the exception was captured: an
    // unrelated script evaluates normally right away.
    assert_eq!(rt.eval(&ctx, "1+1"), Ok(Value::Int(2)));
    assert_eq!(rt.capture_exception(&ctx), Ok(None));
}

#[test]
fn throw_evaluates_its_expression() {
    let mut rt = JSRuntime::new();
    let ctx = ContextBuilder::default().build(&mut rt).unwrap();
    match rt.eval(&ctx, "throw 40+2") {
        Err(JsError::Exception(e)) => {
            assert_eq!(e.kind, ExceptionKind::Thrown);
            assert_eq!(e.value, Value::Int(42));
        },
        other => panic!("expected a thrown exception, got {:?}", other),
    }
}

#[test]
fn a_host_thrown_exception_sits_in_the_slot_until_captured() {
    let mut rt = JSRuntime::new();
    let ctx = ContextBuilder::default().build(&mut rt).unwrap();
    assert_eq!(rt.capture_exception(&ctx), Ok(None));
    let e = qjs_core::error::ScriptException {
        kind: ExceptionKind::Thrown,
        message: String::from("host fault"),
        value: Value::Int(13),
    };
    rt.throw_exception(&ctx, e.clone()).unwrap();
    assert_eq!(rt.capture_exception(&ctx), Ok(Some(e.clone())));
    // Captured means cleared: the slot is empty again.
    assert_eq!(rt.capture_exception(&ctx), Ok(None));
    // A pending host exception never changes what a script evaluates to.
    rt.throw_exception(&ctx, e).unwrap();
    assert_eq!(rt.eval(&ctx, "2+3"), Ok(Value::Int(5)));
    assert_eq!(rt.capture_exception(&ctx), Ok(None));
}

#[test]
fn the_interrupt_budget_cuts_off_long_evaluations() {
    let mut rt = JSRuntime::new();
    let ctx = ContextBuilder::default().build(&mut rt).unwrap();
    rt.set_interrupt_budget(2);
    assert_eq!(rt.eval(&ctx, "1+1"), Ok(Value::Int(2)));
    assert_eq!(rt.eval(&ctx, "1+1+1+1+1"), Err(JsError::Interrupted));
    // The context stays usable: a shorter script runs, and removing the hook
    // lets the long one finish.
    assert_eq!(rt.eval(&ctx, "1+1+1"), Ok(Value::Int(3)));
    rt.clear_interrupt_budget();
    assert_eq!(rt.eval(&ctx, "1+1+1+1+1"), Ok(Value::Int(5)));
}

#[test]
fn contexts_of_one_runtime_are_isolated() {
    let mut rt = JSRuntime::new();
    let a = ContextBuilder::default().build(&mut rt).unwrap();
    let b = ContextBuilder::default()
        .with::<qjs_core::intrinsic::Date>()
        .build(&mut rt)
        .unwrap();
    // They share the runtime's allocator but not their globals.
    assert!(matches!(rt.eval(&b, "Date"), Ok(Value::Object(_))));
    match rt.eval(&a, "Date") {
        Err(JsError::Exception(e)) => assert_eq!(e.kind, ExceptionKind::Reference),
        other => panic!("expected a reference error, got {:?}", other),
    }
    // Freeing one leaves the other fully usable.
    rt.free_context(a).unwrap();
    assert_eq!(rt.eval(&b, "2+2"), Ok(Value::Int(4)));
    rt.free_context(b).unwrap();
    rt.free().unwrap();
}

#[test]
fn a_handle_against_the_wrong_runtime_is_an_ownership_error() {
    let mut rt1 = JSRuntime::new();
    let ctx = ContextBuilder::default().build(&mut rt1).unwrap();
    let mut rt2 = JSRuntime::new();
    // rt2 has no context slot this handle could name.
    assert_eq!(rt2.eval(&ctx, "1+1"), Err(JsError::Ownership));
    rt1.free_context(ctx).unwrap();
    rt1.free().unwrap();
    rt2.free().unwrap();
}
