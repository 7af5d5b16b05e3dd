use qjs_core::builder::ContextBuilder;
use qjs_core::error::{ExceptionKind, JsError};
use qjs_core::intrinsic::{All, BaseObjects, Date, Json, Operators, Promise, Proxy};
use qjs_core::runtime::JSRuntime;
use qjs_core::value::Value;

#[test]
fn selected_families_resolve_and_unselected_fail_as_undefined() {
    let mut rt = JSRuntime::new();
    let ctx = ContextBuilder::default()
        .with::<BaseObjects>()
        .with::<Date>()
        .build(&mut rt)
        .unwrap();
    assert!(matches!(rt.eval(&ctx, "Date"), Ok(Value::Object(_))));
    assert!(matches!(rt.eval(&ctx, "Object"), Ok(Value::Object(_))));
    match rt.eval(&ctx, "Promise") {
        Err(JsError::Exception(e)) => {
            assert_eq!(e.kind, ExceptionKind::Reference);
            assert_eq!(e.message, "Promise");
        },
        other => panic!("expected a reference error, got {:?}", other),
    }
}

#[test]
fn the_empty_composite_supports_arithmetic_but_no_globals() {
    let mut rt = JSRuntime::new();
    let ctx = ContextBuilder::default().build(&mut rt).unwrap();
    assert_eq!(rt.eval(&ctx, "1+1"), Ok(Value::Int(2)));
    match rt.eval(&ctx, "Date") {
        Err(JsError::Exception(e)) => {
            assert_eq!(e.kind, ExceptionKind::Reference);
            assert_eq!(e.message, "Date");
        },
        other => panic!("expected a reference error, got {:?}", other),
    }
}

#[test]
fn the_full_composite_installs_every_named_family() {
    let mut rt = JSRuntime::new();
    let ctx = ContextBuilder::default().with::<All>().build(&mut rt).unwrap();
    for name in [
        "Object",
        "Date",
        "eval",
        "normalize",
        "RegExp",
        "JSON",
        "Proxy",
        "Map",
        "ArrayBuffer",
        "Promise",
        "BigInt",
        "BigFloat",
        "BigDecimal",
    ] {
        assert!(
            matches!(rt.eval(&ctx, name), Ok(Value::Object(_))),
            "{} should be installed",
            name
        );
    }
    // The operator-overloading installer found the base objects in place.
    assert_eq!(rt.eval(&ctx, "Operators"), Ok(Value::Bool(true)));
}

#[test]
fn nested_composites_install_like_their_flattened_form() {
    let mut rt = JSRuntime::new();
    let nested = ContextBuilder::default()
        .with::<(BaseObjects, (Date, (Json, Proxy)))>()
        .build(&mut rt)
        .unwrap();
    let flat = ContextBuilder::default()
        .with::<BaseObjects>()
        .with::<Date>()
        .with::<Json>()
        .with::<Proxy>()
        .build(&mut rt)
        .unwrap();
    for name in ["Object", "Date", "JSON", "Proxy"] {
        let a = rt.eval(&nested, name).unwrap();
        let b = rt.eval(&flat, name).unwrap();
        assert_eq!(a, b, "{} differs between nested and flat installation", name);
    }
}

#[test]
fn installation_order_is_left_to_right() {
    let mut rt = JSRuntime::new();
    // The operator-overloading installer queries the state the base-object
    // installer leaves behind, so it must run second to see it.
    let ordered = ContextBuilder::default()
        .with::<(BaseObjects, Operators)>()
        .build(&mut rt)
        .unwrap();
    assert_eq!(rt.eval(&ordered, "Operators"), Ok(Value::Bool(true)));
    // The reverse order is documented as unsupported for this pair: the
    // installer runs, but what it builds is inert because its prerequisite
    // was not there yet. It must not silently look like the supported order.
    let reversed = ContextBuilder::default()
        .with::<(Operators, BaseObjects)>()
        .build(&mut rt)
        .unwrap();
    assert_ne!(rt.eval(&reversed, "Operators"), Ok(Value::Bool(true)));
}
