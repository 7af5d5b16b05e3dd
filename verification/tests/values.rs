use qjs_core::builder::ContextBuilder;
use qjs_core::error::JsError;
use qjs_core::runtime::JSRuntime;
use qjs_core::value::Value;

#[test]
fn host_values_round_trip_exactly() {
    let mut rt = JSRuntime::new();
    let ctx = ContextBuilder::default().build(&mut rt).unwrap();
    for v in [
        Value::Undefined,
        Value::Null,
        Value::Bool(false),
        Value::Bool(true),
        Value::Int(0),
        Value::Int(-1),
        Value::Int(i32::MIN),
        Value::Int(i32::MAX),
        Value::Str(String::new()),
        Value::Str(String::from("héllo wörld")),
    ] {
        let h = rt.new_value(&ctx, v.clone()).unwrap();
        assert_eq!(rt.read_value(&ctx, &h), Ok(v.clone()));
        rt.free_value(&ctx, h).unwrap();
    }
    rt.free_context(ctx).unwrap();
    rt.free().unwrap();
}

#[test]
fn typed_getters_never_coerce() {
    let mut rt = JSRuntime::new();
    let ctx = ContextBuilder::default().build(&mut rt).unwrap();
    let int_h = rt.new_value(&ctx, Value::Int(41)).unwrap();
    let bool_h = rt.new_value(&ctx, Value::Bool(true)).unwrap();
    let str_h = rt.new_value(&ctx, Value::Str(String::from("41"))).unwrap();
    assert_eq!(rt.to_int(&ctx, &int_h), Ok(41));
    assert_eq!(rt.to_bool(&ctx, &bool_h), Ok(true));
    assert_eq!(rt.to_str(&ctx, &str_h), Ok(String::from("41")));
    assert_eq!(rt.to_int(&ctx, &bool_h), Err(JsError::Conversion));
    assert_eq!(rt.to_int(&ctx, &str_h), Err(JsError::Conversion));
    assert_eq!(rt.to_bool(&ctx, &int_h), Err(JsError::Conversion));
    assert_eq!(rt.to_str(&ctx, &int_h), Err(JsError::Conversion));
    rt.free_value(&ctx, int_h).unwrap();
    rt.free_value(&ctx, bool_h).unwrap();
    rt.free_value(&ctx, str_h).unwrap();
}

#[test]
fn an_object_is_not_host_native() {
    let mut rt = JSRuntime::new();
    let ctx = ContextBuilder::default().build(&mut rt).unwrap();
    match rt.new_value(&ctx, Value::Object(3)) {
        Err(JsError::Conversion) => {},
        other => panic!("expected a conversion error, got {:?}", other),
    }
}

#[test]
fn cloning_counts_and_each_release_gives_one_count_back() {
    let mut rt = JSRuntime::new();
    let ctx = ContextBuilder::default().build(&mut rt).unwrap();
    let h = rt.new_value(&ctx, Value::Str(String::from("shared"))).unwrap();
    let h2 = rt.clone_value(&ctx, &h).unwrap();
    assert_eq!(rt.read_value(&ctx, &h2), Ok(Value::Str(String::from("shared"))));
    // Two handles are outstanding: the context cannot be freed yet.
    let ctx = match rt.free_context(ctx) {
        Err((back, JsError::Ownership)) => back,
        other => panic!("expected an ownership error, got {:?}", other),
    };
    rt.free_value(&ctx, h).unwrap();
    let ctx = match rt.free_context(ctx) {
        Err((back, JsError::Ownership)) => back,
        other => panic!("expected an ownership error, got {:?}", other),
    };
    rt.free_value(&ctx, h2).unwrap();
    rt.free_context(ctx).unwrap();
    rt.free().unwrap();
}

#[test]
fn a_handle_of_another_context_is_rejected() {
    let mut rt = JSRuntime::new();
    let a = ContextBuilder::default().build(&mut rt).unwrap();
    let b = ContextBuilder::default().build(&mut rt).unwrap();
    let h = rt.new_value(&a, Value::Int(5)).unwrap();
    assert_eq!(rt.read_value(&b, &h), Err(JsError::Ownership));
    let h = match rt.free_value(&b, h) {
        Err((back, JsError::Ownership)) => back,
        other => panic!("expected an ownership error, got {:?}", other),
    };
    rt.free_value(&a, h).unwrap();
}

#[test]
fn evaluated_globals_read_back_as_objects_of_their_family() {
    let mut rt = JSRuntime::new();
    let ctx = ContextBuilder::default()
        .with::<qjs_core::intrinsic::Date>()
        .build(&mut rt)
        .unwrap();
    // The Date binding decodes to an object carrying the Date class id.
    let v = rt.eval(&ctx, "Date").unwrap();
    match v {
        Value::Object(class_id) => {
            assert_eq!(class_id, qjs_core::intrinsic::family_class(
                qjs_core::intrinsic::IntrinsicId::Date,
            ));
        },
        other => panic!("expected an object, got {:?}", other),
    }
}
