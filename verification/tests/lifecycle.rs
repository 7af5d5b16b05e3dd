use qjs_core::builder::ContextBuilder;
use qjs_core::error::JsError;
use qjs_core::runtime::{JSRuntime, RuntimeState};
use qjs_core::value::Value;

#[test]
fn runtime_starts_created() {
    let rt = JSRuntime::new();
    assert_eq!(rt.state(), RuntimeState::Created);
    assert_eq!(rt.live_context_count(), 0);
}

#[test]
fn building_a_context_activates_the_runtime() {
    let mut rt = JSRuntime::new();
    let ctx = ContextBuilder::default().build(&mut rt).unwrap();
    assert_eq!(rt.state(), RuntimeState::Active);
    assert_eq!(rt.live_context_count(), 1);
    rt.free_context(ctx).unwrap();
    assert_eq!(rt.state(), RuntimeState::Draining);
    rt.free().unwrap();
    assert_eq!(rt.state(), RuntimeState::Freed);
}

#[test]
fn teardown_in_order_succeeds() {
    let mut rt = JSRuntime::new();
    let ctx = ContextBuilder::default().build(&mut rt).unwrap();
    let h = rt.new_value(&ctx, Value::Int(7)).unwrap();
    rt.free_value(&ctx, h).unwrap();
    rt.free_context(ctx).unwrap();
    rt.free().unwrap();
    assert_eq!(rt.state(), RuntimeState::Freed);
}

#[test]
fn freeing_a_context_with_live_handles_is_rejected() {
    let mut rt = JSRuntime::new();
    let ctx = ContextBuilder::default().build(&mut rt).unwrap();
    let h = rt.new_value(&ctx, Value::Bool(true)).unwrap();
    // Reverse teardown order: the context still has a live handle, so the
    // call is rejected and hands the handle back.
    let ctx = match rt.free_context(ctx) {
        Err((back, JsError::Ownership)) => back,
        other => panic!("expected an ownership error, got {:?}", other),
    };
    // The runtime is untouched by the rejected call: the handle still reads.
    assert_eq!(rt.read_value(&ctx, &h), Ok(Value::Bool(true)));
    rt.free_value(&ctx, h).unwrap();
    rt.free_context(ctx).unwrap();
    rt.free().unwrap();
}

#[test]
fn freeing_the_runtime_with_a_live_context_is_rejected() {
    let mut rt = JSRuntime::new();
    let ctx = ContextBuilder::default().build(&mut rt).unwrap();
    assert_eq!(rt.free(), Err(JsError::Ownership));
    assert_eq!(rt.state(), RuntimeState::Active);
    rt.free_context(ctx).unwrap();
    rt.free().unwrap();
}

#[test]
fn a_freed_runtime_rejects_every_operation() {
    let mut rt = JSRuntime::new();
    rt.free().unwrap();
    assert_eq!(rt.free(), Err(JsError::Ownership));
    match ContextBuilder::default().build(&mut rt) {
        Err(JsError::Ownership) => {},
        other => panic!("expected an ownership error, got {:?}", other),
    }
}

#[test]
fn the_memory_limit_blocks_allocation_with_a_typed_error() {
    let mut rt = JSRuntime::new();
    rt.set_memory_limit(1);
    let ctx = ContextBuilder::default().build(&mut rt).unwrap();
    match ContextBuilder::default().build(&mut rt) {
        Err(JsError::OutOfMemory) => {},
        other => panic!("expected memory exhaustion, got {:?}", other),
    }
    // Releasing the live context makes room again.
    rt.free_context(ctx).unwrap();
    let ctx2 = ContextBuilder::default().build(&mut rt).unwrap();
    rt.free_context(ctx2).unwrap();
    rt.free().unwrap();
}

#[test]
fn memory_usage_counts_cells() {
    let mut rt = JSRuntime::new();
    let empty = rt.memory_usage();
    assert_eq!(empty.obj_count, 0);
    assert_eq!(empty.str_count, 0);
    assert_eq!(empty.atom_count, 0);
    assert_eq!(empty.malloc_limit, 0);
    let ctx = ContextBuilder::default()
        .with_id(qjs_core::intrinsic::IntrinsicId::Date)
        .with_id(qjs_core::intrinsic::IntrinsicId::Json)
        .build(&mut rt)
        .unwrap();
    let h = rt.new_value(&ctx, Value::Str(String::from("hello"))).unwrap();
    rt.set_memory_limit(5);
    let usage = rt.memory_usage();
    assert_eq!(usage.obj_count, 2);
    assert_eq!(usage.atom_count, 2);
    assert_eq!(usage.str_count, 1);
    assert_eq!(usage.malloc_count, 5);
    assert_eq!(usage.memory_used_count, 5);
    assert_eq!(usage.malloc_limit, 5);
    assert_eq!(usage.obj_size, 0);
    rt.free_value(&ctx, h).unwrap();
    rt.free_context(ctx).unwrap();
    let drained = rt.memory_usage();
    assert_eq!(drained.obj_count, 0);
    assert_eq!(drained.str_count, 0);
}
