use qjs_core::runtime::JSMemoryUsage;

#[test]
#[allow(non_snake_case)]
fn bindgen_test_layout_JSMemoryUsage() {
    assert_eq!(
        ::std::mem::size_of::<JSMemoryUsage>(),
        208usize,
        "Size of: JSMemoryUsage"
    );
    assert_eq!(
        ::std::mem::align_of::<JSMemoryUsage>(),
        8usize,
        "Alignment of JSMemoryUsage"
    );
}
