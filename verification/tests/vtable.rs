use overlay::{VTable, CONTEXT_METHODS, DEVICE_METHODS, SWAPCHAIN_METHODS, TOTAL_METHODS};

fn table(tag: usize, len: usize) -> Vec<usize> {
    (0..len).map(|i| tag * 0x10000 + i).collect()
}

#[test]
fn block_length_is_the_sum_of_the_three_method_counts() {
    let s = table(1, SWAPCHAIN_METHODS);
    let d = table(2, DEVICE_METHODS);
    let c = table(3, CONTEXT_METHODS);
    let v = VTable::get_swapchain(&s, &d, &c);
    assert_eq!(TOTAL_METHODS, SWAPCHAIN_METHODS + DEVICE_METHODS + CONTEXT_METHODS);
    assert_eq!(v.slots.len(), TOTAL_METHODS);
    assert_eq!(v.slots.len(), 205);
}

#[test]
fn sub_ranges_are_identical_copies_of_the_sources() {
    // The sources may expose more slots than the protocol-defined count;
    // only the fixed prefix of each is copied.
    let s = table(1, SWAPCHAIN_METHODS + 5);
    let d = table(2, DEVICE_METHODS + 1);
    let c = table(3, CONTEXT_METHODS + 9);
    let v = VTable::get_swapchain(&s, &d, &c);
    assert_eq!(&v.slots[..SWAPCHAIN_METHODS], &s[..SWAPCHAIN_METHODS]);
    assert_eq!(
        &v.slots[SWAPCHAIN_METHODS..SWAPCHAIN_METHODS + DEVICE_METHODS],
        &d[..DEVICE_METHODS]
    );
    assert_eq!(
        &v.slots[SWAPCHAIN_METHODS + DEVICE_METHODS..],
        &c[..CONTEXT_METHODS]
    );
    // The sources are untouched.
    assert_eq!(s, table(1, SWAPCHAIN_METHODS + 5));
}
