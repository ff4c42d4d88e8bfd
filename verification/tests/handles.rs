use overlay::{Handle, Ownership};

#[test]
fn null_is_the_zero_address() {
    assert!(Handle::borrowed(0).is_null());
    assert!(!Handle::owned(0x1000).is_null());
}

#[test]
fn identity_ignores_the_ownership_tag() {
    // The tag is this library's bookkeeping; two handles denote the same
    // platform object exactly when their addresses agree.
    let borrowed = Handle::borrowed(0x1000);
    let owned = Handle::owned(0x1000);
    assert!(borrowed.same_object(&owned));
    assert!(!borrowed.same_object(&Handle::borrowed(0x2000)));
    assert_eq!(borrowed.ownership, Ownership::Borrowed);
    assert_eq!(owned.ownership, Ownership::Owned);
}
