use generator::handles::{DispatchableHandle, NonDispatchableHandle};

#[test]
fn null_handles() {
    assert_eq!(NonDispatchableHandle::null(), NonDispatchableHandle(0));
    let d = DispatchableHandle::null();
    let copy = d;
    assert_eq!(format!("{:?}", d), format!("{:?}", copy));
}

#[test]
fn non_dispatchable_handles_are_ordered_by_their_number() {
    assert!(NonDispatchableHandle(1) < NonDispatchableHandle(2));
    assert!(NonDispatchableHandle::null() <= NonDispatchableHandle(0));
    assert_ne!(NonDispatchableHandle(1), NonDispatchableHandle(2));
    let mut set = std::collections::HashSet::new();
    set.insert(NonDispatchableHandle(5));
    assert!(set.contains(&NonDispatchableHandle(5)));
}

#[test]
fn pointer_rendering() {
    assert_eq!(NonDispatchableHandle(0).pointer_text(), "0x0");
    assert_eq!(NonDispatchableHandle(255).pointer_text(), "0xff");
    assert_eq!(NonDispatchableHandle(0xdead_beef).pointer_text(), "0xdeadbeef");
    assert_eq!(NonDispatchableHandle(u64::MAX).pointer_text(), "0xffffffffffffffff");
    for n in [1u64, 9, 10, 15, 16, 4096, 0x1234_5678_9abc_def0] {
        assert_eq!(NonDispatchableHandle(n).pointer_text(), format!("0x{:x}", n));
    }
}
