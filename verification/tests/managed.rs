use navigator_sandbox::managed::{
    is_managed_child, register_managed_child, unregister_managed_child, ManagedChildren,
};

#[test]
fn registered_child_is_managed_until_unregistered() {
    let mut children = ManagedChildren::new();
    assert!(!is_managed_child(Some(&children), 42));
    register_managed_child(&mut children, 42);
    assert!(is_managed_child(Some(&children), 42));
    assert!(!is_managed_child(Some(&children), 43));
    unregister_managed_child(&mut children, 42);
    assert!(!is_managed_child(Some(&children), 42));
}

#[test]
fn registering_twice_is_registering_once() {
    let mut children = ManagedChildren::new();
    register_managed_child(&mut children, 7);
    register_managed_child(&mut children, 7);
    unregister_managed_child(&mut children, 7);
    assert!(!is_managed_child(Some(&children), 7));
}

#[test]
fn other_children_are_left_alone() {
    let mut children = ManagedChildren::new();
    register_managed_child(&mut children, 1);
    register_managed_child(&mut children, 2);
    unregister_managed_child(&mut children, 1);
    assert!(is_managed_child(Some(&children), 2));
    unregister_managed_child(&mut children, 99);
    assert!(is_managed_child(Some(&children), 2));
}

#[test]
fn zero_is_never_registered() {
    let mut children = ManagedChildren::new();
    register_managed_child(&mut children, 0);
    assert!(!is_managed_child(Some(&children), 0));
}

#[test]
fn largest_id_is_registered_and_larger_ones_are_not() {
    let mut children = ManagedChildren::new();
    register_managed_child(&mut children, 2147483647);
    assert!(is_managed_child(Some(&children), 2147483647));
    register_managed_child(&mut children, 2147483648);
    assert!(!is_managed_child(Some(&children), -2147483648));
    register_managed_child(&mut children, 4294967295);
    assert!(!is_managed_child(Some(&children), -1));
    unregister_managed_child(&mut children, 4294967295);
    assert!(is_managed_child(Some(&children), 2147483647));
}

#[test]
fn without_registry_nothing_is_managed() {
    assert!(!is_managed_child(None, 42));
}
