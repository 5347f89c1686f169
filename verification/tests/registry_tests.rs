use agent_bridge::registry::CallbackRegistry;
use agent_bridge::registry::CallbackRole;

#[test]
fn registry_starts_empty() {
    let reg = CallbackRegistry::new();
    assert!(!reg.is_present(CallbackRole::Stream));
    assert!(!reg.is_present(CallbackRole::Status));
    assert!(!reg.is_present(CallbackRole::Runner));
    assert_eq!(reg.current(CallbackRole::Runner), None);
}

#[test]
fn registering_replaces_and_leaves_other_roles_alone() {
    let mut reg = CallbackRegistry::new();
    reg.register(CallbackRole::Runner, 7);
    assert!(reg.is_present(CallbackRole::Runner));
    assert!(!reg.is_present(CallbackRole::Stream));
    assert_eq!(reg.current(CallbackRole::Runner), Some(7));
    reg.register(CallbackRole::Runner, 9);
    assert_eq!(reg.current(CallbackRole::Runner), Some(9));
    reg.register(CallbackRole::Stream, 1);
    assert_eq!(reg.current(CallbackRole::Runner), Some(9));
    assert_eq!(reg.current(CallbackRole::Stream), Some(1));
}

#[test]
fn unregistering_empties_only_that_role() {
    let mut reg = CallbackRegistry::new();
    reg.register(CallbackRole::Runner, 7);
    reg.register(CallbackRole::Status, 3);
    reg.unregister(CallbackRole::Runner);
    assert!(!reg.is_present(CallbackRole::Runner));
    assert!(reg.is_present(CallbackRole::Status));
}
