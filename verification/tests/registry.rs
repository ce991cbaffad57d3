use copra::dispatcher::{Registrant, RegistryError, ServiceRegistry};
use copra::echo::{Echo, EchoMethod};


fn methods(names: &[&str], base: u32) -> Vec<(String, u32)> {
    let mut out = Vec::new();
    for (i, name) in names.iter().enumerate() {
        out.push((name.to_string(), base + i as u32));
    }
    out
}

#[test]
fn new_registry_is_empty() {
    let registry: ServiceRegistry<u32> = ServiceRegistry::new();
    assert_eq!(registry.len(), 0);
    assert_eq!(registry.get_method("Echo", "echo"), None);
    assert!(!registry.contains("Echo", "echo"));
}

#[test]
fn registered_methods_are_found_under_their_service() {
    let mut registry = ServiceRegistry::new();
    assert_eq!(registry.register_methods("Echo", methods(&["echo", "rev_echo"], 10)), Ok(()));
    assert_eq!(registry.len(), 2);
    assert_eq!(registry.get_method("Echo", "echo"), Some(&10));
    assert_eq!(registry.get_method("Echo", "rev_echo"), Some(&11));
    assert_eq!(registry.get_method("Echo", "nope"), None);
    assert_eq!(registry.get_method("echo", "echo"), None);
    assert_eq!(registry.get_method("Other", "echo"), None);
    assert_eq!(registry.get_method("", ""), None);
}

#[test]
fn same_method_name_under_two_services() {
    let mut registry = ServiceRegistry::new();
    assert_eq!(registry.register_methods("A", methods(&["run"], 1)), Ok(()));
    assert_eq!(registry.register_methods("B", methods(&["run"], 2)), Ok(()));
    assert_eq!(registry.get_method("A", "run"), Some(&1));
    assert_eq!(registry.get_method("B", "run"), Some(&2));
    assert_eq!(registry.len(), 2);
}

#[test]
fn names_are_compared_whole() {
    let mut registry = ServiceRegistry::new();
    assert_eq!(registry.register_methods("Echo", methods(&["echo"], 1)), Ok(()));
    assert_eq!(registry.get_method("Ech", "oecho"), None);
    assert_eq!(registry.get_method("Echo", "ech"), None);
    assert_eq!(registry.get_method("Echo", "echoo"), None);
    assert_eq!(registry.get_method("Écho", "echo"), None);
}

#[test]
fn a_service_can_be_registered_in_parts() {
    let mut registry = ServiceRegistry::new();
    assert_eq!(registry.register_methods("Echo", methods(&["echo"], 1)), Ok(()));
    assert_eq!(registry.register_methods("Echo", methods(&["rev_echo"], 2)), Ok(()));
    assert_eq!(registry.get_method("Echo", "echo"), Some(&1));
    assert_eq!(registry.get_method("Echo", "rev_echo"), Some(&2));
}

#[test]
fn registering_a_registered_method_is_refused() {
    let mut registry = ServiceRegistry::new();
    assert_eq!(registry.register_methods("Echo", methods(&["echo"], 1)), Ok(()));
    assert_eq!(
        registry.register_methods("Echo", methods(&["echo"], 2)),
        Err(RegistryError::Duplicate)
    );
    assert_eq!(registry.get_method("Echo", "echo"), Some(&1));
    assert_eq!(registry.len(), 1);
}

#[test]
fn a_refused_registration_changes_nothing() {
    let mut registry = ServiceRegistry::new();
    assert_eq!(registry.register_methods("Echo", methods(&["echo"], 1)), Ok(()));
    assert_eq!(
        registry.register_methods("Echo", methods(&["first", "echo", "last"], 5)),
        Err(RegistryError::Duplicate)
    );
    assert_eq!(registry.len(), 1);
    assert_eq!(registry.get_method("Echo", "first"), None);
    assert_eq!(registry.get_method("Echo", "last"), None);
    assert_eq!(registry.get_method("Echo", "echo"), Some(&1));
}

#[test]
fn naming_a_method_twice_in_one_registration_is_refused() {
    let mut registry = ServiceRegistry::new();
    assert_eq!(
        registry.register_methods("Echo", methods(&["a", "b", "a"], 1)),
        Err(RegistryError::Duplicate)
    );
    assert_eq!(registry.len(), 0);
    assert_eq!(registry.get_method("Echo", "a"), None);
    assert_eq!(registry.get_method("Echo", "b"), None);
}

#[test]
fn registering_no_methods_is_fine() {
    let mut registry: ServiceRegistry<u32> = ServiceRegistry::new();
    assert_eq!(registry.register_methods("Empty", Vec::new()), Ok(()));
    assert_eq!(registry.len(), 0);
}

#[test]
fn many_methods_keep_their_handlers() {
    let mut registry = ServiceRegistry::new();
    let names: Vec<String> = (0..50).map(|i| format!("m{}", i)).collect();
    let entries: Vec<(String, usize)> =
        names.iter().enumerate().map(|(i, n)| (n.clone(), i)).collect();
    assert_eq!(registry.register_methods("Big", entries), Ok(()));
    assert_eq!(registry.len(), 50);
    for (i, n) in names.iter().enumerate() {
        assert_eq!(registry.get_method("Big", n), Some(&i));
    }
}

#[test]
fn registrant_lists_what_is_registered() {
    let mut registry = ServiceRegistry::new();
    assert_eq!(registry.register_service("S", &Echo), Ok(()));
    assert_eq!(registry.get_method("S", "echo"), Some(&EchoMethod::Echo));
    assert_eq!(registry.get_method("S", "rev_echo"), Some(&EchoMethod::RevEcho));
    assert_eq!(registry.get_method("T", "echo"), None);
    assert_eq!(registry.register_service("T", &Echo), Ok(()));
    assert_eq!(registry.get_method("T", "rev_echo"), Some(&EchoMethod::RevEcho));
    assert_eq!(registry.len(), 4);
}

#[test]
fn registrant_that_repeats_is_refused_whole() {
    let mut registry = ServiceRegistry::new();
    assert_eq!(
        registry.register_methods("S", vec![("rev_echo".to_string(), EchoMethod::Echo)]),
        Ok(())
    );
    assert_eq!(registry.register_service("S", &Echo), Err(RegistryError::Duplicate));
    assert_eq!(registry.get_method("S", "echo"), None);
    assert_eq!(registry.get_method("S", "rev_echo"), Some(&EchoMethod::Echo));
    assert_eq!(registry.len(), 1);
    assert_eq!(registry.register_service("T", &Echo), Ok(()));
    assert_eq!(registry.len(), 3);
}

#[test]
fn echo_registers_its_two_methods() {
    assert_eq!(
        Echo.methods(),
        vec![("echo".to_string(), EchoMethod::Echo), ("rev_echo".to_string(), EchoMethod::RevEcho)]
    );
    let mut registry = ServiceRegistry::new();
    assert_eq!(registry.register_service("Echo", &Echo), Ok(()));
    assert_eq!(registry.get_method("Echo", "echo"), Some(&EchoMethod::Echo));
    assert_eq!(registry.get_method("Echo", "rev_echo"), Some(&EchoMethod::RevEcho));
    assert_eq!(registry.len(), 2);
    assert_eq!(registry.register_service("Echo", &Echo), Err(RegistryError::Duplicate));
}
