use noot::utils::components::registry::{ComponentRegistration, ComponentRegistry};

#[test]
fn registered_components_are_found_until_removed() {
    let mut registry = ComponentRegistry::new();
    let a = registry.register(7).unwrap();
    let b = registry.register(9).unwrap();
    assert_eq!(a.component_id.len(), 21);
    assert_ne!(a.component_id, b.component_id);
    assert_eq!(registry.get(&a.component_id).unwrap().window_id, 7);
    assert_eq!(registry.get_mut(&b.component_id).unwrap().window_id, 9);
    let removed = registry.deregister(&a.component_id).unwrap();
    assert_eq!(removed.window_id, 7);
    assert!(registry.get(&a.component_id).is_none());
    assert!(registry.deregister(&a.component_id).is_none());
    assert_eq!(registry.get(&b.component_id).unwrap().component_id, b.component_id);
}

#[test]
fn registration_ids_are_url_safe() {
    let r = ComponentRegistration::new(3);
    assert_eq!(r.window_id, 3);
    assert!(r.component_id.chars().all(|c| c.is_ascii_alphanumeric() || c == '_' || c == '-'));
}

#[test]
fn register_with_refuses_a_taken_id_only() {
    let mut registry = ComponentRegistry::new();
    let first = ComponentRegistration { component_id: "aaaaaaaaaaaaaaaaaaaaa".to_string(), window_id: 1 };
    let added = registry.register_with(first.clone()).unwrap();
    assert_eq!(added.component_id, first.component_id);
    assert_eq!(added.window_id, 1);

    let clash = ComponentRegistration { component_id: "aaaaaaaaaaaaaaaaaaaaa".to_string(), window_id: 2 };
    assert!(registry.register_with(clash).is_none());
    assert_eq!(registry.get("aaaaaaaaaaaaaaaaaaaaa").unwrap().window_id, 1);

    let second = ComponentRegistration { component_id: "bbbbbbbbbbbbbbbbbbbbb".to_string(), window_id: 3 };
    assert!(registry.register_with(second).is_some());
    assert_eq!(registry.get("bbbbbbbbbbbbbbbbbbbbb").unwrap().window_id, 3);

    let random = registry.register(4).unwrap();
    assert!(random
        .component_id
        .chars()
        .all(|c| c.is_ascii_alphanumeric() || c == '_' || c == '-'));
}
