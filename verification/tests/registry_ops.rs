use streamline_client::registry::ModuleRegistry;
use streamline_client::registry::RegistryError;

#[test]
fn lookup_materializes_default() {
    let mut reg = ModuleRegistry::new();
    assert!(reg.get_module(2).is_none());
    let m = reg.get_or_create_module(2);
    assert_eq!(m.is_open, false);
    assert_eq!(m.source, "Hello world!");
    reg.edit_module_source(2, String::from("x")).unwrap();
    let edited = reg.get_or_create_module(2);
    assert_eq!(edited.source, "x");
}

#[test]
fn lookup_is_stable() {
    let mut reg = ModuleRegistry::new();
    let first = reg.get_or_create_module(7);
    let second = reg.get_or_create_module(7);
    assert_eq!(first.source, second.source);
    assert_eq!(first.is_open, second.is_open);
    reg.set_module_open(7, true).unwrap();
    let third = reg.get_or_create_module(7);
    assert!(third.is_open);
    assert_eq!(third.source, "Hello world!");
}

#[test]
fn edits_through_registry_are_visible_to_any_handle() {
    let mut reg = ModuleRegistry::new();
    reg.get_or_create_module(1);
    reg.edit_module_source(1, String::from("stream a;")).unwrap();
    let via_lookup = reg.get_or_create_module(1);
    let via_get = reg.get_module(1).unwrap();
    assert_eq!(via_lookup.source, via_get.source);
    assert_eq!(via_get.source, "stream a;");
}

#[test]
fn edit_unknown_module_fails() {
    let mut reg = ModuleRegistry::new();
    assert_eq!(reg.edit_module_source(9, String::from("y")), Err(RegistryError::NotFound));
    assert_eq!(reg.set_module_open(9, true), Err(RegistryError::NotFound));
    assert!(reg.get_module(9).is_none());
}

#[test]
fn registry_error_description() {
    assert_eq!(RegistryError::NotFound.describe(), "module not found in the registry");
}
