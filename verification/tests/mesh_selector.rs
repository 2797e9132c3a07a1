use batman_robin::client::{Client, SelectorTarget};
use batman_robin::mesh::MeshSelector;

#[test]
fn selector_constructors() {
    let s = MeshSelector::with_name("bat0");
    assert_eq!(s.name.as_deref(), Some("bat0"));
    assert_eq!(s.ifindex, None);
    let s = MeshSelector::with_ifindex(4);
    assert_eq!(s.name, None);
    assert_eq!(s.ifindex, Some(4));
    let d = MeshSelector::default();
    assert_eq!(d.name, None);
    assert_eq!(d.ifindex, None);
}

#[test]
fn selector_validation_rules() {
    assert!(MeshSelector::with_name("bat0").validate().is_ok());
    assert!(MeshSelector::with_ifindex(3).validate().is_ok());
    assert!(MeshSelector::default().validate().is_err());
    assert!(MeshSelector::with_name(" \t").validate().is_err());
    assert!(MeshSelector::with_ifindex(0).validate().is_err());
    let e = MeshSelector::with_ifindex(0).validate().err().unwrap();
    assert_eq!(e.to_string(), "ifindex: Mesh selector ifindex must be greater than 0");
    let e = MeshSelector::default().validate().err().unwrap();
    assert_eq!(e.errors().len(), 1);
    assert!(e.errors().contains_key("mesh_selector"));
    let both = MeshSelector { name: Some("  ".to_string()), ifindex: Some(0) };
    let e = both.validate().err().unwrap();
    assert_eq!(e.errors().len(), 2);
    assert!(e.errors().contains_key("name"));
    assert!(e.errors().contains_key("ifindex"));
}

#[test]
fn builder_builds_valid_selectors_only() {
    let s = MeshSelector::builder().with_name("bat0").with_ifindex(5).build().unwrap();
    assert_eq!(s.name.as_deref(), Some("bat0"));
    assert_eq!(s.ifindex, Some(5));
    assert!(MeshSelector::builder().build().is_err());
    let e = MeshSelector::builder().with_name("").build().err().unwrap();
    assert_eq!(e.to_string(), "name: Mesh selector name cannot be empty");
}

#[test]
fn client_selector_target() {
    let c = Client::new();
    match c.selector_target(MeshSelector::builder().with_name("bat0").with_ifindex(9).build().unwrap()) {
        Ok(SelectorTarget::Index(9)) => {}
        _ => panic!("index expected"),
    }
    match c.selector_target(MeshSelector::with_name("bat0")) {
        Ok(SelectorTarget::Name(n)) => assert_eq!(n, "bat0"),
        _ => panic!("name expected"),
    }
    let e = c.selector_target(MeshSelector::default()).err().unwrap();
    assert_eq!(e.message(), "mesh_selector: At least one of 'name' or 'ifindex' must be set");
    let e = c.selector_target(MeshSelector { name: Some(" ".to_string()), ifindex: Some(0) }).err().unwrap();
    let name_line = "name: Mesh selector name cannot be empty";
    let index_line = "ifindex: Mesh selector ifindex must be greater than 0";
    assert!(matches!(e, batman_robin::Error::Argument(_)));
    assert!(
        e.message() == &format!("{name_line}\n{index_line}") || e.message() == &format!("{index_line}\n{name_line}")
    );
    let e = c.selector_target(MeshSelector::with_ifindex(0)).err().unwrap();
    assert_eq!(e.message(), index_line);
    assert_eq!(c.mesh_name_lookup("bat0", Some(12)).unwrap(), 12);
    let e = c.mesh_name_lookup("bat9", None).err().unwrap();
    assert_eq!(e.message(), "Error - interface 'bat9' is not present or not a batman-adv interface");
}
