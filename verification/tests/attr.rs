use dom_core::Attr;

#[test]
fn basic_binding() {
    let attr = Attr::new("type", "text");
    assert_eq!("type", attr.name());
    assert_eq!("text", attr.value());
}

#[test]
fn single_threaded_mutations() {
    let attr = Attr::new("type", "text");
    assert_eq!("text", attr.value());
    attr.set_value("password");
    assert_eq!("password", attr.value());
}

#[test]
fn single_threaded_guards() {
    let attr = Attr::new("type", "text");
    assert_eq!(attr.value(), "text");
    attr.set_value("password");
    assert_eq!(attr.value(), "password");
    assert_eq!(attr.value(), "password");
}

#[test]
fn shared_handles_observe_last_write() {
    let first = Attr::new("type", "text");
    let second = first.clone();
    first.set_value("password");
    assert_eq!(second.value(), "password");
    second.set_value("email");
    assert_eq!(first.value(), "email");
    assert_eq!(second.name(), "type");
}
