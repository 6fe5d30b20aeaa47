use dom_core::Attr;
use dom_core::Element;

#[test]
fn mutating_attributes() {
    let mut el = Element::new("h1");
    let attributes = el.attributes();
    attributes.add(Attr::new("data-name", "carter"));
    assert_eq!(attributes.length(), 1);
}

#[test]
fn attributes_helpers() {
    let mut el = Element::new("h1");
    match el.get_attribute("type") {
        None => (),
        _ => panic!("Element should not have an attribute"),
    }
    el.set_attribute("type", "text");
    assert_eq!(el.get_attribute("type").unwrap(), "text");
}

#[test]
fn element_observes_additions_through_attributes() {
    let mut el = Element::new("h1");
    el.attributes().add(Attr::new("data-name", "carter"));
    assert_eq!(el.attributes().length(), 1);
    assert_eq!(el.get_attribute("data-name").unwrap(), "carter");
}

#[test]
fn element_observes_value_writes_through_attributes() {
    let mut el = Element::new("h1");
    el.set_attribute("type", "text");
    el.attributes().get_named_item("type").unwrap().set_value("password");
    assert_eq!(el.get_attribute("type").unwrap(), "password");
}

#[test]
fn overwriting_attribute_keeps_one_record() {
    let mut el = Element::new("input");
    el.set_attribute("type", "text");
    el.set_attribute("type", "password");
    assert_eq!(el.attributes().length(), 1);
    assert_eq!(el.get_attribute("type").unwrap(), "password");
}
