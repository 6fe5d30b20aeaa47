use dom_core::Attr;
use dom_core::NodeList;

#[test]
fn lengths() {
    let mut list = NodeList::new();
    assert_eq!(list.length(), 0);
    let attr = Attr::new("data-age", "23");
    list.add(attr);
    assert_eq!(list.length(), 1);
}

#[test]
fn invalid_indices() {
    let list: NodeList<Attr> = NodeList::new();
    match list.item(0) {
        None => (),
        _ => panic!("Invalid index."),
    }
}

#[test]
fn elements_maintain_state() {
    let mut list: NodeList<Attr> = NodeList::new();
    let attr = Attr::new("type", "text");
    list.add(attr.clone());
    assert_eq!(attr.value(), "text");
    list.item(0).unwrap().set_value("password");
    assert_eq!(attr.value(), "password");
}

#[test]
fn item_at_length_is_out_of_bounds() {
    let mut list: NodeList<Attr> = NodeList::new();
    list.add(Attr::new("type", "text"));
    assert!(list.item(0).is_some());
    assert!(list.item(1).is_none());
    assert!(list.item(2).is_none());
}
