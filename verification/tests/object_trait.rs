use qi::object_trait::{
    attribute_outer_doc, is_member_tag_attribute, take_member, trait_fn_item, Attribute,
    AttributeValue, MemberKind, ObjectTrait, TraitItem, TraitItemFn,
};

fn attribute(path: &[&str]) -> Attribute<String> {
    Attribute {
        outer: true,
        path: path.iter().map(|name| name.to_string()).collect(),
        plain: true,
        value: AttributeValue::Absent,
        tokens: path.join("::"),
    }
}

fn doc(text: &str) -> Attribute<String> {
    Attribute { value: AttributeValue::Text(text.to_owned()), ..attribute(&["doc"]) }
}

fn function(attrs: Vec<Attribute<String>>) -> TraitItem<String> {
    TraitItem::Fn(TraitItemFn { attrs })
}

fn tokens(item: &TraitItem<String>) -> Vec<&str> {
    match item {
        TraitItem::Fn(func) => func.attrs.iter().map(|attr| attr.tokens.as_str()).collect(),
        TraitItem::Other => vec![],
    }
}

#[test]
fn members_are_marked_by_attributes() {
    let method = attribute(&["qi", "method"]);
    assert!(is_member_tag_attribute(&method, MemberKind::Method));
    assert!(!is_member_tag_attribute(&method, MemberKind::Signal));
    let inner = Attribute { outer: false, ..attribute(&["qi", "method"]) };
    assert!(!is_member_tag_attribute(&inner, MemberKind::Method));
    assert!(!is_member_tag_attribute(&attribute(&["method"]), MemberKind::Method));
    assert!(!is_member_tag_attribute(&attribute(&["qi", "a", "method"]), MemberKind::Method));
    assert!(!is_member_tag_attribute(&attribute(&["qo", "method"]), MemberKind::Method));
    assert!(is_member_tag_attribute(&attribute(&["qi", "property"]), MemberKind::Property));
}

#[test]
fn documentation_is_found() {
    assert_eq!(attribute_outer_doc(&doc("text")), Some("text".to_owned()));
    assert_eq!(attribute_outer_doc(&Attribute { outer: false, ..doc("text") }), None);
    assert_eq!(attribute_outer_doc(&Attribute { plain: false, ..doc("text") }), None);
    assert_eq!(
        attribute_outer_doc(&Attribute { value: AttributeValue::Other, ..doc("text") }),
        None
    );
    assert_eq!(attribute_outer_doc(&attribute(&["doc"])), None);
    let other = Attribute { path: vec!["cfg".to_owned()], ..doc("text") };
    assert_eq!(attribute_outer_doc(&other), None);
}

#[test]
fn all_marks_of_a_kind_are_taken_off() {
    let item = function(vec![
        attribute(&["qi", "method"]),
        attribute(&["inline"]),
        attribute(&["qi", "method"]),
        attribute(&["qi", "signal"]),
    ]);
    let (item, found) = trait_fn_item(item, MemberKind::Method);
    assert!(found);
    assert_eq!(tokens(&item), vec!["inline", "qi::signal"]);
    let (item, found) = trait_fn_item(item, MemberKind::Property);
    assert!(!found);
    assert_eq!(tokens(&item), vec!["inline", "qi::signal"]);
    let (other, found) = trait_fn_item(TraitItem::<String>::Other, MemberKind::Method);
    assert!(matches!(other, TraitItem::Other) && !found);
}

#[test]
fn methods_come_before_signals_and_properties() {
    let item = function(vec![attribute(&["qi", "signal"]), attribute(&["qi", "method"])]);
    let (item, kind) = take_member(item);
    assert_eq!(kind, Some(MemberKind::Method));
    assert_eq!(tokens(&item), vec!["qi::signal"]);
    let item = function(vec![attribute(&["qi", "property"]), attribute(&["qi", "signal"])]);
    assert_eq!(take_member(item).1, Some(MemberKind::Signal));
    assert_eq!(take_member(function(vec![attribute(&["inline"])])).1, None);
}

#[test]
fn items_are_sorted_into_members() {
    let items = vec![
        function(vec![attribute(&["qi", "method"])]),
        TraitItem::Other,
        function(vec![doc("a signal"), attribute(&["qi", "signal"])]),
        function(vec![attribute(&["qi", "method"])]),
        function(vec![]),
        function(vec![attribute(&["qi", "property"])]),
    ];
    let attrs = vec![doc("first"), attribute(&["inline"]), doc("second")];
    let object = ObjectTrait::parse("Calculator".to_owned(), &attrs, items);
    assert_eq!(object.name, "Calculator");
    assert_eq!(object.methods, vec![0, 3]);
    assert_eq!(object.signals, vec![2]);
    assert_eq!(object.properties, vec![5]);
    assert_eq!(object.description, vec!["first".to_owned(), "second".to_owned()]);
    assert_eq!(object.items.len(), 6);
    assert_eq!(tokens(&object.items[2]), vec!["doc"]);
}
