use head_rewrite::node::{attrs_equal, clone_attrs, clone_forest, forest_equal};
use head_rewrite::node::{Doctype, DomNode, Element};
use head_rewrite::selector::Selector;

fn sample() -> DomNode {
    DomNode::new_element(
        "div",
        vec![("id", "app"), ("hidden", "")],
        vec![
            DomNode::Text("Hello".to_string()),
            DomNode::new_element("br", vec![], vec![]),
        ],
    )
}

#[test]
fn new_element_fills_every_field() {
    match sample() {
        DomNode::Element(element) => {
            assert_eq!(element.name, "div");
            assert_eq!(
                element.attrs,
                vec![
                    ("id".to_string(), "app".to_string()),
                    ("hidden".to_string(), String::new()),
                ]
            );
            assert_eq!(element.children.len(), 2);
            assert_eq!(element.children[0], DomNode::Text("Hello".to_string()));
        }
        other => panic!("not an element: {:?}", other),
    }
}

#[test]
fn is_element_tells_the_kinds_apart() {
    assert!(sample().is_element());
    assert!(!DomNode::Text("div".to_string()).is_element());
    assert!(!DomNode::Comment("div".to_string()).is_element());
    assert!(!DomNode::Doctype(Doctype::Html).is_element());
}

#[test]
fn element_round_trip_is_lossless() {
    let element = Element::new("p", vec![("class", "x")], vec![DomNode::Text("t".to_string())]);
    let node = element.clone().into_node();
    assert_eq!(node.as_element(), Some(&element));
    assert_eq!(node.into_element(), Some(element));
}

#[test]
fn a_text_node_is_no_element() {
    let node = DomNode::Text("plain".to_string());
    assert_eq!(node.as_element(), None);
    assert_eq!(node.into_element(), None);
    assert_eq!(DomNode::Comment("c".to_string()).into_element(), None);
    assert_eq!(DomNode::Doctype(Doctype::Html).into_element(), None);
}

#[test]
fn equality_is_structural() {
    assert_eq!(sample(), sample());
    assert!(sample().same_as(&sample()));

    let renamed = DomNode::new_element("span", vec![("id", "app"), ("hidden", "")], vec![]);
    assert_ne!(sample(), renamed);

    // Attributes are ordered.
    let a = DomNode::new_element("a", vec![("x", "1"), ("y", "2")], vec![]);
    let b = DomNode::new_element("a", vec![("y", "2"), ("x", "1")], vec![]);
    assert_ne!(a, b);

    // Children are ordered, and compared all the way down.
    let c = DomNode::new_element(
        "a",
        vec![],
        vec![DomNode::Text("1".to_string()), DomNode::Text("2".to_string())],
    );
    let d = DomNode::new_element(
        "a",
        vec![],
        vec![DomNode::Text("2".to_string()), DomNode::Text("1".to_string())],
    );
    assert_ne!(c, d);
    let outer_c = DomNode::new_element("r", vec![], vec![c.clone()]);
    let outer_d = DomNode::new_element("r", vec![], vec![d]);
    assert_ne!(outer_c, outer_d);
    assert_eq!(outer_c, DomNode::new_element("r", vec![], vec![c]));

    // The kind of a leaf counts.
    assert_ne!(DomNode::Text("x".to_string()), DomNode::Comment("x".to_string()));
    assert_ne!(
        DomNode::Doctype(Doctype::Html),
        DomNode::Doctype(Doctype::Xml {
            version: "1.0".to_string(),
            encoding: "UTF-8".to_string(),
        })
    );
    assert_ne!(
        Doctype::Xml { version: "1.0".to_string(), encoding: "UTF-8".to_string() },
        Doctype::Xml { version: "1.1".to_string(), encoding: "UTF-8".to_string() }
    );
}

#[test]
fn forests_of_different_length_differ() {
    let one = vec![sample()];
    let two = vec![sample(), sample()];
    assert!(!forest_equal(&one, &two));
    assert!(forest_equal(&two, &two.clone()));
    assert!(forest_equal(&Vec::new(), &Vec::new()));
}

#[test]
fn attribute_lists_compare_in_order() {
    let left = vec![("a".to_string(), "1".to_string()), ("b".to_string(), "2".to_string())];
    let swapped = vec![("b".to_string(), "2".to_string()), ("a".to_string(), "1".to_string())];
    let shorter = vec![("a".to_string(), "1".to_string())];
    let other_value = vec![("a".to_string(), "1".to_string()), ("b".to_string(), "3".to_string())];
    assert!(attrs_equal(&left, &left.clone()));
    assert!(!attrs_equal(&left, &swapped));
    assert!(!attrs_equal(&left, &shorter));
    assert!(!attrs_equal(&left, &other_value));
}

#[test]
fn clone_is_deep() {
    let source = sample();
    let mut copy = source.clone();
    assert_eq!(copy, source);
    if let DomNode::Element(element) = &mut copy {
        element.children.push(DomNode::Text("more".to_string()));
        element.attrs[0].1 = "other".to_string();
    }
    assert_ne!(copy, source);
    assert_eq!(source, sample());
}

#[test]
fn clone_helpers_copy_everything() {
    let attrs = vec![("k".to_string(), "v".to_string()), ("flag".to_string(), String::new())];
    assert_eq!(clone_attrs(&attrs), attrs);
    let forest = vec![sample(), DomNode::Comment("c".to_string()), DomNode::Doctype(Doctype::Html)];
    assert_eq!(clone_forest(&forest), forest);
    let xml = Doctype::Xml { version: "1.0".to_string(), encoding: "UTF-8".to_string() };
    assert_eq!(xml.clone(), xml);
}

#[test]
fn selector_matches_the_exact_tag_only() {
    let head = Element::new("head", vec![], vec![]);
    let selector = Selector::from("head");
    assert_eq!(selector.tag(), "head");
    assert!(selector.matches(&head));
    assert!(!selector.matches(&Element::new("HEAD", vec![], vec![])));
    assert!(!selector.matches(&Element::new("header", vec![], vec![])));
    assert!(!selector.matches(&Element::new("hea", vec![], vec![])));
    assert!(!selector.matches(&Element::new("", vec![], vec![])));
}

#[test]
fn selector_ignores_attributes_and_children() {
    let selector = Selector::from("head");
    let busy = Element::new(
        "head",
        vec![("class", "body"), ("id", "body")],
        vec![DomNode::new_element("body", vec![], vec![])],
    );
    assert!(selector.matches(&busy));
    let other = Element::new("body", vec![("class", "head"), ("id", "head")], vec![]);
    assert!(!selector.matches(&other));
}

#[test]
fn selector_text_is_taken_as_it_stands() {
    // No trimming and no selector syntax: the whole text is the tag name.
    let head = Element::new("head", vec![("class", "x")], vec![]);
    assert!(!Selector::from(" head").matches(&head));
    assert!(!Selector::from("head.x").matches(&head));
    assert!(!Selector::from("").matches(&head));
    assert!(Selector::from("").matches(&Element::new("", vec![], vec![])));
}
