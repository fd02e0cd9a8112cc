use head_rewrite::batch::{get_header_node, is_html_file, replace_elements};
use head_rewrite::batch::{ConfigurationError, HEADER_TAG, HTML_EXTENSION};
use head_rewrite::node::{Doctype, DomNode};

fn text(content: &str) -> DomNode {
    DomNode::Text(content.to_string())
}

fn header() -> DomNode {
    DomNode::new_element(
        "head",
        vec![],
        vec![DomNode::new_element("meta", vec![("charset", "utf-8")], vec![])],
    )
}

#[test]
fn header_fragment_is_accepted() {
    let fragment = vec![header()];
    assert_eq!(get_header_node(&fragment).unwrap(), header());
}

#[test]
fn fragment_that_goes_on_after_the_header_is_refused() {
    let with_text = vec![header(), text("\n")];
    let error = get_header_node(&with_text).unwrap_err();
    assert!(matches!(error, ConfigurationError::NotSingle));
    assert_eq!(error.message(), "header fragment is not a single element");

    let with_body = vec![
        DomNode::new_element("head", vec![], vec![]),
        DomNode::new_element("body", vec![], vec![]),
    ];
    assert!(matches!(get_header_node(&with_body), Err(ConfigurationError::NotSingle)));

    let two_heads = vec![header(), header()];
    assert!(matches!(get_header_node(&two_heads), Err(ConfigurationError::NotSingle)));

    let with_comment = vec![header(), DomNode::Comment("c".to_string())];
    assert!(matches!(get_header_node(&with_comment), Err(ConfigurationError::NotSingle)));
}

#[test]
fn first_fault_of_a_fragment_is_the_one_reported() {
    // A first node of the wrong kind or name is told before the length is.
    let text_first = vec![text("x"), header(), header()];
    assert!(matches!(get_header_node(&text_first), Err(ConfigurationError::NotElement)));
    let body_first = vec![DomNode::new_element("body", vec![], vec![]), header()];
    assert_eq!(
        get_header_node(&body_first).unwrap_err().message(),
        "Element \"body\" is not header"
    );
}

#[test]
fn empty_fragment_is_refused() {
    let error = get_header_node(&Vec::new()).unwrap_err();
    assert!(matches!(error, ConfigurationError::Empty));
    assert_eq!(error.message(), "header fragment is empty");
}

#[test]
fn fragment_that_opens_with_text_is_refused() {
    let fragment = vec![text("  "), header()];
    let error = get_header_node(&fragment).unwrap_err();
    assert!(matches!(error, ConfigurationError::NotElement));
    assert_eq!(error.message(), "node is not element");

    let comment = vec![DomNode::Comment("head".to_string())];
    assert!(matches!(get_header_node(&comment), Err(ConfigurationError::NotElement)));
    let doctype = vec![DomNode::Doctype(Doctype::Html), header()];
    assert!(matches!(get_header_node(&doctype), Err(ConfigurationError::NotElement)));
}

#[test]
fn fragment_of_another_element_is_refused() {
    let fragment = vec![DomNode::new_element("body", vec![], vec![header()])];
    let error = get_header_node(&fragment).unwrap_err();
    match &error {
        ConfigurationError::NotHeader { name } => assert_eq!(name, "body"),
        other => panic!("unexpected error: {:?}", other),
    }
    assert_eq!(error.message(), "Element \"body\" is not header");

    let upper = vec![DomNode::new_element("HEAD", vec![], vec![])];
    assert_eq!(
        get_header_node(&upper).unwrap_err().message(),
        "Element \"HEAD\" is not header"
    );
}

#[test]
fn the_run_is_about_head_and_htm() {
    assert_eq!(HEADER_TAG, "head");
    assert_eq!(HTML_EXTENSION, "htm");
}

#[test]
fn only_htm_files_are_rewritten() {
    assert!(is_html_file("htm"));
    assert!(!is_html_file("html"));
    assert!(!is_html_file("HTM"));
    assert!(!is_html_file("ht"));
    assert!(!is_html_file(""));
    assert!(!is_html_file("txt"));
}

#[test]
fn replace_elements_writes_the_rewritten_document() {
    let document = vec![
        DomNode::Doctype(Doctype::Html),
        DomNode::new_element(
            "html",
            vec![("lang", "en")],
            vec![
                DomNode::new_element(
                    "head",
                    vec![],
                    vec![DomNode::new_element("title", vec![], vec![text("old")])],
                ),
                DomNode::new_element(
                    "body",
                    vec![("class", "main"), ("hidden", "")],
                    vec![
                        text("Hello"),
                        DomNode::new_element("br", vec![], vec![]),
                        DomNode::Comment(" note ".to_string()),
                    ],
                ),
            ],
        ),
    ];
    let html = replace_elements(&document, "head", &header());
    assert_eq!(
        html,
        "<!DOCTYPE html><html lang=\"en\"><head><meta charset=\"utf-8\"></head>\
         <body class=\"main\" hidden>Hello<br><!-- note --></body></html>"
    );
}

#[test]
fn replace_elements_without_a_match_writes_the_document_as_it_is() {
    let document = vec![
        DomNode::Doctype(Doctype::Xml {
            version: "1.0".to_string(),
            encoding: "UTF-8".to_string(),
        }),
        DomNode::new_element("p", vec![("id", "x")], vec![text("a < b")]),
    ];
    let html = replace_elements(&document, "head", &header());
    assert_eq!(
        html,
        "<?xml version=\"1.0\" encoding=\"UTF-8\"?><p id=\"x\">a < b</p>"
    );
}

#[test]
fn replace_elements_of_nothing_is_the_empty_text() {
    assert_eq!(replace_elements(&Vec::new(), "head", &header()), "");
}

#[test]
fn replace_elements_takes_any_tag() {
    let document = vec![DomNode::new_element(
        "div",
        vec![],
        vec![DomNode::new_element("span", vec![], vec![text("x")]), text("y")],
    )];
    let html = replace_elements(&document, "span", &text("z"));
    assert_eq!(html, "<div>zy</div>");
}
