use termboard::components::xml::{
    create_element, has_partial, parse, parse_rendered, parse_xml, try_create_element, try_parse,
    DomError, El, Node, TemplateError,
};

fn leaf(name: &str, text: Option<&str>) -> Node {
    Node {
        name: name.to_string(),
        text: text.map(|t| t.to_string()),
        styles: None,
        children: Vec::new(),
    }
}

fn node(name: &str, children: Vec<Node>) -> Node {
    Node { name: name.to_string(), text: None, styles: None, children }
}

#[test]
fn span_is_its_text() {
    match try_create_element(&leaf("Span", Some("hi"))).unwrap() {
        El::Span(t) => assert_eq!(t, "hi"),
        other => panic!("unexpected {:?}", other),
    }
    match try_create_element(&leaf("Span", None)).unwrap() {
        El::Span(t) => assert_eq!(t, ""),
        other => panic!("unexpected {:?}", other),
    }
}

#[test]
fn spans_without_children_is_its_text() {
    match try_create_element(&leaf("Spans", Some("line"))).unwrap() {
        El::Spans(v) => assert_eq!(v, vec!["line"]),
        other => panic!("unexpected {:?}", other),
    }
    match try_create_element(&leaf("Spans", None)).unwrap() {
        El::Spans(v) => assert_eq!(v, vec![""]),
        other => panic!("unexpected {:?}", other),
    }
}

#[test]
fn spans_is_made_of_its_spans() {
    let el = node("Spans", vec![leaf("Span", Some("a")), leaf("Span", None), leaf("Span", Some("c"))]);
    match try_create_element(&el).unwrap() {
        El::Spans(v) => assert_eq!(v, vec!["a", "", "c"]),
        other => panic!("unexpected {:?}", other),
    }
}

#[test]
fn paragraph_is_made_of_its_lines() {
    let el = node(
        "Paragraph",
        vec![
            node("Spans", vec![leaf("Span", Some("a")), leaf("Span", Some("b"))]),
            leaf("Spans", Some("second")),
        ],
    );
    match try_create_element(&el).unwrap() {
        El::Paragraph(lines) => {
            assert_eq!(lines, vec![vec!["a".to_string(), "b".to_string()], vec!["second".to_string()]])
        }
        other => panic!("unexpected {:?}", other),
    }
    match try_create_element(&node("Paragraph", vec![])).unwrap() {
        El::Paragraph(lines) => assert!(lines.is_empty()),
        other => panic!("unexpected {:?}", other),
    }
}

#[test]
fn unknown_tag_is_refused() {
    assert_eq!(try_create_element(&leaf("Table", None)).unwrap_err(), DomError::UnknownToken);
    assert_eq!(try_create_element(&leaf("span", Some("x"))).unwrap_err(), DomError::UnknownToken);
    let el = node("Span", vec![leaf("Bogus", None)]);
    assert_eq!(try_create_element(&el).unwrap_err(), DomError::UnknownToken);
}

#[test]
fn wrong_child_is_refused() {
    let el = node("Paragraph", vec![leaf("Spans", Some("ok")), leaf("Span", Some("x"))]);
    assert_eq!(try_create_element(&el).unwrap_err(), DomError::NotATextNode);
    let el = node("Spans", vec![leaf("Span", Some("x")), leaf("Spans", Some("y"))]);
    assert_eq!(try_create_element(&el).unwrap_err(), DomError::NotATextNode);
    let el = node("Paragraph", vec![node("Paragraph", vec![])]);
    assert_eq!(try_create_element(&el).unwrap_err(), DomError::NotATextNode);
}

#[test]
fn styles_have_to_be_json() {
    let mut el = leaf("Span", Some("x"));
    el.styles = Some("{\"fg\": \"red\"}".to_string());
    assert!(try_create_element(&el).is_ok());
    el.styles = Some("{fg: red".to_string());
    assert_eq!(try_create_element(&el).unwrap_err(), DomError::InvalidStyles);
    let mut unknown = leaf("Table", None);
    unknown.styles = Some("nope".to_string());
    assert_eq!(try_create_element(&unknown).unwrap_err(), DomError::InvalidStyles);
    let parent = node("Spans", vec![leaf("Bogus", None), el]);
    assert_eq!(try_create_element(&parent).unwrap_err(), DomError::UnknownToken);
}

#[test]
fn parse_xml_reads_the_root() {
    let root = parse_xml(
        "<Paragraph styles='{\"a\": 1}'><Spans><Span>one</Span><Span>two</Span></Spans></Paragraph>",
    )
    .unwrap();
    assert_eq!(root.name, "Paragraph");
    assert_eq!(root.styles.as_deref(), Some("{\"a\": 1}"));
    assert_eq!(root.children.len(), 1);
    assert_eq!(root.children[0].name, "Spans");
    assert_eq!(root.children[0].children.len(), 2);
    assert_eq!(root.children[0].children[1].text.as_deref(), Some("two"));
    assert!(try_create_element(&root).is_ok());
    match create_element(&root) {
        El::Paragraph(lines) => assert_eq!(lines, vec![vec!["one".to_string(), "two".to_string()]]),
        other => panic!("unexpected {:?}", other),
    }
}

#[test]
fn parse_xml_refuses_what_is_no_document() {
    assert!(parse_xml("<Span>open").is_none());
    assert!(parse_xml("").is_none());
    assert!(parse_xml("plain text").is_none());
}

#[test]
fn parse_fills_the_template_in() {
    let template = "<Spans><Span>{{mode}}</Span></Spans>";
    let data = "{\"mode\": \"normal\"}";
    assert!(try_parse(template, data).is_ok());
    let root = parse(template, data);
    assert_eq!(root.name, "Spans");
    assert_eq!(root.children[0].text.as_deref(), Some("normal"));
}

#[test]
fn parse_tells_the_two_failures_apart() {
    assert_eq!(try_parse("<Span>{{#if}}</Span>", "{}").unwrap_err(), TemplateError::Render);
    assert_eq!(try_parse("<Span>x</Span>", "not json").unwrap_err(), TemplateError::Render);
    assert_eq!(try_parse("<Span>{{a}}", "{\"a\": 1}").unwrap_err(), TemplateError::Xml);
    assert_eq!(parse_rendered(None).unwrap_err(), TemplateError::Render);
    assert_eq!(parse_rendered(Some("<a>".to_string())).unwrap_err(), TemplateError::Xml);
    assert_eq!(parse_rendered(Some("<Span>x</Span>".to_string())).unwrap().name, "Span");
}

#[test]
fn create_element_gives_what_the_test_admits() {
    let el = node("Spans", vec![leaf("Span", Some("a")), leaf("Span", Some("b"))]);
    assert!(try_create_element(&el).is_ok());
    match create_element(&el) {
        El::Spans(v) => assert_eq!(v, vec!["a", "b"]),
        other => panic!("unexpected {:?}", other),
    }
    let span = leaf("Span", Some("x"));
    assert!(try_create_element(&span).is_ok());
    assert!(matches!(create_element(&span), El::Span(t) if t == "x"));
}

#[test]
fn has_partial_finds_every_form_of_inclusion() {
    assert!(has_partial("{{> a}}"));
    assert!(has_partial("{{>a}}"));
    assert!(has_partial("{{~> a}}"));
    assert!(has_partial("{{#> a}}x{{/a}}"));
    assert!(has_partial("{{ ~ # > a}}"));
    assert!(has_partial("<Span>{{#*inline \"a\"}}{{> a}}{{/inline}}</Span>"));
    assert!(has_partial("{{{> a}}}"));
    assert!(has_partial("x{{{{> a"));
}

#[test]
fn has_partial_passes_templates_without_inclusion() {
    assert!(!has_partial(""));
    assert!(!has_partial("<Span>plain</Span>"));
    assert!(!has_partial("<Spans><Span>{{mode}}</Span></Spans>"));
    assert!(!has_partial("<Span>{{#if a}}x{{/if}}</Span>"));
    assert!(!has_partial("{ {> a}}"));
    assert!(!has_partial("{{a}}>"));
    assert!(!has_partial("{{a}>b"));
    assert!(!has_partial(">{{"));
    assert!(!has_partial("{>"));
}

#[test]
fn parse_refuses_a_partial_that_includes_itself() {
    let template = "{{#*inline \"a\"}}{{> a}}{{/inline}}{{> a}}";
    assert_eq!(try_parse(template, "{}").unwrap_err(), TemplateError::Render);
    assert_eq!(try_parse("<Span>{{> missing}}</Span>", "{}").unwrap_err(), TemplateError::Render);
}
