use iml::ast::{content_from_lines, parse_line, Hyperlink, SimpleText};

#[test]
fn simple_text_ctor() {
    let st = SimpleText {
        text: String::from("hello, world!"),
    };
    assert_eq!(st.text, "hello, world!");
}

#[test]
fn content_from_lines_keeps_order() {
    let lines = vec![String::from("first\n"), String::from("second\n")];
    let cr = content_from_lines(&lines);
    assert_eq!(cr.children.len(), 2);
    assert_eq!(cr.children[0].text, "first\n");
    assert_eq!(cr.children[1].text, "second\n");
}

#[test]
fn content_from_no_lines_is_empty() {
    let lines: Vec<String> = Vec::new();
    let cr = content_from_lines(&lines);
    assert_eq!(cr.children.len(), 0);
}

#[test]
fn parse_line_accepts_any_line() {
    parse_line("anything");
    parse_line("");
}

#[test]
fn hyperlink_fields() {
    let h = Hyperlink {
        clickable: String::from("here"),
        id: String::from("a1"),
        url: String::from("https://example.org"),
    };
    assert_eq!(h.clickable, "here");
    assert_eq!(h.id, "a1");
    assert_eq!(h.url, "https://example.org");
}
