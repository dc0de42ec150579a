use iml::iml::{Lexer, TokenKind};

#[test]
fn simplest_lexer() {
    let mut l = Lexer::new("hello");
    let first = l.next().unwrap();
    assert_eq!(first, TokenKind::Text);
    assert_eq!(l.next(), None);
}

#[test]
fn lexer_stays_finished() {
    let mut l = Lexer::new("two\nlines");
    assert_eq!(l.next(), Some(TokenKind::Text));
    assert_eq!(l.next(), None);
    assert_eq!(l.next(), None);
}

#[test]
fn lexer_empty_source_still_yields_one_token() {
    let mut l = Lexer::new("");
    assert_eq!(l.next(), Some(TokenKind::Text));
    assert_eq!(l.next(), None);
}
