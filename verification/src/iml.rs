//! A stub lexer: it yields a single `Text` token for any source and then
//! terminates. Kept as scaffolding for a later multi-token lexer; the wrap
//! algorithm does not use it.

use vstd::prelude::*;

verus! {

/// The kind of a lexed token.
#[derive(Debug, PartialEq)]
pub enum TokenKind {
    Text,
}

/// Line position of a lexer that has not begun.
pub const NOT_BEGUN: i32 = -1;

/// A lexer over a source string, tracking its position by line and offset.
#[derive(Debug)]
pub struct Lexer<'a> {
    src: &'a str,
    kind: Option<TokenKind>,
    pub token: Option<&'a str>,
    line_idx: i32,
    line_offset: i32,
}

impl<'a> Lexer<'a> {
    /// The source string the lexer was made over.
    pub closed spec fn spec_src(&self) -> &'a str {
        self.src
    }

    /// The kind of the current token, if any.
    pub closed spec fn spec_kind(&self) -> Option<TokenKind> {
        self.kind
    }

    /// The text of the current token, if any.
    pub closed spec fn spec_token(&self) -> Option<&'a str> {
        self.token
    }

    /// The line the lexer stands on; `NOT_BEGUN` before the first step.
    pub closed spec fn spec_line_idx(&self) -> i32 {
        self.line_idx
    }

    /// The offset within the line; `NOT_BEGUN` before the first step.
    pub closed spec fn spec_line_offset(&self) -> i32 {
        self.line_offset
    }

    /// A fresh lexer over `_src`: no token yet, position not begun.
    pub fn new(_src: &'a str) -> (l: Lexer<'a>)
        ensures
            l.spec_src() == _src,
            l.spec_kind() is None,
            l.spec_token() is None,
            l.spec_line_idx() == NOT_BEGUN,
            l.spec_line_offset() == NOT_BEGUN,
    {
        Lexer { src: _src, kind: None, token: None, line_idx: NOT_BEGUN, line_offset: NOT_BEGUN }
    }

    /// Advance the position to the start of the next line.
    fn new_line(&mut self)
        requires
            old(self).line_idx < i32::MAX,
        ensures
            final(self).line_idx == old(self).line_idx + 1,
            final(self).line_offset == 0,
            final(self).src == old(self).src,
            final(self).kind == old(self).kind,
            final(self).token == old(self).token,
    {
        self.line_idx = self.line_idx + 1;
        self.line_offset = 0;
    }

    /// Clear the current token: the lexer is done.
    fn finish(&mut self)
        ensures
            final(self).kind is None,
            final(self).token is None,
            final(self).src == old(self).src,
            final(self).line_idx == old(self).line_idx,
            final(self).line_offset == old(self).line_offset,
    {
        self.kind = None;
        self.token = None;
    }

    /// One step of the stub lexer: the first call yields a single `Text`
    /// token, every later call yields nothing.
    pub fn next(&mut self) -> (r: Option<TokenKind>)
        ensures
            old(self).spec_line_idx() == NOT_BEGUN ==> {
                &&& r == Some(TokenKind::Text)
                &&& final(self).spec_line_idx() == 0
                &&& final(self).spec_line_offset() == 0
                &&& final(self).spec_src() == old(self).spec_src()
                &&& final(self).spec_kind() == old(self).spec_kind()
                &&& final(self).spec_token() == old(self).spec_token()
            },
            old(self).spec_line_idx() != NOT_BEGUN ==> {
                &&& r is None
                &&& final(self).spec_kind() is None
                &&& final(self).spec_token() is None
                &&& final(self).spec_src() == old(self).spec_src()
                &&& final(self).spec_line_idx() == old(self).spec_line_idx()
                &&& final(self).spec_line_offset() == old(self).spec_line_offset()
            },
    {
        if self.line_idx == NOT_BEGUN {
            self.new_line();
            Some(TokenKind::Text)
        } else {
            self.finish();
            None
        }
    }
}

} // verus!
