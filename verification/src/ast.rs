//! Document content types, and the pure half of reading a document into them.

use vstd::prelude::*;

verus! {

/// One run of plain text.
pub struct SimpleText {
    pub text: String,
}

/// A link: its visible text, an identifier, and the target address.
pub struct Hyperlink {
    pub clickable: String,
    pub id: String,
    pub url: String,
}

/// The root of a parsed document: its children in document order.
pub struct ContentRoot {
    pub children: Vec<SimpleText>,
}

/// Parse one line of content. Not yet specified: accepts any line and
/// produces nothing.
pub fn parse_line(_line: &str) {
}

/// Build a document root from the lines of a source document: every line
/// becomes one `SimpleText` child, in order.
pub fn content_from_lines(lines: &Vec<String>) -> (r: ContentRoot)
    ensures
        r.children@.len() == lines@.len(),
        forall|i: int| 0 <= i < lines@.len() ==> r.children@[i].text@ == lines@[i]@,
{
    let mut children: Vec<SimpleText> = Vec::new();
    let mut i: usize = 0;
    while i < lines.len()
        invariant
            i <= lines@.len(),
            children@.len() == i,
            forall|j: int| 0 <= j < i ==> children@[j].text@ == lines@[j]@,
        decreases lines@.len() - i,
    {
        let item = SimpleText { text: lines[i].clone() };
        children.push(item);
        i += 1;
    }
    ContentRoot { children }
}

} // verus!
