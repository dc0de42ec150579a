//! The line classifier and tag wrapper: the core of the translator.
//!
//! A pass walks the document's lines in order. Each line is classified by its
//! first character, composed into one tagged output fragment, and the fragment
//! is appended to the output unless it is the canonical empty paragraph, which
//! is suppressed. Two booleans of state say which container is open; under the
//! close-per-line policy both are closed again before the next line.
//!
//! Open question, kept as the baseline behaves: although the state is named as
//! if containers spanned lines, every container is closed on the line that
//! opened it, so none ever does. Letting a container stay open across
//! consecutive same-kind lines would change every contract below.

use vstd::prelude::*;

verus! {

/// The structural classification of one input line.
#[derive(Debug, PartialEq, Eq, Structural, Clone, Copy)]
pub enum LineKind {
    Heading,
    Body,
}

/// Cross-line state of one translation pass: which container is open.
#[derive(Debug, PartialEq, Eq, Structural, Clone, Copy)]
pub struct WrapperState {
    pub paragraph_open: bool,
    pub heading_open: bool,
}

/// The state at the start of a pass: no container open.
pub open spec fn initial_state() -> WrapperState {
    WrapperState { paragraph_open: false, heading_open: false }
}

impl WrapperState {
    /// The state at the start of a pass: no container open.
    pub fn new() -> (s: WrapperState)
        ensures
            s == initial_state(),
    {
        WrapperState { paragraph_open: false, heading_open: false }
    }
}

/// The paragraph opening tag, `<p>`.
pub open spec fn para_open_tag() -> Seq<char> {
    seq!['<', 'p', '>']
}

/// The paragraph closing fragment, `</p>` with its line break.
pub open spec fn para_close_tag() -> Seq<char> {
    seq!['<', '/', 'p', '>', '\n']
}

/// The heading opening fragment: a blank line, then `<h1>`.
pub open spec fn head_open_tag() -> Seq<char> {
    seq!['\n', '\n', '<', 'h', '1', '>']
}

/// The heading closing fragment, `</h1>` with its line break.
pub open spec fn head_close_tag() -> Seq<char> {
    seq!['<', '/', 'h', '1', '>', '\n']
}

/// The canonical empty paragraph: open tag immediately followed by close tag.
pub open spec fn empty_paragraph() -> Seq<char> {
    para_open_tag() + para_close_tag()
}

/// A line is a heading exactly when its first character is `#`;
/// everything else, the empty line included, is body text.
pub open spec fn spec_classify(s: Seq<char>) -> LineKind {
    if s.len() > 0 && s[0] == '#' {
        LineKind::Heading
    } else {
        LineKind::Body
    }
}

/// A heading marker is well formed when it is exactly one `#` followed by one
/// space. A line whose marker is malformed is wrapped as body text rather
/// than sliced past its end.
pub open spec fn heading_marker_ok(s: Seq<char>) -> bool {
    s.len() >= 2 && s[0] == '#' && s[1] == ' '
}

/// The fragment composed for one line from the given state, before
/// suppression. A well-formed heading closes whatever is open, then wraps the
/// content past its two marker characters in heading tags; any other line is
/// wrapped in paragraph tags, opening one only if none is open, and closes a
/// still-open heading at the end.
pub open spec fn spec_fragment(s: Seq<char>, st: WrapperState) -> Seq<char> {
    if heading_marker_ok(s) {
        (if st.paragraph_open {
            para_close_tag()
        } else {
            Seq::<char>::empty()
        }) + (if st.heading_open {
            head_close_tag()
        } else {
            Seq::<char>::empty()
        }) + head_open_tag() + s.subrange(2, s.len() as int) + head_close_tag()
    } else {
        (if st.paragraph_open {
            Seq::<char>::empty()
        } else {
            para_open_tag()
        }) + s + para_close_tag() + (if st.heading_open {
            head_close_tag()
        } else {
            Seq::<char>::empty()
        })
    }
}

/// The state after a line: under the close-per-line policy every container
/// opened for the line is closed again before the next one, whatever the line
/// and whatever the entry state.
pub open spec fn spec_next_state(s: Seq<char>, st: WrapperState) -> WrapperState {
    WrapperState { paragraph_open: false, heading_open: false }
}

/// The output of one line: its fragment, unless the fragment is the canonical
/// empty paragraph, which is suppressed.
pub open spec fn spec_wrap_output(s: Seq<char>, st: WrapperState) -> Option<Seq<char>> {
    if spec_fragment(s, st) == empty_paragraph() {
        None
    } else {
        Some(spec_fragment(s, st))
    }
}

/// Classify one line by its first character. Total: every string, the empty
/// one included, is a heading or body text, and a heading exactly when it
/// starts with `#`.
pub fn classify(line: &str) -> (k: LineKind)
    ensures
        k == spec_classify(line@),
{
    let n = line.unicode_len();
    if n > 0 && line.get_char(0) == '#' {
        LineKind::Heading
    } else {
        LineKind::Body
    }
}

/// Character-for-character string equality.
pub fn str_eq(a: &str, b: &str) -> (r: bool)
    ensures
        r == (a@ == b@),
{
    let na = a.unicode_len();
    let nb = b.unicode_len();
    if na != nb {
        return false;
    }
    let mut i: usize = 0;
    while i < na
        invariant
            na == a@.len(),
            na == b@.len(),
            i <= na,
            forall|j: int| 0 <= j < i ==> a@[j] == b@[j],
        decreases na - i,
    {
        if a.get_char(i) != b.get_char(i) {
            return false;
        }
        i += 1;
    }
    proof {
        assert(a@ =~= b@);
    }
    true
}

/// Wrap one line: compose its fragment from the given state, suppress it if
/// it is exactly the canonical empty paragraph, and return the state for the
/// next line.
pub fn wrap(line: &str, state: WrapperState) -> (r: (Option<String>, WrapperState))
    ensures
        r.1 == spec_next_state(line@, state),
        spec_wrap_output(line@, state) is None ==> r.0 is None,
        spec_wrap_output(line@, state) matches Some(f) ==> r.0 matches Some(out) && out@ == f,
{
    let n = line.unicode_len();
    let heading = match classify(line) {
        LineKind::Heading => true,
        LineKind::Body => false,
    };
    let marker_ok = heading && n >= 2 && line.get_char(1) == ' ';
    let next = WrapperState { paragraph_open: false, heading_open: false };
    let mut out = String::new();
    if marker_ok {
        proof {
            reveal_strlit("</p>\n");
            reveal_strlit("</h1>\n");
            reveal_strlit("\n\n<h1>");
        }
        if state.paragraph_open {
            out.append("</p>\n");
        }
        if state.heading_open {
            out.append("</h1>\n");
        }
        out.append("\n\n<h1>");
        out.append(line.substring_char(2, n));
        out.append("</h1>\n");
        proof {
            assert(out@ =~= spec_fragment(line@, state));
            assert(spec_fragment(line@, state).len() >= 12);
            assert(empty_paragraph().len() == 8);
        }
        (Some(out), next)
    } else {
        proof {
            reveal_strlit("<p>");
            reveal_strlit("</p>\n");
            reveal_strlit("</h1>\n");
        }
        if !state.paragraph_open {
            out.append("<p>");
        }
        out.append(line);
        out.append("</p>\n");
        if state.heading_open {
            out.append("</h1>\n");
        }
        proof {
            assert(out@ =~= spec_fragment(line@, state));
            reveal_strlit("<p></p>\n");
            assert("<p></p>\n"@ =~= empty_paragraph());
        }
        if str_eq(out.as_str(), "<p></p>\n") {
            (None, next)
        } else {
            (Some(out), next)
        }
    }
}

/// The output of a pass over `lines` starting in state `st`: each line's
/// non-suppressed fragment, in line order, the state threaded from each line
/// to the next.
pub open spec fn spec_translate_from(lines: Seq<Seq<char>>, st: WrapperState) -> Seq<Seq<char>>
    decreases lines.len(),
{
    if lines.len() == 0 {
        Seq::<Seq<char>>::empty()
    } else {
        let rest = spec_translate_from(lines.drop_first(), spec_next_state(lines[0], st));
        match spec_wrap_output(lines[0], st) {
            Some(f) => seq![f] + rest,
            None => rest,
        }
    }
}

/// The output of a full pass over a document's lines, from the initial state.
pub open spec fn spec_translate(lines: Seq<Seq<char>>) -> Seq<Seq<char>> {
    spec_translate_from(lines, initial_state())
}

/// Translate a document: wrap each line in order, threading the state from
/// one line to the next, and collect the non-suppressed fragments in order.
pub fn translate(lines: &Vec<String>) -> (out: Vec<String>)
    ensures
        out.deep_view() == spec_translate(lines.deep_view()),
{
    let mut out: Vec<String> = Vec::new();
    let mut state = WrapperState::new();
    let mut i: usize = 0;
    proof {
        assert(out.deep_view() =~= Seq::<Seq<char>>::empty());
        assert(lines.deep_view().skip(0) =~= lines.deep_view());
        assert(Seq::<Seq<char>>::empty() + spec_translate(lines.deep_view()) =~= spec_translate(
            lines.deep_view(),
        ));
    }
    while i < lines.len()
        invariant
            i <= lines@.len(),
            out.deep_view() + spec_translate_from(lines.deep_view().skip(i as int), state)
                == spec_translate(lines.deep_view()),
        decreases lines@.len() - i,
    {
        proof {
            assert(lines.deep_view().skip(i as int)[0] == lines.deep_view()[i as int]);
            assert(lines.deep_view().skip(i as int).drop_first() =~= lines.deep_view().skip(
                i as int + 1,
            ));
        }
        let ghost prev_out = out.deep_view();
        let (fragment, next) = wrap(lines[i].as_str(), state);
        state = next;
        match fragment {
            Some(f) => {
                out.push(f);
                proof {
                    assert(out.deep_view() =~= prev_out.push(f@));
                    assert(prev_out.push(f@) =~= prev_out + seq![f@]);
                }
            },
            None => {},
        }
        i += 1;
    }
    proof {
        assert(lines.deep_view().skip(i as int) =~= Seq::<Seq<char>>::empty());
        assert(out.deep_view() + Seq::<Seq<char>>::empty() =~= out.deep_view());
    }
    out
}

/// Classification totality: every line, the empty one included, is classified
/// as exactly one of heading or body, and as a heading exactly when its first
/// character is `#`.
pub proof fn lemma_classify_total(s: Seq<char>)
    ensures
        spec_classify(s) is Heading || spec_classify(s) is Body,
        spec_classify(s) is Heading <==> s.len() > 0 && s[0] == '#',
        !(spec_classify(s) is Heading && spec_classify(s) is Body),
{
}

/// Determinism: a pass is a function of its input lines alone, so identical
/// input sequences yield identical output sequences.
pub proof fn lemma_translate_deterministic(a: Seq<Seq<char>>, b: Seq<Seq<char>>)
    requires
        a == b,
    ensures
        spec_translate(a) == spec_translate(b),
{
}

/// Container balance: after processing any line from any state, at most one
/// container is open; under the close-per-line policy, in fact neither is.
pub proof fn lemma_container_balance(s: Seq<char>, st: WrapperState)
    ensures
        !(spec_next_state(s, st).paragraph_open && spec_next_state(s, st).heading_open),
        !spec_next_state(s, st).paragraph_open,
        !spec_next_state(s, st).heading_open,
{
}

/// Suppression: each line contributes exactly one fragment to the pass
/// output, unless its composed fragment is the canonical empty paragraph,
/// which contributes none.
pub proof fn lemma_suppression(lines: Seq<Seq<char>>, st: WrapperState)
    requires
        lines.len() > 0,
    ensures
        spec_fragment(lines[0], st) == empty_paragraph() ==> spec_translate_from(lines, st)
            == spec_translate_from(lines.drop_first(), spec_next_state(lines[0], st)),
        spec_fragment(lines[0], st) != empty_paragraph() ==> spec_translate_from(lines, st)
            == seq![spec_fragment(lines[0], st)] + spec_translate_from(
            lines.drop_first(),
            spec_next_state(lines[0], st),
        ),
{
}

} // verus!
