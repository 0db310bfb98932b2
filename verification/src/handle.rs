//! Typed handles of shared-memory primitives.
//!
//! An allocator answers with one line, `<kind>:<id>`. The line is read into a
//! [`Handle`] where it enters the library and written back in the same form where a
//! handle is published, so the topology builder never carries raw text.

use vstd::prelude::*;
use vstd::string::*;
use crate::text::{chars_of, decimal, find_char, lemma_decimal_roundtrip, lemma_find_char, lemma_find_char_is, parse_numeral, position_of, read_decimal, render_decimal};

verus! {

/// A primitive carved from the workspace: the tag the allocator gave it and its id.
#[derive(Clone, Debug, PartialEq, Eq)]
pub struct Handle {
    pub kind: String,
    pub id: u64,
}

/// The mathematical value of a [`Handle`].
pub struct HandleView {
    pub kind: Seq<char>,
    pub id: u64,
}

impl View for Handle {
    type V = HandleView;

    open spec fn view(&self) -> HandleView {
        HandleView { kind: self.kind@, id: self.id }
    }
}

/// The line that stands for a handle: kind, a colon, the id in decimal.
pub open spec fn handle_text(h: HandleView) -> Seq<char> {
    h.kind + seq![':'] + decimal(h.id as nat)
}

/// The handle that a line stands for. The kind is what precedes the first colon;
/// what follows it must be a decimal numeral that fits in 64 bits.
pub open spec fn parse_handle(line: Seq<char>) -> Option<HandleView> {
    let k = find_char(line, ':');
    if k < line.len() {
        match parse_numeral(line.skip(k + 1)) {
            Some(id) => Some(HandleView { kind: line.take(k), id }),
            None => None,
        }
    } else {
        None
    }
}

/// The view of an optional handle.
pub open spec fn handle_option_view(h: Option<Handle>) -> Option<HandleView> {
    match h {
        Some(h) => Some(h@),
        None => None,
    }
}

/// The views of a sequence of handles.
pub open spec fn handle_views(v: Seq<Handle>) -> Seq<HandleView> {
    Seq::new(v.len(), |i: int| v[i]@)
}

/// Writing a handle and reading the line back gives the same handle, provided the
/// kind holds no colon.
pub proof fn lemma_handle_roundtrip(h: HandleView)
    requires
        !h.kind.contains(':'),
    ensures
        parse_handle(handle_text(h)) == Some(h),
{
    let line = handle_text(h);
    let k = h.kind.len() as int;
    assert forall|j: int| 0 <= j < k implies line[j] != ':' by {
        assert(line[j] == h.kind[j]);
        assert(h.kind.contains(h.kind[j]));
    }
    assert(line[k] == ':');
    lemma_find_char_is(line, ':', k);
    assert(line.take(k) =~= h.kind);
    assert(line.skip(k + 1) =~= decimal(h.id as nat));
    lemma_decimal_roundtrip(h.id as nat);
}

impl Handle {
    /// Reads an allocator's answer. `None` when the line is not `<kind>:<id>`.
    pub fn parse(line: &str) -> (r: Option<Handle>)
        ensures
            handle_option_view(r) == parse_handle(line@),
    {
        let chars = chars_of(line);
        let k = position_of(&chars, ':');
        proof {
            lemma_find_char(chars@, ':');
        }
        if k >= chars.len() {
            return None;
        }
        assert(chars@.subrange(k + 1, chars.len() as int) =~= line@.skip(k + 1));
        match read_decimal(&chars, k + 1, chars.len()) {
            None => None,
            Some(id) => {
                let kind = String::from_str(line.substring_char(0, k));
                assert(line@.subrange(0, k as int) =~= line@.take(k as int));
                Some(Handle { kind, id })
            },
        }
    }

    /// Writes the handle as the line an allocator would answer with.
    pub fn render(&self) -> (s: String)
        ensures
            s@ == handle_text(self@),
    {
        proof {
            reveal_strlit(":");
        }
        let mut s = self.kind.clone();
        s.append(":");
        let digits = render_decimal(self.id);
        s.append(digits.as_str());
        assert(":"@ =~= seq![':']);
        s
    }

    /// An independent copy of the handle.
    pub fn duplicate(&self) -> (h: Handle)
        ensures
            h@ == self@,
    {
        Handle { kind: self.kind.clone(), id: self.id }
    }
}

} // verus!
