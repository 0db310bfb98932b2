//! Reading the interface inspector's listing: the IPv4 addresses of the interface
//! and its link-layer address.
//!
//! The listing is text, one fact per line. A line that carries an IPv4 address
//! matches [`INET_PATTERN`]; the link-layer address is the second word of the first
//! line that mentions `link/ether`. Every other line is skipped.

use vstd::prelude::*;
use vstd::string::*;
use crate::text::{chars_of, find_char, lemma_find_char, position_from, texts};

verus! {

/// The pattern of a line that carries an IPv4 address; its first group is the address.
pub const INET_PATTERN: &'static str = "^\\s+inet ([0-9]+\\.[0-9]+\\.[0-9]+\\.[0-9]+)\\/.*$";

/// The marker of the line that carries the link-layer address.
pub const LINK_MARKER: &'static str = "link/ether";

/// `regex::Error`, the reason for which `regex::Regex::new` rejects a pattern. Nothing
/// is claimed of its contents.
#[verifier::external_type_specification]
#[verifier::external_body]
pub struct ExRegexError(regex::Error);

/// Whether `regex::Regex::new` accepts `pattern`.
pub uninterp spec fn pattern_compiles(pattern: Seq<char>) -> bool;

/// What the first capture group of `pattern` holds in the leftmost match that
/// `regex::Regex::captures` finds in `haystack`: `None` where there is no match or
/// the group took no part in it.
pub uninterp spec fn first_group(pattern: Seq<char>, haystack: Seq<char>) -> Option<Seq<char>>;

/// The view of an optional string.
pub open spec fn text_option_view(t: Option<String>) -> Option<Seq<char>> {
    match t {
        Some(s) => Some(s@),
        None => None,
    }
}

/// The views of a sequence of optional strings.
pub open spec fn text_option_views(v: Seq<Option<String>>) -> Seq<Option<Seq<char>>> {
    Seq::new(v.len(), |i: int| text_option_view(v[i]))
}

/// Compiles `pattern` with `regex::Regex::new` and searches `haystack` with
/// `regex::Regex::captures`. The contract claims that the call fails exactly on a
/// pattern the crate rejects, and otherwise returns the text of capture group 1 of
/// the match, both being functions of the two strings alone.
#[verifier::external_body]
fn capture_first_group(pattern: &str, haystack: &str) -> (r: Result<Option<String>, regex::Error>)
    ensures
        r is Ok <==> pattern_compiles(pattern@),
        r matches Ok(found) ==> text_option_view(found) == first_group(pattern@, haystack@),
{
    match regex::Regex::new(pattern) {
        Err(e) => Err(e),
        Ok(re) => Ok(re.captures(haystack).and_then(|c| c.get(1)).map(|m| m.as_str().to_string())),
    }
}

/// A line without the carriage return that may end it.
pub open spec fn strip_cr(line: Seq<char>) -> Seq<char> {
    if line.len() > 0 && line.last() == '\r' {
        line.drop_last()
    } else {
        line
    }
}

/// The lines of a text. A line ends at a line feed; a carriage return just before
/// the line feed belongs to the line ending. The last line needs no line ending, and
/// a text that ends with one has no empty line after it.
pub open spec fn lines_of(text: Seq<char>) -> Seq<Seq<char>>
    decreases text.len(),
{
    let k = find_char(text, '\n');
    if text.len() == 0 {
        Seq::empty()
    } else if 0 <= k < text.len() {
        seq![strip_cr(text.take(k))] + lines_of(text.skip(k + 1))
    } else {
        seq![text]
    }
}

/// Whether `c` is white space: a character with the Unicode property `White_Space`.
pub open spec fn is_space(c: char) -> bool {
    let n = c as u32;
    ||| 0x09 <= n <= 0x0d
    ||| n == 0x20
    ||| n == 0x85
    ||| n == 0xa0
    ||| n == 0x1680
    ||| 0x2000 <= n <= 0x200a
    ||| n == 0x2028
    ||| n == 0x2029
    ||| n == 0x202f
    ||| n == 0x205f
    ||| n == 0x3000
}

/// Number of characters at the start of `s` that are white space (`space` true) or
/// that are not (`space` false).
pub open spec fn leading(s: Seq<char>, space: bool) -> int
    decreases s.len(),
{
    if s.len() == 0 || is_space(s[0]) != space {
        0
    } else {
        1 + leading(s.drop_first(), space)
    }
}

/// The second of the words of `s`, where words are separated by white space.
pub open spec fn second_word(s: Seq<char>) -> Option<Seq<char>> {
    let a = leading(s, true);
    let b = a + leading(s.skip(a), false);
    let c = b + leading(s.skip(b), true);
    let d = c + leading(s.skip(c), false);
    if c < d {
        Some(s.subrange(c, d))
    } else {
        None
    }
}

/// Whether `needle` occurs in `s` as a contiguous run.
pub open spec fn occurs_in(needle: Seq<char>, s: Seq<char>) -> bool {
    exists|i: int| occurs_at(needle, s, i)
}

/// Whether `needle` occurs in `s` at index `i`.
pub open spec fn occurs_at(needle: Seq<char>, s: Seq<char>, i: int) -> bool {
    0 <= i && i + needle.len() <= s.len() && s.subrange(i, i + needle.len()) == needle
}

/// The link-layer address in a listing: the second word of the first line that
/// mentions `link/ether`, if that line has two words.
pub open spec fn mac_address(lines: Seq<Seq<char>>) -> Option<Seq<char>>
    decreases lines.len(),
{
    if lines.len() == 0 {
        None
    } else if occurs_in(LINK_MARKER@, lines[0]) {
        second_word(lines[0])
    } else {
        mac_address(lines.drop_first())
    }
}

/// The captures that are present, in their order.
pub open spec fn present(captures: Seq<Option<Seq<char>>>) -> Seq<Seq<char>>
    decreases captures.len(),
{
    if captures.len() == 0 {
        Seq::empty()
    } else {
        match captures.last() {
            Some(a) => present(captures.drop_last()).push(a),
            None => present(captures.drop_last()),
        }
    }
}

/// What the first group of `pattern` captures in each line.
pub open spec fn captures_of(pattern: Seq<char>, lines: Seq<Seq<char>>) -> Seq<Option<Seq<char>>> {
    Seq::new(lines.len(), |i: int| first_group(pattern, lines[i]))
}

/// What an interface listing tells about the interface.
#[derive(Clone, Debug, PartialEq, Eq)]
pub struct Inspection {
    /// The IPv4 addresses, in the order of the listing.
    pub addresses: Vec<String>,
    /// The link-layer address, if the listing shows one.
    pub mac: Option<String>,
}

/// The mathematical value of an [`Inspection`].
pub struct InspectionView {
    pub addresses: Seq<Seq<char>>,
    pub mac: Option<Seq<char>>,
}

impl View for Inspection {
    type V = InspectionView;

    open spec fn view(&self) -> InspectionView {
        InspectionView { addresses: texts(self.addresses@), mac: text_option_view(self.mac) }
    }
}

/// What the listing `output` tells.
pub open spec fn inspection_of(output: Seq<char>) -> InspectionView {
    let lines = lines_of(output);
    InspectionView {
        addresses: present(captures_of(INET_PATTERN@, lines)),
        mac: mac_address(lines),
    }
}

/// Why a listing could not be read.
#[derive(Clone, Copy, Debug, PartialEq, Eq, Structural)]
pub enum InspectError {
    /// The pattern matcher rejected the address pattern.
    BadPattern,
}

proof fn lemma_leading_is(s: Seq<char>, space: bool, k: int)
    requires
        0 <= k <= s.len(),
        forall|j: int| 0 <= j < k ==> is_space(s[j]) == space,
        k < s.len() ==> is_space(s[k]) != space,
    ensures
        leading(s, space) == k,
    decreases k,
{
    if k > 0 {
        let rest = s.drop_first();
        assert forall|j: int| 0 <= j < k - 1 implies is_space(rest[j]) == space by {
            assert(rest[j] == s[j + 1]);
        }
        lemma_leading_is(rest, space, k - 1);
    }
}

/// Whether `c` is white space.
pub fn is_space_char(c: char) -> (b: bool)
    ensures
        b == is_space(c),
{
    let n: u32 = c as u32;
    (0x09 <= n && n <= 0x0d) || n == 0x20 || n == 0x85 || n == 0xa0 || n == 0x1680 || (0x2000 <= n
        && n <= 0x200a) || n == 0x2028 || n == 0x2029 || n == 0x202f || n == 0x205f || n == 0x3000
}

fn run_end(chars: &Vec<char>, from: usize, space: bool) -> (k: usize)
    requires
        from <= chars.len(),
    ensures
        from <= k <= chars.len(),
        k as int == from + leading(chars@.skip(from as int), space),
{
    let mut k: usize = from;
    while k < chars.len() && is_space_char(chars[k]) == space
        invariant
            from <= k <= chars.len(),
            forall|j: int| from <= j < k ==> is_space(chars@[j]) == space,
        decreases chars.len() - k,
    {
        k += 1;
    }
    proof {
        lemma_leading_is(chars@.skip(from as int), space, k - from);
    }
    k
}

/// The second white-space separated word of `line`.
pub fn second_word_of(line: &str) -> (w: Option<String>)
    ensures
        text_option_view(w) == second_word(line@),
{
    let chars = chars_of(line);
    let a = run_end(&chars, 0, true);
    assert(chars@.skip(0) =~= chars@);
    let b = run_end(&chars, a, false);
    let c = run_end(&chars, b, true);
    let d = run_end(&chars, c, false);
    if c < d {
        Some(String::from_str(line.substring_char(c, d)))
    } else {
        None
    }
}

fn matches_at(s: &Vec<char>, needle: &Vec<char>, i: usize) -> (b: bool)
    requires
        i + needle.len() <= s.len(),
    ensures
        b == occurs_at(needle@, s@, i as int),
{
    let mut t: usize = 0;
    while t < needle.len()
        invariant
            t <= needle.len(),
            i + needle.len() <= s.len(),
            forall|j: int| 0 <= j < t ==> s@[i + j] == needle@[j],
        decreases needle.len() - t,
    {
        if s[i + t] != needle[t] {
            assert(s@.subrange(i as int, i + needle.len())[t as int] != needle@[t as int]);
            return false;
        }
        t += 1;
    }
    assert(s@.subrange(i as int, i + needle.len()) =~= needle@);
    true
}

/// Whether `needle` occurs in `line`.
pub fn mentions(line: &str, needle: &str) -> (b: bool)
    ensures
        b == occurs_in(needle@, line@),
{
    let s = chars_of(line);
    let n = chars_of(needle);
    if n.len() > s.len() {
        return false;
    }
    let last: usize = s.len() - n.len();
    let mut i: usize = 0;
    loop
        invariant
            i <= last,
            last == s.len() - n.len(),
            n.len() <= s.len(),
            s@ == line@,
            n@ == needle@,
            forall|j: int| 0 <= j < i ==> !occurs_at(n@, s@, j),
        decreases last - i,
    {
        if matches_at(&s, &n, i) {
            assert(occurs_at(needle@, line@, i as int));
            return true;
        }
        if i == last {
            return false;
        }
        i += 1;
    }
}

/// Splits a text into its lines.
pub fn split_lines(text: &str) -> (lines: Vec<String>)
    ensures
        texts(lines@) == lines_of(text@),
{
    let chars = chars_of(text);
    let n = chars.len();
    let mut lines: Vec<String> = Vec::new();
    let mut start: usize = 0;
    assert(text@.skip(0) =~= text@);
    while start < n
        invariant
            start <= n,
            n == chars.len(),
            chars@ == text@,
            texts(lines@) + lines_of(text@.skip(start as int)) == lines_of(text@),
        decreases n - start,
    {
        let ghost rest = text@.skip(start as int);
        let ghost before = texts(lines@);
        let k = position_from(&chars, '\n', start);
        proof {
            lemma_find_char(rest, '\n');
        }
        if k < n {
            let mut end = k;
            if end > start && chars[end - 1] == '\r' {
                end = end - 1;
            }
            let line = String::from_str(text.substring_char(start, end));
            assert(rest.take(k - start) =~= text@.subrange(start as int, k as int));
            assert(line@ =~= strip_cr(rest.take(k - start)));
            assert(rest.skip(k - start + 1) =~= text@.skip(k + 1));
            lines.push(line);
            assert(texts(lines@) =~= before + seq![line@]);
            start = k + 1;
        } else {
            let line = String::from_str(text.substring_char(start, n));
            assert(line@ =~= rest);
            lines.push(line);
            assert(texts(lines@) =~= before + seq![line@]);
            start = n;
        }
    }
    assert(lines_of(text@.skip(n as int)) =~= Seq::<Seq<char>>::empty());
    lines
}

/// Keeps the captures that are present, in their order.
pub fn collect_addresses(captures: &Vec<Option<String>>) -> (found: Vec<String>)
    ensures
        texts(found@) == present(text_option_views(captures@)),
{
    let mut found: Vec<String> = Vec::new();
    let mut i: usize = 0;
    let ghost all = text_option_views(captures@);
    assert(all.take(0) =~= Seq::<Option<Seq<char>>>::empty());
    while i < captures.len()
        invariant
            i <= captures.len(),
            all == text_option_views(captures@),
            texts(found@) == present(all.take(i as int)),
        decreases captures.len() - i,
    {
        let ghost before = texts(found@);
        assert(all.take(i + 1).drop_last() =~= all.take(i as int));
        assert(all.take(i + 1).last() == text_option_view(captures@[i as int]));
        match &captures[i] {
            Some(a) => {
                found.push(a.clone());
                assert(texts(found@) =~= before.push(a@));
            },
            None => {},
        }
        i += 1;
    }
    assert(all.take(captures.len() as int) =~= all);
    found
}

/// The link-layer address that a listing shows.
pub fn find_mac_address(lines: &Vec<String>) -> (mac: Option<String>)
    ensures
        text_option_view(mac) == mac_address(texts(lines@)),
{
    let mut i: usize = 0;
    let ghost all = texts(lines@);
    assert(all.skip(0) =~= all);
    while i < lines.len()
        invariant
            i <= lines.len(),
            all == texts(lines@),
            mac_address(all.skip(i as int)) == mac_address(all),
        decreases lines.len() - i,
    {
        let ghost rest = all.skip(i as int);
        assert(rest[0] == lines@[i as int]@);
        assert(rest.drop_first() =~= all.skip(i + 1));
        if mentions(lines[i].as_str(), LINK_MARKER) {
            return second_word_of(lines[i].as_str());
        }
        i += 1;
    }
    None
}

/// Matches every line against `pattern` and returns what its first group captured,
/// line by line. Fails if the pattern matcher rejects the pattern, which it can only
/// tell when there is a line to match.
pub fn capture_each(pattern: &str, lines: &Vec<String>) -> (r: Result<Vec<Option<String>>, InspectError>)
    ensures
        r is Err <==> lines.len() > 0 && !pattern_compiles(pattern@),
        r matches Ok(captures) ==> text_option_views(captures@) == captures_of(
            pattern@,
            texts(lines@),
        ),
{
    let mut captures: Vec<Option<String>> = Vec::new();
    let mut i: usize = 0;
    while i < lines.len()
        invariant
            i <= lines.len(),
            captures.len() == i,
            i > 0 ==> pattern_compiles(pattern@),
            forall|j: int|
                0 <= j < i ==> text_option_view(#[trigger] captures@[j]) == first_group(
                    pattern@,
                    lines@[j]@,
                ),
        decreases lines.len() - i,
    {
        match capture_first_group(pattern, lines[i].as_str()) {
            Err(_) => {
                return Err(InspectError::BadPattern);
            },
            Ok(found) => {
                captures.push(found);
            },
        }
        i += 1;
    }
    assert(text_option_views(captures@) =~= captures_of(pattern@, texts(lines@)));
    Ok(captures)
}

/// Reads an interface listing. Fails only if the pattern matcher rejects the address
/// pattern.
pub fn inspect_interface(output: &str) -> (r: Result<Inspection, InspectError>)
    ensures
        r is Err <==> lines_of(output@).len() > 0 && !pattern_compiles(INET_PATTERN@),
        r matches Ok(found) ==> found@ == inspection_of(output@),
{
    let lines = split_lines(output);
    match capture_each(INET_PATTERN, &lines) {
        Err(e) => Err(e),
        Ok(captures) => {
            let addresses = collect_addresses(&captures);
            let mac = find_mac_address(&lines);
            Ok(Inspection { addresses, mac })
        },
    }
}

} // verus!
