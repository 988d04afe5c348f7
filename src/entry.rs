//! One unit of received text and the station event it reports.
use vstd::prelude::*;

use crate::action::{action_of_tag, join_tag, leave_tag, Action, ActionView};

verus! {

/// The event grammar: a tag, at least one further character on the same
/// line, then a MAC address. The first match in a text is the one taken.
pub const EVENT_PATTERN: &'static str = r"(?P<action>JOIN|LEAVE).+(?P<mac>[0-9a-f]{2}:[0-9a-f]{2}:[0-9a-f]{2}:[0-9a-f]{2}:[0-9a-f]{2}:[0-9a-f]{2})";

/// The number of characters of a MAC address.
pub open spec fn mac_len() -> int {
    17
}

pub open spec fn is_hex_digit(c: char) -> bool {
    ('0' <= c && c <= '9') || ('a' <= c && c <= 'f')
}

/// Six lower-case hex pairs separated by colons.
pub open spec fn is_mac(m: Seq<char>) -> bool {
    &&& m.len() == mac_len()
    &&& forall|k: int|
        0 <= k < mac_len() ==> if k % 3 == 2 {
            #[trigger] m[k] == ':'
        } else {
            is_hex_digit(m[k])
        }
}

/// A MAC address starts at position `j` of `s`.
pub open spec fn mac_at(s: Seq<char>, j: int) -> bool {
    0 <= j && j + mac_len() <= s.len() && is_mac(s.subrange(j, j + mac_len()))
}

/// The event tag that starts at position `i` of `s`; empty where none does.
pub open spec fn tag_at(s: Seq<char>, i: int) -> Seq<char> {
    if 0 <= i && i + 4 <= s.len() && s.subrange(i, i + 4) == join_tag() {
        join_tag()
    } else if 0 <= i && i + 5 <= s.len() && s.subrange(i, i + 5) == leave_tag() {
        leave_tag()
    } else {
        Seq::empty()
    }
}

pub open spec fn has_tag_at(s: Seq<char>, i: int) -> bool {
    tag_at(s, i).len() > 0
}

/// A match of the grammar starts with the tag at `i` and ends with the MAC
/// at `j`: something stands between them and no line break does.
pub open spec fn closes_at(s: Seq<char>, i: int, j: int) -> bool {
    &&& has_tag_at(s, i)
    &&& i + tag_at(s, i).len() < j
    &&& mac_at(s, j)
    &&& forall|k: int| i + tag_at(s, i).len() <= k < j ==> #[trigger] s[k] != '\n'
}

pub open spec fn match_starts_at(s: Seq<char>, i: int) -> bool {
    exists|j: int| #[trigger] closes_at(s, i, j)
}

pub open spec fn has_match(s: Seq<char>) -> bool {
    exists|i: int| #[trigger] match_starts_at(s, i)
}

/// The leftmost-first match: the leftmost start, and from there the
/// greedy gap, which ends at the last MAC address it can reach.
pub open spec fn is_first_match(s: Seq<char>, i: int, j: int) -> bool {
    &&& closes_at(s, i, j)
    &&& forall|i2: int| 0 <= i2 < i ==> !#[trigger] match_starts_at(s, i2)
    &&& forall|j2: int| j < j2 ==> !#[trigger] closes_at(s, i, j2)
}

/// The action that the text `s` reports, if any.
pub open spec fn parsed(s: Seq<char>) -> Option<ActionView> {
    if exists|i: int, j: int| is_first_match(s, i, j) {
        let (i, j) = choose|i: int, j: int| is_first_match(s, i, j);
        action_of_tag(tag_at(s, i), s.subrange(j, j + mac_len()))
    } else {
        None
    }
}

pub open spec fn invalid_format_text() -> Seq<char> {
    "Invalid log entry format"@
}

/// There is at most one leftmost-first match.
pub proof fn lemma_first_match_unique(s: Seq<char>, i: int, j: int, i2: int, j2: int)
    requires
        is_first_match(s, i, j),
        is_first_match(s, i2, j2),
    ensures
        i == i2,
        j == j2,
{
    assert(match_starts_at(s, i));
    assert(match_starts_at(s, i2));
}

/// The action that the leftmost-first match names.
pub proof fn lemma_parsed_at(s: Seq<char>, i: int, j: int)
    requires
        is_first_match(s, i, j),
    ensures
        parsed(s) == action_of_tag(tag_at(s, i), s.subrange(j, j + mac_len())),
        parsed(s) is Some,
{
    let (i2, j2) = choose|i2: int, j2: int| is_first_match(s, i2, j2);
    lemma_first_match_unique(s, i, j, i2, j2);
}

/// A text with exactly one event tag and exactly one MAC address, the tag
/// first, with a gap between them that holds no line break, reports the
/// action of that tag on that MAC address.
pub proof fn lemma_single_event_parses(s: Seq<char>, i: int, j: int)
    requires
        has_tag_at(s, i),
        forall|i2: int| #[trigger] has_tag_at(s, i2) ==> i2 == i,
        mac_at(s, j),
        forall|j2: int| #[trigger] mac_at(s, j2) ==> j2 == j,
        i + tag_at(s, i).len() < j,
        forall|k: int| i + tag_at(s, i).len() <= k < j ==> #[trigger] s[k] != '\n',
    ensures
        has_match(s),
        parsed(s) == action_of_tag(tag_at(s, i), s.subrange(j, j + mac_len())),
        parsed(s) is Some,
{
    assert(closes_at(s, i, j));
    assert(match_starts_at(s, i));
    assert(is_first_match(s, i, j));
    lemma_parsed_at(s, i, j);
}

/// A text without an event tag, or without a MAC address, or whose MAC
/// addresses all come before its tags, reports no action.
pub proof fn lemma_no_event_no_parse(s: Seq<char>)
    requires
        (forall|i: int| !#[trigger] has_tag_at(s, i)) || (forall|j: int| !#[trigger] mac_at(s, j))
            || (forall|i: int, j: int| has_tag_at(s, i) && mac_at(s, j) ==> j < i),
    ensures
        !has_match(s),
        parsed(s) is None,
{
    if has_match(s) {
        let i = choose|i: int| match_starts_at(s, i);
        let j = choose|j: int| closes_at(s, i, j);
        assert(has_tag_at(s, i) && mac_at(s, j));
    }
    if parsed(s) is Some {
        let (i, j) = choose|i: int, j: int| is_first_match(s, i, j);
        assert(match_starts_at(s, i));
    }
}

/// Relies on regex::Regex::new and Regex::captures: the pattern compiles,
/// and `captures` gives the groups of the leftmost-first match, where `.`
/// is any character but `\n` and `.+` is greedy.
#[verifier::external_body]
fn first_captures<'h>(pattern: &str, haystack: &'h str) -> (r: Option<(&'h str, &'h str)>)
    requires
        pattern@ == EVENT_PATTERN@,
    ensures
        r is None <==> !has_match(haystack@),
        r matches Some((t, m)) ==> exists|i: int, j: int|
            is_first_match(haystack@, i, j) && t@ == tag_at(haystack@, i) && m@
                == haystack@.subrange(j, j + mac_len()),
{
    match regex::Regex::new(pattern).unwrap().captures(haystack) {
        Some(c) => match (c.name("action"), c.name("mac")) {
            (Some(t), Some(m)) => Some((t.as_str(), m.as_str())),
            _ => None,
        },
        None => None,
    }
}

/// One unit of received text, typically one log line.
#[derive(Debug, Copy, Clone)]
pub struct LogEntry<'a> {
    pub value: &'a str,
}

impl<'a> LogEntry<'a> {
    pub fn new(v: &'a str) -> (r: LogEntry<'a>)
        ensures
            r.value == v,
    {
        LogEntry { value: v }
    }

    /// The station event that the entry reports: the first match of the
    /// event grammar in its text.
    pub fn parse_action(self) -> (r: Result<Action<'a>, &'static str>)
        ensures
            r is Ok <==> has_match(self.value@),
            r matches Ok(a) ==> parsed(self.value@) == Some(a@),
            r matches Err(e) ==> e@ == invalid_format_text() && parsed(self.value@) is None,
    {
        let err = "Invalid log entry format";
        match first_captures(EVENT_PATTERN, self.value) {
            Some((tag, mac)) => {
                let ghost s = self.value@;
                let ghost (i, j) = choose|i: int, j: int|
                    is_first_match(s, i, j) && tag@ == tag_at(s, i) && mac@ == s.subrange(
                        j,
                        j + mac_len(),
                    );
                proof {
                    lemma_parsed_at(s, i, j);
                }
                Action::from_str(tag, mac)
            },
            None => {
                proof {
                    if parsed(self.value@) is Some {
                        let (i, j) = choose|i: int, j: int| is_first_match(self.value@, i, j);
                        assert(match_starts_at(self.value@, i));
                    }
                }
                Err(err)
            },
        }
    }
}

} // verus!
