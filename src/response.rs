//! Splitting a model completion into the rewritten text and its explanation.
use vstd::prelude::*;
use crate::text::{
    chars_of, occurs_at, occurs_at_chars, starts_with, string_of, strip_prefix,
    strip_prefix_chars, slice_chars, trim, trim_chars,
};

verus! {

/// The number of delimiters that separate a rewrite from its explanation.
pub const DELIMITER_COUNT: usize = 5;

/// The delimiters, in the order in which they are tried at one position.
pub open spec fn delimiters() -> Seq<Seq<char>> {
    seq![
        "EXPLANATION:"@,
        "**Explanation:**"@,
        "**Why:**"@,
        "---"@,
        "\n\n**Changes"@,
    ]
}

/// Labels that may precede the rewritten text.
pub open spec fn rewrite_label() -> Seq<char> {
    "REWRITE:"@
}

pub open spec fn rewrite_label_bold() -> Seq<char> {
    "**Rewrite:**"@
}

fn delimiter(k: usize) -> (r: &'static str)
    requires
        k < DELIMITER_COUNT,
    ensures
        r@ == delimiters()[k as int],
{
    if k == 0 {
        "EXPLANATION:"
    } else if k == 1 {
        "**Explanation:**"
    } else if k == 2 {
        "**Why:**"
    } else if k == 3 {
        "---"
    } else {
        "\n\n**Changes"
    }
}

/// The first delimiter, in list order, that occurs in `s` at position `i`,
/// looking at the delimiters from index `k` on.
pub open spec fn delimiter_at_from(s: Seq<char>, i: int, k: int) -> Option<int>
    decreases 5 - k,
{
    if k < 0 || k >= 5 {
        None
    } else if occurs_at(s, i, delimiters()[k]) {
        Some(k)
    } else {
        delimiter_at_from(s, i, k + 1)
    }
}

/// The earliest position in `s`, from `i` on, at which some delimiter occurs,
/// with the first delimiter in list order that occurs there.
pub open spec fn split_from(s: Seq<char>, i: int) -> Option<(int, int)>
    decreases s.len() - i,
{
    if i < 0 || i >= s.len() {
        None
    } else {
        match delimiter_at_from(s, i, 0) {
            Some(k) => Some((i, k)),
            None => split_from(s, i + 1),
        }
    }
}

/// Where a completion is split: the earliest delimiter occurrence in the text.
pub open spec fn split_point(s: Seq<char>) -> Option<(int, int)> {
    split_from(s, 0)
}

/// The rewritten text before a delimiter, with a leading label removed.
pub open spec fn rewrite_part(before: Seq<char>) -> Seq<char> {
    let t = trim(before);
    if starts_with(t, rewrite_label()) {
        trim(strip_prefix(t, rewrite_label()))
    } else {
        trim(strip_prefix(t, rewrite_label_bold()))
    }
}

/// The rewritten text and the explanation that a completion holds.
pub open spec fn parsed(s: Seq<char>) -> (Seq<char>, Seq<char>) {
    match split_point(s) {
        Some((i, k)) => (
            rewrite_part(s.subrange(0, i)),
            trim(s.subrange(i + delimiters()[k].len(), s.len() as int)),
        ),
        None => (trim(strip_prefix(s, rewrite_label())), Seq::empty()),
    }
}

fn delimiter_at(s: &Vec<char>, i: usize) -> (r: Option<usize>)
    ensures
        match r {
            Some(k) => delimiter_at_from(s@, i as int, 0) == Some(k as int) && k < DELIMITER_COUNT
                && occurs_at(s@, i as int, delimiters()[k as int]),
            None => delimiter_at_from(s@, i as int, 0) is None,
        },
{
    let mut k: usize = 0;
    while k < DELIMITER_COUNT
        invariant
            k <= DELIMITER_COUNT,
            delimiter_at_from(s@, i as int, 0) == delimiter_at_from(s@, i as int, k as int),
        decreases DELIMITER_COUNT - k,
    {
        let d = chars_of(delimiter(k));
        if occurs_at_chars(s, i, &d) {
            return Some(k);
        }
        k = k + 1;
    }
    None
}

/// Splits a completion into the rewritten text and the explanation. The split
/// falls at the earliest delimiter in the text; without one, the whole
/// completion is the rewrite and the explanation is empty.
pub fn parse_response(full: &str) -> (r: (String, String))
    ensures
        r.0@ == parsed(full@).0,
        r.1@ == parsed(full@).1,
        split_point(full@) is None ==> r.1@ == Seq::<char>::empty(),
{
    let s = chars_of(full);
    let n = s.len();
    let mut i: usize = 0;
    while i < n
        invariant
            i <= n == s.len(),
            s@ == full@,
            split_point(s@) == split_from(s@, i as int),
        decreases n - i,
    {
        match delimiter_at(&s, i) {
            Some(k) => {
                let d = chars_of(delimiter(k));
                let before = trim_chars(&slice_chars(&s, 0, i));
                let label = chars_of("REWRITE:");
                let bold = chars_of("**Rewrite:**");
                let rewrite = if occurs_at_chars(&before, 0, &label) {
                    trim_chars(&strip_prefix_chars(&before, &label))
                } else {
                    trim_chars(&strip_prefix_chars(&before, &bold))
                };
                let explain = trim_chars(&slice_chars(&s, i + d.len(), n));
                return (string_of(&rewrite), string_of(&explain));
            },
            None => {},
        }
        i = i + 1;
    }
    let label = chars_of("REWRITE:");
    let cleaned = trim_chars(&strip_prefix_chars(&s, &label));
    (string_of(&cleaned), String::new())
}

} // verus!
