//! Turning a linter's findings into replacement-ready grammar issues, and
//! counting words and sentences.
use vstd::prelude::*;
use vstd::string::StringSliceAdditionalSpecFns;
use vstd::utf8::*;
use crate::text::{chars_of, is_white_space, is_white_space_char};

verus! {

broadcast use vstd::utf8::encode_utf8_decode_utf8;

/// One way a linter proposes to fix a flagged span.
pub enum Edit {
    /// Put this text in place of the span.
    ReplaceWith(String),
    /// Keep the span and put this text after it.
    InsertAfter(String),
    /// Delete the span.
    Remove,
}

/// What a linter reports for one problem: a byte span of the text, a message,
/// its proposed edits in order, and the name of its kind.
pub struct Finding {
    pub start: usize,
    pub end: usize,
    pub message: String,
    pub edits: Vec<Edit>,
    pub kind: String,
}

/// A grammar problem in a form that a caller can apply: every suggestion is
/// the literal text to put in place of the span.
#[derive(Clone)]
pub struct GrammarIssue {
    pub start: usize,
    pub end: usize,
    pub message: String,
    pub suggestions: Vec<String>,
    pub severity: String,
}

pub struct TextStats {
    pub word_count: usize,
    pub sentence_count: usize,
    pub issue_count: usize,
}

pub struct CheckResult {
    pub issues: Vec<GrammarIssue>,
    pub stats: TextStats,
}

/// The characters that the byte span `[start, end)` of `text` covers; empty
/// when the span does not lie inside the text on character boundaries.
pub open spec fn span_text(text: &str, start: int, end: int) -> Seq<char> {
    let b = text.spec_bytes();
    if start <= end && end <= b.len() && is_char_boundary(b, start) && is_char_boundary(b, end) {
        decode_utf8(b.subrange(start, end))
    } else {
        Seq::empty()
    }
}

/// The text of `text` under the byte span `[start, end)`, or the empty string
/// where the span reaches past the text or cuts a character.
pub fn original_span(text: &str, start: usize, end: usize) -> (r: String)
    ensures
        r@ == span_text(text, start as int, end as int),
        end > text.spec_bytes().len() ==> r@ == Seq::<char>::empty(),
{
    if start <= end && end <= text.as_bytes().len() && text.is_char_boundary(start)
        && text.is_char_boundary(end) {
        let (head, _) = text.split_at(end);
        assert(head.spec_bytes() =~= text.spec_bytes().subrange(0, end as int));
        proof {
            let b = text.spec_bytes();
            let h = head.spec_bytes();
            encode_utf8_valid_utf8(text@);
            valid_utf8_split(b, end as int);
            if start < end {
                is_char_boundary_iff_not_is_continuation_byte(b, start as int);
                is_char_boundary_iff_not_is_continuation_byte(h, start as int);
            } else {
                is_char_boundary_start_end_of_seq(h);
            }
        }
        let (_, piece) = head.split_at(start);
        assert(piece.spec_bytes() =~= text.spec_bytes().subrange(start as int, end as int));
        proof {
            encode_utf8_decode_utf8(piece@);
        }
        piece.to_owned()
    } else {
        String::new()
    }
}

/// The replacement text that an edit stands for, given the flagged text.
pub open spec fn edit_text(original: Seq<char>, e: Edit) -> Seq<char> {
    match e {
        Edit::ReplaceWith(s) => s@,
        Edit::InsertAfter(s) => original + s@,
        Edit::Remove => Seq::empty(),
    }
}

/// One replacement text per edit, in the order of the edits.
pub fn normalize_suggestions(original: &str, edits: &Vec<Edit>) -> (r: Vec<String>)
    ensures
        r.len() == edits.len(),
        forall|i: int| 0 <= i < r.len() ==> #[trigger] r[i]@ == edit_text(original@, edits[i]),
        forall|i: int| 0 <= i < r.len() && edits[i] is Remove ==> r[i]@ == Seq::<char>::empty(),
{
    let mut r: Vec<String> = Vec::new();
    let mut i: usize = 0;
    while i < edits.len()
        invariant
            i <= edits.len(),
            r.len() == i,
            forall|j: int| 0 <= j < i ==> #[trigger] r[j]@ == edit_text(original@, edits[j]),
        decreases edits.len() - i,
    {
        let s = match &edits[i] {
            Edit::ReplaceWith(t) => t.clone(),
            Edit::InsertAfter(t) => original.to_owned().concat(t.as_str()),
            Edit::Remove => String::new(),
        };
        r.push(s);
        i = i + 1;
    }
    r
}

/// The number of whitespace-separated words in the first `n` characters.
pub open spec fn words_upto(s: Seq<char>, n: int) -> nat
    decreases n,
{
    if n <= 0 || n > s.len() {
        0
    } else {
        words_upto(s, n - 1) + if !is_white_space(s[n - 1]) && (n == 1 || is_white_space(
            s[n - 2],
        )) {
            1nat
        } else {
            0nat
        }
    }
}

/// The number of whitespace-separated words: each starts at a non-whitespace
/// character that opens the text or follows whitespace.
pub open spec fn word_count_of(s: Seq<char>) -> nat {
    words_upto(s, s.len() as int)
}

pub open spec fn is_terminal(c: char) -> bool {
    c == '.' || c == '!' || c == '?'
}

/// The number of sentence-ending marks among the first `n` characters.
pub open spec fn terminals_upto(s: Seq<char>, n: int) -> nat
    decreases n,
{
    if n <= 0 || n > s.len() {
        0
    } else {
        terminals_upto(s, n - 1) + if is_terminal(s[n - 1]) {
            1nat
        } else {
            0nat
        }
    }
}

/// The sentence count: the number of `.`, `!` and `?`, and at least one.
pub open spec fn sentence_count_of(s: Seq<char>) -> nat {
    let t = terminals_upto(s, s.len() as int);
    if t < 1 {
        1
    } else {
        t
    }
}

/// The number of whitespace-separated words in the text.
pub fn word_count(text: &str) -> (r: usize)
    ensures
        r == word_count_of(text@),
{
    let s = chars_of(text);
    let mut n: usize = 0;
    let mut i: usize = 0;
    while i < s.len()
        invariant
            i <= s.len(),
            s@ == text@,
            n == words_upto(s@, i as int),
            n <= i,
        decreases s.len() - i,
    {
        if !is_white_space_char(s[i]) && (i == 0 || is_white_space_char(s[i - 1])) {
            n = n + 1;
        }
        i = i + 1;
    }
    n
}

/// The number of sentences in the text, never below one.
pub fn sentence_count(text: &str) -> (r: usize)
    ensures
        r == sentence_count_of(text@),
        r >= 1,
{
    let s = chars_of(text);
    let mut n: usize = 0;
    let mut i: usize = 0;
    while i < s.len()
        invariant
            i <= s.len(),
            s@ == text@,
            n == terminals_upto(s@, i as int),
            n <= i,
        decreases s.len() - i,
    {
        if s[i] == '.' || s[i] == '!' || s[i] == '?' {
            n = n + 1;
        }
        i = i + 1;
    }
    if n < 1 {
        1
    } else {
        n
    }
}

/// The issue that a finding becomes in `text`.
pub open spec fn issue_matches(text: &str, f: Finding, g: GrammarIssue) -> bool {
    &&& g.start == f.start
    &&& g.end == f.end
    &&& g.message@ == f.message@
    &&& g.severity@ == f.kind@
    &&& g.suggestions.len() == f.edits.len()
    &&& forall|j: int|
        0 <= j < g.suggestions.len() ==> #[trigger] g.suggestions[j]@ == edit_text(
            span_text(text, f.start as int, f.end as int),
            f.edits[j],
        )
}

/// The issue that one finding becomes.
pub fn issue_of(text: &str, f: &Finding) -> (r: GrammarIssue)
    ensures
        issue_matches(text, *f, r),
{
    let original = original_span(text, f.start, f.end);
    GrammarIssue {
        start: f.start,
        end: f.end,
        message: f.message.clone(),
        suggestions: normalize_suggestions(original.as_str(), &f.edits),
        severity: f.kind.clone(),
    }
}

/// The result of checking `text` whose linter reported `findings`: one issue
/// per finding in order, and the text's counts.
pub fn check_findings(text: &str, findings: &Vec<Finding>) -> (r: CheckResult)
    ensures
        r.issues.len() == findings.len(),
        forall|i: int|
            0 <= i < r.issues.len() ==> issue_matches(text, findings[i], #[trigger] r.issues[i]),
        r.stats.word_count == word_count_of(text@),
        r.stats.sentence_count == sentence_count_of(text@),
        r.stats.sentence_count >= 1,
        r.stats.issue_count == findings.len(),
        findings.len() == 0 ==> r.issues.len() == 0 && r.stats.issue_count == 0,
{
    let mut issues: Vec<GrammarIssue> = Vec::new();
    let mut i: usize = 0;
    while i < findings.len()
        invariant
            i <= findings.len(),
            issues.len() == i,
            forall|j: int|
                0 <= j < i ==> issue_matches(text, findings[j], #[trigger] issues[j]),
        decreases findings.len() - i,
    {
        issues.push(issue_of(text, &findings[i]));
        i = i + 1;
    }
    let issue_count = issues.len();
    CheckResult {
        issues,
        stats: TextStats {
            word_count: word_count(text),
            sentence_count: sentence_count(text),
            issue_count,
        },
    }
}

} // verus!
