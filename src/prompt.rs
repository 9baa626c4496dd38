//! Rewrite modes and the instruction sent to the model for each of them.
use vstd::prelude::*;
use crate::response::delimiters;
use crate::text::{occurs_at, same_text};

verus! {

/// A rewrite intent. Tags that name none of the known modes are kept as they
/// came and get the generic template.
pub enum Mode {
    Clarity,
    Concise,
    Formal,
    Casual,
    Explain,
    Other(String),
}

/// The mode that a tag names.
pub open spec fn mode_of_tag(tag: Seq<char>) -> Mode {
    if tag == "clarity"@ {
        Mode::Clarity
    } else if tag == "concise"@ {
        Mode::Concise
    } else if tag == "formal"@ {
        Mode::Formal
    } else if tag == "casual"@ {
        Mode::Casual
    } else if tag == "explain"@ {
        Mode::Explain
    } else {
        Mode::Other(arbitrary())
    }
}

/// Whether a tag names one of the known modes.
pub open spec fn is_known_tag(tag: Seq<char>) -> bool {
    !(mode_of_tag(tag) is Other)
}

/// The instruction that precedes the user's text, for each mode.
pub open spec fn template_of(m: Mode) -> Seq<char> {
    match m {
        Mode::Clarity => "Rewrite this text for maximum clarity. Keep the meaning identical.\n\nFirst, provide the rewritten text. Then write EXPLANATION: followed by what you changed and why the writer should care (teach them).\n\nText: "@,
        Mode::Concise => "Make this text more concise. Cut unnecessary words without losing meaning.\n\nFirst, provide the rewritten text. Then write EXPLANATION: followed by what you cut and why it was unnecessary (teach the writer to self-edit).\n\nText: "@,
        Mode::Formal => "Rewrite in a more formal, professional tone.\n\nFirst, provide the rewritten text. Then write EXPLANATION: followed by what tone shifts you made and when formal tone matters.\n\nText: "@,
        Mode::Casual => "Rewrite in a more casual, conversational tone.\n\nFirst, provide the rewritten text. Then write EXPLANATION: followed by what you changed to make it more natural.\n\nText: "@,
        Mode::Explain => "Analyze this text as a writing coach. Identify grammar issues, unclear phrasing, and style problems.\n\nFirst, provide the corrected text. Then write EXPLANATION: followed by, for each issue, WHAT is wrong and WHY it matters \u{2014} teach the writer, don't just flag.\n\nText: "@,
        Mode::Other(_) => generic_template(),
    }
}

/// The template for tags that name no known mode.
pub open spec fn generic_template() -> Seq<char> {
    "Improve this text for clarity and correctness.\n\nFirst, provide the improved text. Then write EXPLANATION: followed by a brief teaching note.\n\nText: "@
}

impl Mode {
    /// The mode that a tag names; an unknown tag becomes `Other` with the tag.
    pub fn from_tag(tag: &str) -> (r: Mode)
        ensures
            is_known_tag(tag@) ==> r == mode_of_tag(tag@),
            !is_known_tag(tag@) ==> (r matches Mode::Other(t) && t@ == tag@),
    {
        if same_text(tag, "clarity") {
            Mode::Clarity
        } else if same_text(tag, "concise") {
            Mode::Concise
        } else if same_text(tag, "formal") {
            Mode::Formal
        } else if same_text(tag, "casual") {
            Mode::Casual
        } else if same_text(tag, "explain") {
            Mode::Explain
        } else {
            Mode::Other(tag.to_owned())
        }
    }

    /// The instruction that precedes the user's text in this mode.
    pub fn template(&self) -> (r: &'static str)
        ensures
            r@ == template_of(*self),
    {
        match self {
            Mode::Clarity => "Rewrite this text for maximum clarity. Keep the meaning identical.\n\nFirst, provide the rewritten text. Then write EXPLANATION: followed by what you changed and why the writer should care (teach them).\n\nText: ",
            Mode::Concise => "Make this text more concise. Cut unnecessary words without losing meaning.\n\nFirst, provide the rewritten text. Then write EXPLANATION: followed by what you cut and why it was unnecessary (teach the writer to self-edit).\n\nText: ",
            Mode::Formal => "Rewrite in a more formal, professional tone.\n\nFirst, provide the rewritten text. Then write EXPLANATION: followed by what tone shifts you made and when formal tone matters.\n\nText: ",
            Mode::Casual => "Rewrite in a more casual, conversational tone.\n\nFirst, provide the rewritten text. Then write EXPLANATION: followed by what you changed to make it more natural.\n\nText: ",
            Mode::Explain => "Analyze this text as a writing coach. Identify grammar issues, unclear phrasing, and style problems.\n\nFirst, provide the corrected text. Then write EXPLANATION: followed by, for each issue, WHAT is wrong and WHY it matters \u{2014} teach the writer, don't just flag.\n\nText: ",
            Mode::Other(_) => "Improve this text for clarity and correctness.\n\nFirst, provide the improved text. Then write EXPLANATION: followed by a brief teaching note.\n\nText: ",
        }
    }
}

/// The instruction for rewriting `text` in the mode that `mode` names: the
/// mode's template followed by the text itself.
pub fn build_prompt(text: &str, mode: &str) -> (r: String)
    ensures
        r@ == template_of(mode_of_tag(mode@)) + text@,
        !is_known_tag(mode@) ==> r@ == generic_template() + text@,
{
    let m = Mode::from_tag(mode);
    let head = m.template().to_owned();
    head.concat(text)
}

/// Every template tells the model to mark its explanation with a delimiter
/// that the response parser splits on.
pub proof fn lemma_templates_name_a_delimiter(m: Mode)
    ensures
        exists|i: int| occurs_at(template_of(m), i, delimiters()[0]),
{
    reveal_strlit("EXPLANATION:");
    match m {
        Mode::Clarity => {
            reveal_strlit("Rewrite this text for maximum clarity. Keep the meaning identical.\n\nFirst, provide the rewritten text. Then write EXPLANATION: followed by what you changed and why the writer should care (teach them).\n\nText: ");
            assert(template_of(m).subrange(114, 126) =~= delimiters()[0]);
            assert(occurs_at(template_of(m), 114, delimiters()[0]));
        },
        Mode::Concise => {
            reveal_strlit("Make this text more concise. Cut unnecessary words without losing meaning.\n\nFirst, provide the rewritten text. Then write EXPLANATION: followed by what you cut and why it was unnecessary (teach the writer to self-edit).\n\nText: ");
            assert(template_of(m).subrange(122, 134) =~= delimiters()[0]);
            assert(occurs_at(template_of(m), 122, delimiters()[0]));
        },
        Mode::Formal => {
            reveal_strlit("Rewrite in a more formal, professional tone.\n\nFirst, provide the rewritten text. Then write EXPLANATION: followed by what tone shifts you made and when formal tone matters.\n\nText: ");
            assert(template_of(m).subrange(92, 104) =~= delimiters()[0]);
            assert(occurs_at(template_of(m), 92, delimiters()[0]));
        },
        Mode::Casual => {
            reveal_strlit("Rewrite in a more casual, conversational tone.\n\nFirst, provide the rewritten text. Then write EXPLANATION: followed by what you changed to make it more natural.\n\nText: ");
            assert(template_of(m).subrange(94, 106) =~= delimiters()[0]);
            assert(occurs_at(template_of(m), 94, delimiters()[0]));
        },
        Mode::Other(_) => {
            reveal_strlit("Improve this text for clarity and correctness.\n\nFirst, provide the improved text. Then write EXPLANATION: followed by a brief teaching note.\n\nText: ");
            assert(template_of(m).subrange(93, 105) =~= delimiters()[0]);
            assert(occurs_at(template_of(m), 93, delimiters()[0]));
        },
        Mode::Explain => {
            reveal_strlit("Analyze this text as a writing coach. Identify grammar issues, unclear phrasing, and style problems.\n\nFirst, provide the corrected text. Then write EXPLANATION: followed by, for each issue, WHAT is wrong and WHY it matters \u{2014} teach the writer, don't just flag.\n\nText: ");
            assert(template_of(m).subrange(148, 160) =~= delimiters()[0]);
            assert(occurs_at(template_of(m), 148, delimiters()[0]));
        },
    }
}

} // verus!
