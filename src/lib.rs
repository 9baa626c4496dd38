//! Writing assistance: normalizing grammar findings into replacement-ready
//! issues, and rewriting text through a local language-model server.
use vstd::prelude::*;

pub mod text;
pub mod response;
pub mod prompt;
pub mod llm;
pub mod grammar;
pub mod launch;

pub use grammar::{
    check_findings, normalize_suggestions, original_span, sentence_count, word_count, CheckResult,
    Edit, Finding, GrammarIssue, TextStats,
};
pub use llm::{
    detect_step, finish_rewrite, plan_rewrite, status_for, ChatPlan, DetectStep, FeedbackRequest,
    LlmStatus, Provider, RewriteRequest, RewriteResult,
};
pub use prompt::{build_prompt, Mode};
pub use response::parse_response;

verus! {

} // verus!
