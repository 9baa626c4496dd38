use ghostpen::llm::{ChatPlan, DetectStep, Provider};
use ghostpen::{build_prompt, detect_step, finish_rewrite, parse_response, plan_rewrite, status_for, Mode};

fn pair(a: &str, b: &str) -> (String, String) {
    (a.to_string(), b.to_string())
}

#[test]
fn parse_splits_on_explanation_marker() {
    assert_eq!(
        parse_response("Rewritten sentence.\nEXPLANATION: because clarity"),
        pair("Rewritten sentence.", "because clarity")
    );
}

#[test]
fn parse_without_marker_keeps_whole_text() {
    assert_eq!(
        parse_response("Just some text with no marker"),
        pair("Just some text with no marker", "")
    );
}

#[test]
fn parse_earliest_delimiter_in_text_wins() {
    // "---" comes first in the text although it is later in the delimiter list.
    assert_eq!(
        parse_response("Text A --- middle EXPLANATION: end"),
        pair("Text A", "middle EXPLANATION: end")
    );
}

#[test]
fn parse_strips_rewrite_labels() {
    assert_eq!(
        parse_response("REWRITE: Better text.\n**Why:** shorter"),
        pair("Better text.", "shorter")
    );
    assert_eq!(
        parse_response("**Rewrite:** Better text.\n**Explanation:** shorter"),
        pair("Better text.", "shorter")
    );
    assert_eq!(parse_response("REWRITE:  Only text  "), pair("Only text", ""));
}

#[test]
fn parse_changes_delimiter_and_empty_input() {
    assert_eq!(
        parse_response("New text\n\n**Changes:** made it tighter"),
        pair("New text", ":** made it tighter")
    );
    assert_eq!(parse_response(""), pair("", ""));
    assert_eq!(parse_response("EXPLANATION:"), pair("", ""));
}

#[test]
fn build_prompt_unknown_mode_uses_generic_template() {
    let p = build_prompt("my draft", "unknown_mode");
    assert_eq!(
        p,
        "Improve this text for clarity and correctness.\n\nFirst, provide the improved text. Then write EXPLANATION: followed by a brief teaching note.\n\nText: my draft"
    );
    assert!(p.contains("my draft"));
}

#[test]
fn build_prompt_known_modes() {
    let c = build_prompt("abc", "clarity");
    assert!(c.starts_with("Rewrite this text for maximum clarity."));
    assert!(c.ends_with("\n\nText: abc"));
    assert!(c.contains("EXPLANATION:"));
    assert!(build_prompt("abc", "concise").starts_with("Make this text more concise."));
    assert!(build_prompt("abc", "formal").starts_with("Rewrite in a more formal"));
    assert!(build_prompt("abc", "casual").starts_with("Rewrite in a more casual"));
    let e = build_prompt("abc", "explain");
    assert!(e.starts_with("Analyze this text as a writing coach."));
    assert!(e.contains("First, provide the corrected text. Then write EXPLANATION:"));
    assert!(e.ends_with("\n\nText: abc"));
    assert_ne!(build_prompt("abc", "Clarity"), c);
}

#[test]
fn mode_from_tag_keeps_unknown_tag() {
    assert!(matches!(Mode::from_tag("formal"), Mode::Formal));
    match Mode::from_tag("poetic") {
        Mode::Other(t) => assert_eq!(t, "poetic"),
        _ => panic!("unknown tag must give Other"),
    }
}

#[test]
fn detection_prefers_first_server() {
    assert_eq!(detect_step(&vec![]), DetectStep::Probe(Provider::LmStudio));
    assert_eq!(detect_step(&vec![true]), DetectStep::Found(Provider::LmStudio));
    assert_eq!(detect_step(&vec![true, true]), DetectStep::Found(Provider::LmStudio));
    for _ in 0..3 {
        assert_eq!(detect_step(&vec![true, true]), DetectStep::Found(Provider::LmStudio));
    }
}

#[test]
fn detection_falls_back_then_gives_up() {
    assert_eq!(detect_step(&vec![false]), DetectStep::Probe(Provider::Ollama));
    assert_eq!(detect_step(&vec![false, true]), DetectStep::Found(Provider::Ollama));
    assert_eq!(detect_step(&vec![false, false]), DetectStep::Unavailable);
}

#[test]
fn provider_addresses() {
    assert_eq!(Provider::LmStudio.probe_url(), "http://127.0.0.1:1234/v1/models");
    assert_eq!(Provider::Ollama.probe_url(), "http://127.0.0.1:11434");
    assert_eq!(Provider::Ollama.chat_url(), "http://127.0.0.1:11434/v1/chat/completions");
    assert_eq!(Provider::Ollama.model(), "qwen2.5:3b");
    assert_eq!(Provider::LmStudio.model(), "default");
}

#[test]
fn rewrite_with_mocked_completion() {
    let plan: ChatPlan = match plan_rewrite(Some(Provider::Ollama), "some text", "clarity") {
        Ok(p) => p,
        Err(e) => panic!("{}", e),
    };
    assert_eq!(plan.url, "http://127.0.0.1:11434/v1/chat/completions");
    assert_eq!(plan.model, "qwen2.5:3b");
    assert_eq!(plan.user, build_prompt("some text", "clarity"));
    let choices = vec!["Fixed text.\n\n**Explanation:** clearer wording".to_string()];
    let r = finish_rewrite(&choices);
    assert_eq!(r.rewritten, "Fixed text.");
    assert_eq!(r.explanation, "clearer wording");
}

#[test]
fn rewrite_with_no_choices_is_empty() {
    let r = finish_rewrite(&vec![]);
    assert_eq!(r.rewritten, "");
    assert_eq!(r.explanation, "");
    let r = finish_rewrite(&vec!["  padded  ".to_string(), "ignored".to_string()]);
    assert_eq!(r.rewritten, "padded");
}

#[test]
fn no_provider_fails_rewrite_and_reports_unavailable() {
    match plan_rewrite(None, "some text", "clarity") {
        Err(e) => assert_eq!(e, "No LLM server found. Install Ollama or LM Studio."),
        Ok(_) => panic!("rewrite must fail without a server"),
    }
    let s = status_for(None);
    assert!(!s.available);
    assert_eq!(s.provider, "none");
    assert_eq!(s.model, "");
}

#[test]
fn status_names_found_server() {
    let s = status_for(Some(Provider::LmStudio));
    assert!(s.available);
    assert_eq!(s.provider, "LM Studio");
    assert_eq!(s.model, "default");
    let s = status_for(Some(Provider::Ollama));
    assert_eq!(s.provider, "Ollama");
    assert_eq!(s.model, "qwen2.5:3b");
}
