use ghostpen::launch::launch_command;
use ghostpen::{check_findings, normalize_suggestions, original_span, sentence_count, word_count, Edit, Finding};

#[test]
fn no_findings_no_issues() {
    let r = check_findings("This is fine.", &vec![]);
    assert_eq!(r.issues.len(), 0);
    assert_eq!(r.stats.issue_count, 0);
    assert_eq!(r.stats.word_count, 3);
    assert_eq!(r.stats.sentence_count, 1);
}

#[test]
fn span_past_end_is_empty() {
    assert_eq!(original_span("abc", 1, 4), "");
    assert_eq!(original_span("abc", 10, 20), "");
    assert_eq!(original_span("abc", 1, 3), "bc");
    assert_eq!(original_span("abc", 2, 1), "");
}

#[test]
fn span_inside_a_character_is_empty() {
    // 'é' takes two bytes.
    assert_eq!(original_span("é!", 0, 1), "");
    assert_eq!(original_span("é!", 0, 2), "é");
    assert_eq!(original_span("é!", 2, 3), "!");
}

#[test]
fn suggestions_one_per_edit_in_order() {
    let edits = vec![
        Edit::ReplaceWith("their".to_string()),
        Edit::InsertAfter(",".to_string()),
        Edit::Remove,
    ];
    let r = normalize_suggestions("there", &edits);
    assert_eq!(r, vec!["their".to_string(), "there,".to_string(), String::new()]);
    assert!(normalize_suggestions("x", &vec![]).is_empty());
}

#[test]
fn sentence_count_is_at_least_one() {
    assert_eq!(sentence_count("hello world"), 1);
    assert_eq!(sentence_count(""), 1);
    assert_eq!(sentence_count("One. Two! Three?"), 3);
    assert_eq!(sentence_count("Wait..."), 3);
}

#[test]
fn words_are_whitespace_separated() {
    assert_eq!(word_count(""), 0);
    assert_eq!(word_count("   "), 0);
    assert_eq!(word_count("hello world"), 2);
    assert_eq!(word_count("  a\tb\n\nc  "), 3);
    assert_eq!(word_count("x\u{3000}y"), 2);
}

#[test]
fn findings_become_issues() {
    let text = "I has a apple";
    let findings = vec![
        Finding {
            start: 2,
            end: 5,
            message: "Use have".to_string(),
            edits: vec![Edit::ReplaceWith("have".to_string())],
            kind: "Agreement".to_string(),
        },
        Finding {
            start: 6,
            end: 7,
            message: "Use an".to_string(),
            edits: vec![Edit::InsertAfter("n".to_string()), Edit::Remove],
            kind: "Miscellaneous".to_string(),
        },
        Finding {
            start: 9,
            end: 40,
            message: "Out of range".to_string(),
            edits: vec![Edit::InsertAfter("!".to_string())],
            kind: "Style".to_string(),
        },
    ];
    let r = check_findings(text, &findings);
    assert_eq!(r.stats.issue_count, 3);
    assert_eq!(r.stats.word_count, 4);
    assert_eq!(r.issues[0].suggestions, vec!["have".to_string()]);
    assert_eq!(r.issues[0].severity, "Agreement");
    assert_eq!(r.issues[1].start, 6);
    assert_eq!(r.issues[1].suggestions, vec!["an".to_string(), String::new()]);
    assert_eq!(r.issues[2].suggestions, vec!["!".to_string()]);
    assert_eq!(r.issues[2].message, "Out of range");
}

#[test]
fn launch_command_depends_on_program() {
    let c = launch_command("/home/u/.lmstudio/bin/lms.exe");
    assert_eq!(c.args, vec!["server".to_string(), "start".to_string()]);
    assert_eq!(c.message, "LM Studio server starting via /home/u/.lmstudio/bin/lms.exe");
    let g = launch_command("C:/Programs/LM Studio/LM Studio.exe");
    assert!(g.args.is_empty());
    assert_eq!(g.message, "LM Studio launching from C:/Programs/LM Studio/LM Studio.exe");
}
