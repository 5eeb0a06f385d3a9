use gl_mr_commentator::commentator::{
    build_comment_body, build_marker, reconcile_comment, string_starts_with, CommentAction, Note,
};

const FOOTER: &str = "\n---\n\nThis comment was made by the [GitLab Merge Request Commentator](https://github.com/MarkusH/gl-mr-commentator).";

fn note(id: u64, body: &str, author: u64) -> Note {
    Note { id, body: body.to_string(), author }
}

#[test]
fn default_marker_is_wrapped_mark() {
    let marker = build_marker(&"gl-mr-commentator".to_string());
    assert_eq!(marker, "<!-- gl-mr-commentator -->");
}

#[test]
fn body_starts_with_marker_line_and_ends_with_footer() {
    let marker = build_marker(&"gl-mr-commentator".to_string());
    let body = build_comment_body(&marker, &"Build passed".to_string());
    assert!(body.starts_with("<!-- gl-mr-commentator -->\nBuild passed"));
    assert!(body.ends_with(FOOTER));
    assert_eq!(
        body,
        format!("<!-- gl-mr-commentator -->\nBuild passed{}", FOOTER)
    );
}

#[test]
fn empty_content_body_is_marker_newline_footer() {
    let marker = "<!-- m -->".to_string();
    let body = build_comment_body(&marker, &String::new());
    assert_eq!(body, format!("<!-- m -->\n{}", FOOTER));
}

#[test]
fn prefix_check_exact_and_empty() {
    let text = "abc".to_string();
    assert!(string_starts_with(&text, &String::new()));
    assert!(string_starts_with(&text, &"abc".to_string()));
    assert!(string_starts_with(&text, &"ab".to_string()));
    assert!(!string_starts_with(&text, &"abcd".to_string()));
    assert!(!string_starts_with(&text, &"bc".to_string()));
}

#[test]
fn no_notes_creates() {
    let notes: Vec<Note> = Vec::new();
    let action = reconcile_comment(&notes, 7, &"<!-- m -->".to_string());
    assert_eq!(action, CommentAction::Create);
}

#[test]
fn first_of_two_marked_notes_is_selected() {
    let marker = "<!-- m -->".to_string();
    let notes = vec![
        note(1, "unrelated", 7),
        note(2, "<!-- m -->\nfirst", 7),
        note(3, "<!-- m -->\nsecond", 7),
    ];
    let action = reconcile_comment(&notes, 7, &marker);
    assert_eq!(action, CommentAction::Update { note_id: 2 });
}

#[test]
fn other_author_with_marker_is_skipped() {
    let marker = "<!-- m -->".to_string();
    let notes = vec![note(1, "<!-- m -->\nby someone else", 8)];
    let action = reconcile_comment(&notes, 7, &marker);
    assert_eq!(action, CommentAction::Create);
}

#[test]
fn same_author_without_marker_is_skipped() {
    let marker = "<!-- m -->".to_string();
    let notes = vec![note(1, "just a note", 7)];
    let action = reconcile_comment(&notes, 7, &marker);
    assert_eq!(action, CommentAction::Create);
}

#[test]
fn marker_in_middle_of_body_does_not_count() {
    let marker = "<!-- m -->".to_string();
    let notes = vec![note(1, "prefix <!-- m --> suffix", 7)];
    let action = reconcile_comment(&notes, 7, &marker);
    assert_eq!(action, CommentAction::Create);
}

#[test]
fn two_runs_converge_on_one_note() {
    let marker = build_marker(&"gl-mr-commentator".to_string());
    let body = build_comment_body(&marker, &"Build passed".to_string());
    let user = 7;

    let mut notes = vec![note(1, "a human comment", 9)];

    // First run: no marked note, so the reconciler creates one.
    let first = reconcile_comment(&notes, user, &marker);
    assert_eq!(first, CommentAction::Create);
    notes.push(Note { id: 42, body: body.clone(), author: user });
    assert_eq!(notes.len(), 2);

    // Second run with the same mark and content: the reconciler updates the
    // note the first run created, in place, instead of adding another.
    let second = reconcile_comment(&notes, user, &marker);
    assert_eq!(second, CommentAction::Update { note_id: 42 });
    notes[1].body = body.clone();
    assert_eq!(notes.len(), 2);
    assert_eq!(notes[1].id, 42);
}
