use conventional_commit::{make_commit_message, CommitRequest, CommitType};

const ALL_TYPES: [CommitType; 9] = [
    CommitType::Feature,
    CommitType::Fix,
    CommitType::Style,
    CommitType::Refactor,
    CommitType::Improvement,
    CommitType::Docs,
    CommitType::Internal,
    CommitType::Bump,
    CommitType::Revert,
];

#[test]
fn key_of_every_type() {
    assert_eq!(CommitType::Feature.key(), "feature");
    assert_eq!(CommitType::Fix.key(), "fix");
    assert_eq!(CommitType::Style.key(), "style");
    assert_eq!(CommitType::Refactor.key(), "refactor");
    assert_eq!(CommitType::Improvement.key(), "improvement");
    assert_eq!(CommitType::Docs.key(), "docs");
    assert_eq!(CommitType::Internal.key(), "internal");
    assert_eq!(CommitType::Bump.key(), "bump");
    assert_eq!(CommitType::Revert.key(), "revert");
}

#[test]
fn keys_are_pairwise_distinct() {
    for i in 0..ALL_TYPES.len() {
        for j in 0..ALL_TYPES.len() {
            if i != j {
                assert_ne!(ALL_TYPES[i].key(), ALL_TYPES[j].key());
            }
        }
    }
}

#[test]
fn compose_plain() {
    let m = make_commit_message(CommitType::Feature, String::from("add widget"), None, false);
    assert_eq!(m, "feature: add widget");
}

#[test]
fn compose_urgent() {
    let m = make_commit_message(CommitType::Feature, String::from("add widget"), None, true);
    assert_eq!(m, "feature!: add widget");
}

#[test]
fn compose_with_body() {
    let m = make_commit_message(
        CommitType::Fix,
        String::from("null check"),
        Some(String::from("Closes #12")),
        false,
    );
    assert_eq!(m, "fix: null check\n\nCloses #12");
}

#[test]
fn compose_urgent_with_body() {
    let m = make_commit_message(
        CommitType::Refactor,
        String::from("split parser"),
        Some(String::from("No behaviour change.")),
        true,
    );
    assert_eq!(m, "refactor!: split parser\n\nNo behaviour change.");
}

#[test]
fn compose_twice_is_identical() {
    let req = CommitRequest {
        commit_type: CommitType::Docs,
        urgent: true,
        message: String::from("document the parser"),
        body: Some(String::from("Covers every flag.")),
    };
    let first = req.compose();
    let second = req.compose();
    assert_eq!(first, second);
    assert_eq!(first, "docs!: document the parser\n\nCovers every flag.");
}

#[test]
fn request_compose_matches_free_function() {
    let req = CommitRequest {
        commit_type: CommitType::Bump,
        urgent: false,
        message: String::from("v2"),
        body: None,
    };
    let direct = make_commit_message(CommitType::Bump, String::from("v2"), None, false);
    assert_eq!(req.compose(), direct);
}

#[test]
fn empty_body_keeps_two_paragraph_form() {
    let with_empty = make_commit_message(
        CommitType::Feature,
        String::from("add widget"),
        Some(String::new()),
        false,
    );
    let without = make_commit_message(CommitType::Feature, String::from("add widget"), None, false);
    assert_eq!(with_empty, "feature: add widget\n\n");
    assert_ne!(with_empty, without);
}

#[test]
fn subject_and_body_pass_through_verbatim() {
    let m = make_commit_message(
        CommitType::Internal,
        String::from("añadir soporte  "),
        Some(String::from("line one\nline two")),
        false,
    );
    assert_eq!(m, "internal: añadir soporte  \n\nline one\nline two");
}

#[test]
fn from_key_is_case_insensitive() {
    assert_eq!(CommitType::from_key("FEATURE"), Some(CommitType::Feature));
    assert_eq!(CommitType::from_key("feature"), Some(CommitType::Feature));
    assert_eq!(CommitType::from_key("Feature"), Some(CommitType::Feature));
    assert_eq!(CommitType::from_key("FeAtUrE"), Some(CommitType::Feature));
    assert_eq!(CommitType::from_key("FIX"), Some(CommitType::Fix));
    assert_eq!(CommitType::from_key("Revert"), Some(CommitType::Revert));
}

#[test]
fn from_key_accepts_every_canonical_key() {
    for t in ALL_TYPES {
        assert_eq!(CommitType::from_key(t.key()), Some(t));
    }
}

#[test]
fn from_key_rejects_unknown_spellings() {
    assert_eq!(CommitType::from_key("unknown"), None);
    assert_eq!(CommitType::from_key(""), None);
    assert_eq!(CommitType::from_key("feature "), None);
    assert_eq!(CommitType::from_key(" feature"), None);
    assert_eq!(CommitType::from_key("feat"), None);
    assert_eq!(CommitType::from_key("features"), None);
    assert_eq!(CommitType::from_key("fëature"), None);
}
