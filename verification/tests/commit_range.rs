use ghostwriter::commit_range::{CommitRange, PushType};
use ghostwriter::result::HookError;

#[test]
fn create_type() {
    let line = "master cc4750c575cbfe9c29103c9b76f4a6202824098c origin 0000000000000000000000000000000000000000".to_owned();
    let commit_range = CommitRange::from_line(line);
    assert!(commit_range.is_ok());

    let commit_range = commit_range.unwrap();
    assert_eq!(commit_range.push_type(), PushType::Create);
    assert!(commit_range.range().is_some());

    let range = commit_range.range().unwrap();
    assert_eq!(range, "cc4750c575cbfe9c29103c9b76f4a6202824098c".to_owned());
}

#[test]
fn delete_type() {
    let line = "master 0000000000000000000000000000000000000000 origin cc4750c575cbfe9c29103c9b76f4a6202824098c".to_owned();
    let commit_range = CommitRange::from_line(line);
    assert!(commit_range.is_ok());

    let commit_range = commit_range.unwrap();
    assert_eq!(commit_range.push_type(), PushType::Delete);
    assert!(commit_range.range().is_none());
}

#[test]
fn update_type() {
    let line = "master da36a2a28d015ec274ba035635024348ced15f71 origin cc4750c575cbfe9c29103c9b76f4a6202824098c".to_owned();
    let commit_range = CommitRange::from_line(line);
    assert!(commit_range.is_ok());

    let commit_range = commit_range.unwrap();
    assert_eq!(commit_range.push_type(), PushType::Update);
    assert!(commit_range.range().is_some());

    let range = commit_range.range().unwrap();
    assert_eq!(range, "cc4750c575cbfe9c29103c9b76f4a6202824098c..da36a2a28d015ec274ba035635024348ced15f71".to_owned());
}

#[test]
fn not_enough_parameters() {
    let line = "too short".to_owned();
    let commit_range = CommitRange::from_line(line);
    assert!(commit_range.is_err());
}

#[test]
fn non_oid_parameters() {
    let line = "master notoid origin notoid".to_owned();
    let commit_range = CommitRange::from_line(line);
    assert!(commit_range.is_err());
}

#[test]
fn full_ref_create_line() {
    let line = "refs/heads/master cc4750c575cbfe9c29103c9b76f4a6202824098c origin 0000000000000000000000000000000000000000".to_owned();
    let commit_range = CommitRange::from_line(line).unwrap();
    assert_eq!(commit_range.push_type(), PushType::Create);
    assert_eq!(
        commit_range.range().unwrap(),
        "cc4750c575cbfe9c29103c9b76f4a6202824098c".to_owned()
    );
}

#[test]
fn full_ref_delete_line() {
    let line = "refs/heads/master 0000000000000000000000000000000000000000 origin cc4750c575cbfe9c29103c9b76f4a6202824098c".to_owned();
    let commit_range = CommitRange::from_line(line).unwrap();
    assert_eq!(commit_range.push_type(), PushType::Delete);
    assert!(commit_range.range().is_none());
}

#[test]
fn full_ref_update_line() {
    let line = "refs/heads/master da36a2a28d015ec274ba035635024348ced15f71 origin cc4750c575cbfe9c29103c9b76f4a6202824098c".to_owned();
    let commit_range = CommitRange::from_line(line).unwrap();
    assert_eq!(commit_range.push_type(), PushType::Update);
    assert_eq!(
        commit_range.range().unwrap(),
        "cc4750c575cbfe9c29103c9b76f4a6202824098c..da36a2a28d015ec274ba035635024348ced15f71"
            .to_owned()
    );
}

#[test]
fn two_token_line_is_parse_error() {
    let line = "too short".to_owned();
    match CommitRange::from_line(line) {
        Err(HookError::ParseError) => {},
        other => panic!("expected a parse error, got {:?}", other),
    }
}

#[test]
fn extra_tokens_are_ignored() {
    let line = "master cc4750c575cbfe9c29103c9b76f4a6202824098c origin 0000000000000000000000000000000000000000 trailing".to_owned();
    let commit_range = CommitRange::from_line(line).unwrap();
    assert_eq!(commit_range.push_type(), PushType::Create);
}

#[test]
fn uppercase_hash_spells_lowercase_range() {
    let line = "master ABCDEF0123456789ABCDEF0123456789ABCDEF01 origin 0000000000000000000000000000000000000000".to_owned();
    let commit_range = CommitRange::from_line(line).unwrap();
    assert_eq!(
        commit_range.range().unwrap(),
        "abcdef0123456789abcdef0123456789abcdef01".to_owned()
    );
}

#[test]
fn wrong_length_hash_is_parse_error() {
    let short = "master cc4750c575cbfe9c29103c9b76f4a620282409 origin 0000000000000000000000000000000000000000".to_owned();
    assert!(matches!(CommitRange::from_line(short), Err(HookError::ParseError)));
    let long = "master cc4750c575cbfe9c29103c9b76f4a6202824098c0 origin 0000000000000000000000000000000000000000".to_owned();
    assert!(matches!(CommitRange::from_line(long), Err(HookError::ParseError)));
}

#[test]
fn tabs_and_repeated_whitespace_separate_fields() {
    let line = "master\t cc4750c575cbfe9c29103c9b76f4a6202824098c  origin\t0000000000000000000000000000000000000000\n".to_owned();
    let commit_range = CommitRange::from_line(line).unwrap();
    assert_eq!(commit_range.push_type(), PushType::Create);
}

#[test]
fn both_hashes_zero_is_delete() {
    let line = "master 0000000000000000000000000000000000000000 origin 0000000000000000000000000000000000000000".to_owned();
    let commit_range = CommitRange::from_line(line).unwrap();
    assert_eq!(commit_range.push_type(), PushType::Delete);
}

#[test]
fn empty_line_is_parse_error() {
    assert!(matches!(
        CommitRange::from_line(String::new()),
        Err(HookError::ParseError)
    ));
}
