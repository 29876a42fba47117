use ghostwriter::check::{enforce_commit_author, policy_key};
use ghostwriter::commit_range::CommitRange;
use ghostwriter::remote::remote_host;
use ghostwriter::result::{Check, HookError};

const ZERO: &str = "0000000000000000000000000000000000000000";

fn scratch_dir(tag: &str) -> String {
    let nanos = std::time::SystemTime::now()
        .duration_since(std::time::UNIX_EPOCH)
        .unwrap()
        .as_nanos();
    format!("/tmp/gw_scratch_{}_{}", tag, nanos)
}

fn init_repo(path: &str, policy_host: Option<(&str, &str)>) -> git2::Repository {
    let repo = git2::Repository::init(path).unwrap();
    if let Some((host, email)) = policy_host {
        let mut cfg = repo.config().unwrap();
        cfg.set_str(&format!("ghostwriter.{}.email", host), email).unwrap();
    }
    repo
}

fn add_commit(
    repo: &git2::Repository,
    name: &str,
    email: &str,
    message: &str,
    parent: Option<git2::Oid>,
) -> git2::Oid {
    let sig = git2::Signature::now(name, email).unwrap();
    let tree_id = repo.treebuilder(None).unwrap().write().unwrap();
    let tree = repo.find_tree(tree_id).unwrap();
    match parent {
        Some(p) => {
            let parent_commit = repo.find_commit(p).unwrap();
            repo.commit(Some("HEAD"), &sig, &sig, message, &tree, &[&parent_commit]).unwrap()
        },
        None => repo.commit(Some("HEAD"), &sig, &sig, message, &tree, &[]).unwrap(),
    }
}

#[test]
fn matching_authors_pass_end_to_end() {
    let path = scratch_dir("pass");
    let repo = init_repo(&path, Some(("example.com", "good@example.com")));
    let c1 = add_commit(&repo, "Alice", "good@example.com", "first", None);
    let c2 = add_commit(&repo, "Alice", "good@example.com", "second", Some(c1));

    let line = format!("refs/heads/master {} origin {}", c2, c1);
    let range = CommitRange::from_line(line).unwrap();
    let verdict = enforce_commit_author(&path, "https://example.com/repo.git", &range).unwrap();
    assert!(matches!(verdict, Check::Pass));
}

#[test]
fn offending_commits_fail_end_to_end() {
    let path = scratch_dir("fail");
    let repo = init_repo(&path, Some(("example.com", "good@example.com")));
    let c1 = add_commit(&repo, "Alice", "good@example.com", "first", None);
    let c2 = add_commit(&repo, "Mallory", "bad@example.com", "second", Some(c1));

    let line = format!("refs/heads/master {} origin {}", c2, c1);
    let range = CommitRange::from_line(line).unwrap();
    let verdict = enforce_commit_author(&path, "https://example.com/repo.git", &range).unwrap();
    match verdict {
        Check::Fail(ids) => {
            assert_eq!(ids.len(), 1);
            assert_eq!(ids[0].to_hex(), c2.to_string());
        },
        Check::Pass => panic!("the push should have been rejected"),
    }
}

#[test]
fn create_walks_all_ancestors() {
    let path = scratch_dir("create");
    let repo = init_repo(&path, Some(("example.com", "good@example.com")));
    let c1 = add_commit(&repo, "Mallory", "bad@example.com", "first", None);
    let c2 = add_commit(&repo, "Alice", "good@example.com", "second", Some(c1));

    let line = format!("refs/heads/master {} origin {}", c2, ZERO);
    let range = CommitRange::from_line(line).unwrap();
    let verdict = enforce_commit_author(&path, "https://example.com/repo.git", &range).unwrap();
    match verdict {
        Check::Fail(ids) => {
            assert_eq!(ids.len(), 1);
            assert_eq!(ids[0].to_hex(), c1.to_string());
        },
        Check::Pass => panic!("the ancestor's author should have been flagged"),
    }
}

#[test]
fn update_excludes_the_remote_endpoint() {
    let path = scratch_dir("update");
    let repo = init_repo(&path, Some(("example.com", "good@example.com")));
    let c1 = add_commit(&repo, "Mallory", "bad@example.com", "first", None);
    let c2 = add_commit(&repo, "Alice", "good@example.com", "second", Some(c1));

    let line = format!("refs/heads/master {} origin {}", c2, c1);
    let range = CommitRange::from_line(line).unwrap();
    let verdict = enforce_commit_author(&path, "https://example.com/repo.git", &range).unwrap();
    assert!(matches!(verdict, Check::Pass));
}

#[test]
fn absent_policy_passes_end_to_end() {
    let path = scratch_dir("absent");
    let repo = init_repo(&path, None);
    let c1 = add_commit(&repo, "Mallory", "bad@example.com", "first", None);

    let line = format!("refs/heads/master {} origin {}", c1, ZERO);
    let range = CommitRange::from_line(line).unwrap();
    let verdict =
        enforce_commit_author(&path, "https://policy-free.example.net/repo.git", &range).unwrap();
    assert!(matches!(verdict, Check::Pass));
}

#[test]
fn delete_passes_without_touching_the_repository() {
    let line = format!("refs/heads/master {} origin cc4750c575cbfe9c29103c9b76f4a6202824098c", ZERO);
    let range = CommitRange::from_line(line).unwrap();
    let verdict =
        enforce_commit_author("target/no_such_repository", "not even a url", &range).unwrap();
    assert!(matches!(verdict, Check::Pass));
}

#[test]
fn url_without_host_is_a_hard_error() {
    let path = scratch_dir("nohost");
    let repo = init_repo(&path, None);
    let c1 = add_commit(&repo, "Alice", "good@example.com", "first", None);

    let line = format!("refs/heads/master {} origin {}", c1, ZERO);
    let range = CommitRange::from_line(line).unwrap();
    let verdict = enforce_commit_author(&path, "not-a-url-without-host", &range);
    assert!(matches!(verdict, Err(HookError::NoRemoteHost)));
}

#[test]
fn remote_host_reads_the_host_component() {
    match remote_host("https://github.com/user/repo.git") {
        Ok(h) => assert_eq!(h, "github.com".to_owned()),
        Err(_) => panic!("the URL has a host"),
    }
    assert!(matches!(
        remote_host("not-a-url-without-host"),
        Err(HookError::NoRemoteHost)
    ));
}

#[test]
fn policy_key_is_namespaced_by_host() {
    assert_eq!(
        policy_key("example.com"),
        "ghostwriter.example.com.email".to_owned()
    );
}

#[test]
fn missing_repository_is_a_repository_error() {
    let line = format!(
        "refs/heads/master cc4750c575cbfe9c29103c9b76f4a6202824098c origin {}",
        ZERO
    );
    let range = CommitRange::from_line(line).unwrap();
    let verdict = enforce_commit_author(
        "target/gw_missing_repository",
        "https://example.com/repo.git",
        &range,
    );
    assert!(matches!(verdict, Err(HookError::Repository(_))));
}
