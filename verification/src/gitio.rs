use vstd::prelude::*;

verus! {

#[verifier::external_type_specification]
#[verifier::external_body]
pub struct ExGitRepository(git2::Repository);

#[verifier::external_type_specification]
#[verifier::external_body]
pub struct ExGitConfig(git2::Config);

#[verifier::external_type_specification]
#[verifier::external_body]
pub struct ExGitOid(git2::Oid);

#[verifier::external_type_specification]
#[verifier::external_body]
pub struct ExGitRevwalk<'repo>(git2::Revwalk<'repo>);

#[verifier::external_type_specification]
#[verifier::external_body]
pub struct ExGitError(git2::Error);

/// Relies on git2::Repository::open: opens the repository at the given
/// filesystem path; what comes back depends on what is on disk.
#[verifier::external_body]
pub(crate) fn open_repository(path: &str) -> Result<git2::Repository, git2::Error> {
    git2::Repository::open(path)
}

/// Relies on git2::Repository::config: the configuration of the repository.
#[verifier::external_body]
pub(crate) fn repo_config(repo: &git2::Repository) -> Result<git2::Config, git2::Error> {
    repo.config()
}

/// Relies on git2::Config::get_string: the value stored under the key; a
/// missing key comes back as an error whose class is "not found".
#[verifier::external_body]
pub(crate) fn config_get_string(cfg: &git2::Config, key: &str) -> Result<String, git2::Error> {
    cfg.get_string(key)
}

/// Relies on git2::Error::code: whether the error's class is "not found",
/// which tells a missing configuration key apart from other lookup failures.
#[verifier::external_body]
pub(crate) fn error_is_not_found(e: &git2::Error) -> bool {
    matches!(e.code(), git2::ErrorCode::NotFound)
}

/// Relies on git2::Error::message: the error's text.
#[verifier::external_body]
pub(crate) fn git_error_message(e: &git2::Error) -> String {
    e.message().to_owned()
}

/// Relies on git2::Repository::revwalk: a fresh revision walker over the
/// repository's commit graph.
#[verifier::external_body]
pub(crate) fn repo_revwalk<'repo>(repo: &'repo git2::Repository) -> Result<
    git2::Revwalk<'repo>,
    git2::Error,
> {
    repo.revwalk()
}

/// Relies on git2::Revwalk::push: seeds the walk with the commit named by the
/// hex string and all its ancestors; git2::Oid::from_str converts the
/// argument.
#[verifier::external_body]
pub(crate) fn revwalk_push(w: &mut git2::Revwalk<'_>, hex: &str) -> Result<(), git2::Error> {
    let oid = git2::Oid::from_str(hex)?;
    w.push(oid)
}

/// Relies on git2::Revwalk::push_range: seeds the walk with the exclusive
/// range "older..newer", every commit reachable from the newer endpoint but
/// not from the older one.
#[verifier::external_body]
pub(crate) fn revwalk_push_range(w: &mut git2::Revwalk<'_>, range: &str) -> Result<
    (),
    git2::Error,
> {
    w.push_range(range)
}

/// Relies on git2::Revwalk's iterator: the ids of the walked commits in the
/// walker's native traversal order, each as its raw twenty bytes. Entries the
/// walk fails to yield are skipped, mirroring the lenient treatment of
/// unresolvable commits. What comes back depends on the repository on disk.
#[verifier::external_body]
pub(crate) fn revwalk_collect(w: &mut git2::Revwalk<'_>) -> (r: Vec<Vec<u8>>)
    ensures
        forall|i: int| 0 <= i < r@.len() ==> (#[trigger] r@[i])@.len() == 20,
{
    w.filter_map(|step| step.ok()).map(|oid| oid.as_bytes().to_vec()).collect()
}

/// Relies on git2::Repository::find_commit and git2::Signature::email:
/// resolves a commit by its raw id and reads its author's email. The outer
/// None means the commit could not be resolved; the inner None means the
/// author entry holds no readable email. git2::Oid::from_bytes converts the
/// argument.
#[verifier::external_body]
pub(crate) fn find_commit_author_email(repo: &git2::Repository, id: &Vec<u8>) -> Option<
    Option<String>,
> {
    let oid = match git2::Oid::from_bytes(id.as_slice()) {
        Ok(o) => o,
        Err(_) => {
            return None;
        },
    };
    match repo.find_commit(oid) {
        Ok(c) => Some(c.author().email().ok().map(|s| s.to_owned())),
        Err(_) => None,
    }
}

} // verus!
