use vstd::prelude::*;
use crate::commit_range::{CommitRange, PushType};
use crate::gitio;
use crate::object_id::ObjectId;
use crate::policy::{decide, keep_resolved, PolicyLookup, VisitedCommit};
use crate::remote::{remote_host, url_host};
use crate::result::{Check, HookError};

verus! {

/// The configuration key that holds the expected author email for pushes to
/// the given host.
pub fn policy_key(host: &str) -> (r: String)
    ensures
        r@ == "ghostwriter."@ + host@ + ".email"@,
{
    let mut s = String::from_str("ghostwriter.");
    s.append(host);
    s.append(".email");
    proof {
        assert(s@ =~= "ghostwriter."@ + host@ + ".email"@);
    }
    s
}

/// Resolves each walked commit id against the repository, in order: Some
/// with the id and the author's email where the repository can resolve the
/// commit, None where it cannot. The result is aligned with the walked ids,
/// one entry per id, so that what reaches the verdict is pinned to the walk.
fn resolve_commits(repo: &git2::Repository, ids: Vec<Vec<u8>>) -> (r: Vec<Option<VisitedCommit>>)
    requires
        forall|i: int| 0 <= i < ids@.len() ==> (#[trigger] ids@[i])@.len() == 20,
    ensures
        r@.len() == ids@.len(),
        forall|i: int|
            0 <= i < r@.len() ==> ((#[trigger] r@[i]) matches Some(c) ==> c.id@ == ids@[i]@
                && c.id.well_formed()),
{
    let mut r: Vec<Option<VisitedCommit>> = Vec::new();
    let mut idx: usize = 0;
    while idx < ids.len()
        invariant
            idx <= ids@.len(),
            r@.len() == idx,
            forall|i: int| 0 <= i < ids@.len() ==> (#[trigger] ids@[i])@.len() == 20,
            forall|i: int|
                0 <= i < r@.len() ==> ((#[trigger] r@[i]) matches Some(c) ==> c.id@ == ids@[i]@
                    && c.id.well_formed()),
        decreases ids@.len() - idx,
    {
        let id = &ids[idx];
        match gitio::find_commit_author_email(repo, id) {
            Some(author_email) => {
                let mut bytes: Vec<u8> = Vec::new();
                let mut j: usize = 0;
                while j < id.len()
                    invariant
                        j <= id@.len(),
                        bytes@ == id@.take(j as int),
                    decreases id@.len() - j,
                {
                    bytes.push(id[j]);
                    j += 1;
                    proof {
                        assert(bytes@ =~= id@.take(j as int));
                    }
                }
                proof {
                    assert(id@.take(id@.len() as int) =~= id@);
                }
                r.push(Some(VisitedCommit { id: ObjectId::from_raw_bytes(bytes), author_email }));
            },
            None => {
                // An unresolvable commit yields None and is skipped later,
                // not counted as a violation: the walk is deliberately
                // lenient.
                r.push(None);
            },
        }
        idx += 1;
    }
    r
}

/// Checks the pushed commits' authors against the policy configured for the
/// remote host. A delete passes outright, before any repository access. A
/// remote URL without a host is a hard error. With no policy key configured
/// for the host the check passes vacuously; otherwise every commit in the
/// derived revision span is visited and the non-matching ones make the
/// verdict Fail, in visitation order.
pub fn enforce_commit_author(repo_path: &str, remote_url: &str, commit_info: &CommitRange) -> (r:
    Result<Check, HookError>)
    requires
        commit_info.well_formed(),
    ensures
        commit_info.push_type_spec() is Delete ==> r == Ok::<Check, HookError>(Check::Pass),
        !(commit_info.push_type_spec() is Delete) && url_host(remote_url@) is None ==> r
            == Err::<Check, HookError>(HookError::NoRemoteHost),
        r == Err::<Check, HookError>(HookError::NoRemoteHost) ==> url_host(remote_url@) is None,
        !(r matches Err(HookError::ParseError)),
        r matches Ok(Check::Fail(l)) ==> l@.len() > 0 && forall|j: int|
            0 <= j < l@.len() ==> (#[trigger] l@[j]).well_formed(),
{
    let push_type = commit_info.push_type();
    if matches!(push_type, PushType::Delete) {
        return Ok(Check::Pass);
    }
    let host = match remote_host(remote_url) {
        Ok(h) => h,
        Err(e) => {
            return Err(e);
        },
    };
    let repo = match gitio::open_repository(repo_path) {
        Ok(repo) => repo,
        Err(e) => {
            return Err(HookError::Repository(gitio::git_error_message(&e)));
        },
    };
    let cfg = match gitio::repo_config(&repo) {
        Ok(cfg) => cfg,
        Err(e) => {
            return Err(HookError::Repository(gitio::git_error_message(&e)));
        },
    };
    let key = policy_key(host.as_str());
    let policy = match gitio::config_get_string(&cfg, key.as_str()) {
        Ok(value) => PolicyLookup::Found(value),
        Err(e) => {
            if gitio::error_is_not_found(&e) {
                PolicyLookup::Absent
            } else {
                PolicyLookup::Failed(gitio::git_error_message(&e))
            }
        },
    };
    let mut commits: Vec<VisitedCommit> = Vec::new();
    if matches!(&policy, PolicyLookup::Found(_)) {
        let mut walker = match gitio::repo_revwalk(&repo) {
            Ok(w) => w,
            Err(e) => {
                return Err(HookError::Repository(gitio::git_error_message(&e)));
            },
        };
        let seeded = match push_type {
            PushType::Create => {
                let endpoint = commit_info.local_sha1.to_hex();
                gitio::revwalk_push(&mut walker, endpoint.as_str())
            },
            PushType::Update => {
                let span = match commit_info.range() {
                    Some(span) => span,
                    None => unreached(),
                };
                gitio::revwalk_push_range(&mut walker, span.as_str())
            },
            PushType::Delete => unreached(),
        };
        if let Err(e) = seeded {
            return Err(HookError::Repository(gitio::git_error_message(&e)));
        }
        let ids = gitio::revwalk_collect(&mut walker);
        let entries = resolve_commits(&repo, ids);
        commits = keep_resolved(entries);
    }
    decide(&push_type, &policy, &commits)
}

} // verus!
