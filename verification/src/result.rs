use vstd::prelude::*;
use crate::object_id::ObjectId;

verus! {

/// Why a hook invocation failed: a malformed push-update line, a remote URL
/// without a host component, a repository failure (open, configuration,
/// walker), or a configuration lookup that failed for some reason other than
/// the key being absent.
#[derive(Debug)]
pub enum HookError {
    ParseError,
    NoRemoteHost,
    Repository(String),
    ConfigLookup(String),
}

/// The verdict of the author check: Pass, or Fail carrying the offending
/// commit ids in the order the walk visited them.
#[derive(Debug)]
pub enum Check {
    Pass,
    Fail(Vec<ObjectId>),
}

impl HookError {
    /// A short description of the error, for the caller to print.
    pub fn message(&self) -> (r: String)
        ensures
            self is ParseError ==> r@ == "unable to parse the push update line"@,
            self is NoRemoteHost ==> r@ == "no remote host"@,
            self matches HookError::Repository(m) ==> r@ == "repository error: "@ + m@,
            self matches HookError::ConfigLookup(m) ==> r@ == "configuration lookup error: "@ + m@,
    {
        match self {
            HookError::ParseError => String::from_str("unable to parse the push update line"),
            HookError::NoRemoteHost => String::from_str("no remote host"),
            HookError::Repository(m) => {
                let mut s = String::from_str("repository error: ");
                s.append(m.as_str());
                s
            },
            HookError::ConfigLookup(m) => {
                let mut s = String::from_str("configuration lookup error: ");
                s.append(m.as_str());
                s
            },
        }
    }
}

} // verus!
