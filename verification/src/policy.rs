use vstd::prelude::*;
use crate::commit_range::PushType;
use crate::object_id::ObjectId;
use crate::result::{Check, HookError};

verus! {

/// One commit the walk visited and resolved: its id and its recorded author
/// email, when the author entry carries a readable one.
pub struct VisitedCommit {
    pub id: ObjectId,
    pub author_email: Option<String>,
}

/// The outcome of looking the policy key up in the repository configuration:
/// a configured value, no entry under the key, or a failure of the lookup
/// mechanism itself.
pub enum PolicyLookup {
    Found(String),
    Absent,
    Failed(String),
}

/// A commit's author matches the policy when its recorded email equals the
/// configured one. A commit without a readable author email does not match.
pub open spec fn author_matches(c: VisitedCommit, policy: Seq<char>) -> bool {
    c.author_email matches Some(e) && e@ == policy
}

/// The ids (as byte sequences) of the visited commits whose author does not
/// match the policy, in visitation order.
pub open spec fn offending_ids(cs: Seq<VisitedCommit>, policy: Seq<char>) -> Seq<Seq<u8>>
    decreases cs.len(),
{
    if cs.len() == 0 {
        Seq::empty()
    } else {
        offending_ids(cs.drop_last(), policy) + (if author_matches(cs.last(), policy) {
            Seq::<Seq<u8>>::empty()
        } else {
            seq![cs.last().id@]
        })
    }
}

/// The commits the walk resolved, in visitation order: the lenient skip
/// drops every entry the repository could not resolve.
pub open spec fn resolved_of(entries: Seq<Option<VisitedCommit>>) -> Seq<VisitedCommit>
    decreases entries.len(),
{
    if entries.len() == 0 {
        Seq::empty()
    } else {
        resolved_of(entries.drop_last()) + (match entries.last() {
            Some(c) => seq![c],
            None => Seq::<VisitedCommit>::empty(),
        })
    }
}

/// Keeps the resolved entries, in order, and drops the unresolvable ones:
/// the walk's explicit leniency. An unresolvable entry never reaches the
/// verdict, neither as a violation nor as an error.
pub fn keep_resolved(entries: Vec<Option<VisitedCommit>>) -> (r: Vec<VisitedCommit>)
    ensures
        r@ == resolved_of(entries@),
        (forall|i: int|
            0 <= i < entries@.len() ==> ((#[trigger] entries@[i]) matches Some(c)
                ==> c.id.well_formed())) ==> (forall|j: int|
            0 <= j < r@.len() ==> (#[trigger] r@[j]).id.well_formed()),
{
    let ghost orig = entries@;
    let mut rest = entries;
    let mut r: Vec<VisitedCommit> = Vec::new();
    proof {
        assert(orig.skip(0) =~= orig);
        assert(orig.take(0) =~= Seq::<Option<VisitedCommit>>::empty());
    }
    while rest.len() > 0
        invariant
            rest@.len() <= orig.len(),
            rest@ == orig.skip(orig.len() as int - rest@.len() as int),
            r@ == resolved_of(orig.take(orig.len() as int - rest@.len() as int)),
            (forall|i: int|
                0 <= i < orig.len() ==> ((#[trigger] orig[i]) matches Some(c)
                    ==> c.id.well_formed())) ==> (forall|j: int|
                0 <= j < r@.len() ==> (#[trigger] r@[j]).id.well_formed()),
        decreases rest@.len(),
    {
        let ghost consumed = orig.len() as int - rest@.len() as int;
        let e = rest.remove(0);
        proof {
            assert(e == orig[consumed]);
            assert(rest@ =~= orig.skip(consumed + 1));
        }
        match e {
            Some(c) => {
                r.push(c);
            },
            None => {},
        }
        proof {
            assert(orig.take(consumed + 1).drop_last() =~= orig.take(consumed));
            assert(orig.take(consumed + 1).last() == orig[consumed]);
            assert(r@ =~= resolved_of(orig.take(consumed + 1)));
        }
    }
    proof {
        assert(orig.take(orig.len() as int) =~= orig);
    }
    r
}

/// Law: when every visited commit's author matches the policy, no commit is
/// offending, so the check passes.
pub proof fn lemma_all_match_none_offending(cs: Seq<VisitedCommit>, policy: Seq<char>)
    requires
        forall|i: int| 0 <= i < cs.len() ==> author_matches(#[trigger] cs[i], policy),
    ensures
        offending_ids(cs, policy).len() == 0,
    decreases cs.len(),
{
    if cs.len() > 0 {
        assert(forall|i: int| 0 <= i < cs.drop_last().len() ==> author_matches(
            #[trigger] cs.drop_last()[i],
            policy,
        ));
        lemma_all_match_none_offending(cs.drop_last(), policy);
        assert(author_matches(cs.last(), policy));
    }
}

/// Law: when at least one visited commit's author does not match the policy,
/// some commit is offending, so the check fails.
pub proof fn lemma_mismatch_offending(cs: Seq<VisitedCommit>, policy: Seq<char>, i: int)
    requires
        0 <= i < cs.len(),
        !author_matches(cs[i], policy),
    ensures
        offending_ids(cs, policy).len() > 0,
    decreases cs.len(),
{
    if i < cs.len() - 1 {
        assert(cs.drop_last()[i] == cs[i]);
        lemma_mismatch_offending(cs.drop_last(), policy, i);
    } else {
        assert(!author_matches(cs.last(), policy));
    }
}

/// Collects the ids of the commits whose author does not match the policy
/// email, keeping visitation order.
pub fn collect_offending(commits: &Vec<VisitedCommit>, policy: &String) -> (r: Vec<ObjectId>)
    requires
        forall|i: int| 0 <= i < commits@.len() ==> (#[trigger] commits@[i]).id.well_formed(),
    ensures
        r@.map_values(|o: ObjectId| o@) == offending_ids(commits@, policy@),
        forall|j: int| 0 <= j < r@.len() ==> (#[trigger] r@[j]).well_formed(),
{
    let mut r: Vec<ObjectId> = Vec::new();
    let mut idx: usize = 0;
    proof {
        assert(commits@.take(0) =~= Seq::<VisitedCommit>::empty());
    }
    while idx < commits.len()
        invariant
            idx <= commits@.len(),
            forall|i: int| 0 <= i < commits@.len() ==> (#[trigger] commits@[i]).id.well_formed(),
            r@.map_values(|o: ObjectId| o@) == offending_ids(commits@.take(idx as int), policy@),
            forall|j: int| 0 <= j < r@.len() ==> (#[trigger] r@[j]).well_formed(),
        decreases commits@.len() - idx,
    {
        let ghost pre = r@.map_values(|o: ObjectId| o@);
        let c = &commits[idx];
        let matches_policy = match &c.author_email {
            Some(e) => e.eq(policy),
            None => false,
        };
        if !matches_policy {
            r.push(c.id.duplicate());
        }
        idx += 1;
        proof {
            assert(commits@.take(idx as int).drop_last() =~= commits@.take(idx as int - 1));
            assert(commits@.take(idx as int).last() == commits@[idx as int - 1]);
            if !author_matches(commits@[idx as int - 1], policy@) {
                assert(r@.map_values(|o: ObjectId| o@) =~= pre + seq![commits@[idx as int - 1].id@]);
            }
            assert(r@.map_values(|o: ObjectId| o@) =~= offending_ids(
                commits@.take(idx as int),
                policy@,
            ));
        }
    }
    proof {
        assert(commits@.take(commits@.len() as int) =~= commits@);
    }
    r
}

/// The verdict for one classified push. A delete passes outright; with no
/// policy configured the check passes vacuously, whatever the commits hold; a
/// failed lookup is an error; otherwise the verdict lists exactly the
/// non-matching commits, in visitation order, and passes when there are none.
pub fn decide(push_type: &PushType, policy: &PolicyLookup, commits: &Vec<VisitedCommit>) -> (r:
    Result<Check, HookError>)
    requires
        forall|i: int| 0 <= i < commits@.len() ==> (#[trigger] commits@[i]).id.well_formed(),
    ensures
        push_type is Delete ==> r == Ok::<Check, HookError>(Check::Pass),
        !(push_type is Delete) && policy is Absent ==> r == Ok::<Check, HookError>(Check::Pass),
        !(push_type is Delete) ==> (policy matches PolicyLookup::Failed(m) ==> (r matches Err(
            HookError::ConfigLookup(mm),
        ) && mm@ == m@)),
        !(push_type is Delete) ==> (policy matches PolicyLookup::Found(p) ==> ((offending_ids(
            commits@,
            p@,
        ).len() == 0 ==> r == Ok::<Check, HookError>(Check::Pass)) && (offending_ids(
            commits@,
            p@,
        ).len() > 0 ==> (r matches Ok(Check::Fail(l)) && l@.map_values(|o: ObjectId| o@)
            == offending_ids(commits@, p@))))),
        !(push_type is Delete) ==> (policy matches PolicyLookup::Found(p) ==> ((forall|i: int|
            0 <= i < commits@.len() ==> author_matches(#[trigger] commits@[i], p@)) ==> r
            == Ok::<Check, HookError>(Check::Pass))),
        !(push_type is Delete) ==> (policy matches PolicyLookup::Found(p) ==> ((exists|i: int|
            0 <= i < commits@.len() && !author_matches(#[trigger] commits@[i], p@)) ==> (
        r matches Ok(Check::Fail(l)) && l@.map_values(|o: ObjectId| o@) == offending_ids(
            commits@,
            p@,
        )))),
        r matches Ok(Check::Fail(l)) ==> l@.len() > 0 && forall|j: int|
            0 <= j < l@.len() ==> (#[trigger] l@[j]).well_formed(),
{
    match push_type {
        PushType::Delete => Ok(Check::Pass),
        _ => {
            match policy {
                PolicyLookup::Absent => Ok(Check::Pass),
                PolicyLookup::Failed(m) => Err(HookError::ConfigLookup(m.clone())),
                PolicyLookup::Found(p) => {
                    proof {
                        if forall|i: int|
                            0 <= i < commits@.len() ==> author_matches(
                                #[trigger] commits@[i],
                                p@,
                            ) {
                            lemma_all_match_none_offending(commits@, p@);
                        }
                        if exists|i: int|
                            0 <= i < commits@.len() && !author_matches(
                                #[trigger] commits@[i],
                                p@,
                            ) {
                            let i = choose|i: int|
                                0 <= i < commits@.len() && !author_matches(commits@[i], p@);
                            lemma_mismatch_offending(commits@, p@, i);
                        }
                    }
                    let offending = collect_offending(commits, p);
                    if offending.len() == 0 {
                        Ok(Check::Pass)
                    } else {
                        Ok(Check::Fail(offending))
                    }
                },
            }
        },
    }
}

} // verus!
