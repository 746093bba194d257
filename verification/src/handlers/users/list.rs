//! Listing users with the reports against each.

use vstd::prelude::*;

use crate::models::report::{same_report, Report};
use crate::models::user::User;

verus! {

/// The reports against `user_id`, in their order.
pub open spec fn reports_for(reports: Seq<Report>, user_id: i64) -> Seq<Report>
    decreases reports.len(),
{
    if reports.len() == 0 {
        Seq::empty()
    } else {
        let rest = reports_for(reports.drop_last(), user_id);
        if reports.last().target_user_id == user_id {
            rest.push(reports.last())
        } else {
            rest
        }
    }
}

/// Every report listed under a user is against that user, and none against them is
/// left out.
pub proof fn reports_for_are_exactly_the_users(reports: Seq<Report>, user_id: i64)
    ensures
        forall|i: int| 0 <= i < reports_for(reports, user_id).len()
            ==> (#[trigger] reports_for(reports, user_id)[i]).target_user_id == user_id,
        forall|j: int| 0 <= j < reports.len() && (#[trigger] reports[j]).target_user_id == user_id
            ==> reports_for(reports, user_id).contains(reports[j]),
    decreases reports.len(),
{
    if reports.len() > 0 {
        let prev = reports.drop_last();
        reports_for_are_exactly_the_users(prev, user_id);
        let rest = reports_for(prev, user_id);
        assert forall|j: int| 0 <= j < reports.len() && (#[trigger] reports[j]).target_user_id == user_id
            implies reports_for(reports, user_id).contains(reports[j]) by {
            if j < reports.len() - 1 {
                assert(prev[j] == reports[j]);
                let k = choose|k: int| 0 <= k < rest.len() && rest[k] == prev[j];
                if reports.last().target_user_id == user_id {
                    assert(reports_for(reports, user_id)[k] == rest[k]);
                }
            } else {
                assert(reports_for(reports, user_id).last() == reports[j]);
            }
        }
        assert forall|i: int| 0 <= i < reports_for(reports, user_id).len()
            implies (#[trigger] reports_for(reports, user_id)[i]).target_user_id == user_id by {
            if i < rest.len() {
                assert(reports_for(reports, user_id)[i] == rest[i]);
            }
        }
    }
}

/// Whether two lists of reports hold the same reports in the same order.
pub open spec fn same_reports(a: Seq<Report>, b: Seq<Report>) -> bool {
    &&& a.len() == b.len()
    &&& forall|i: int| 0 <= i < a.len() ==> same_report(#[trigger] a[i], b[i])
}

fn reports_against(reports: &Vec<Report>, user_id: i64) -> (r: Vec<Report>)
    ensures
        same_reports(r@, reports_for(reports@, user_id)),
{
    let mut out: Vec<Report> = Vec::new();
    let mut k: usize = 0;
    while k < reports.len()
        invariant
            k <= reports@.len(),
            same_reports(out@, reports_for(reports@.take(k as int), user_id)),
        decreases reports@.len() - k,
    {
        let ghost before = out@;
        assert(reports@.take(k + 1).drop_last() =~= reports@.take(k as int));
        if reports[k].target_user_id == user_id {
            out.push(reports[k].duplicate());
        }
        k = k + 1;
        proof {
            let want = reports_for(reports@.take(k as int), user_id);
            assert forall|i: int| 0 <= i < out@.len() implies same_report(#[trigger] out@[i], want[i]) by {
                if i < before.len() {
                    assert(out@[i] == before[i]);
                }
            }
        }
    }
    assert(reports@.take(reports@.len() as int) =~= reports@);
    out
}

/// Gives each user the reports against them, in the order of `reports`.
pub fn attach_reports(users: Vec<User>, reports: &Vec<Report>) -> (r: Vec<User>)
    ensures
        r@.len() == users@.len(),
        forall|i: int| 0 <= i < r@.len() ==> {
            let (after, before) = (#[trigger] r@[i], users@[i]);
            &&& after.id == before.id
            &&& after.user_id == before.user_id
            &&& after.providers == before.providers
            &&& after.mail == before.mail
            &&& after.verified == before.verified
            &&& after.trust_score == before.trust_score
            &&& after.created_at == before.created_at
            &&& after.updated_at == before.updated_at
            &&& same_reports(after.reports@, reports_for(reports@, before.user_id))
        },
{
    let ghost given = users@;
    let mut rest = users;
    let mut out: Vec<User> = Vec::new();
    while rest.len() > 0
        invariant
            rest@ == given.skip(out@.len() as int),
            out@.len() <= given.len(),
            forall|i: int| 0 <= i < out@.len() ==> {
                let (after, before) = (#[trigger] out@[i], given[i]);
                &&& after.id == before.id
                &&& after.user_id == before.user_id
                &&& after.providers == before.providers
                &&& after.mail == before.mail
                &&& after.verified == before.verified
                &&& after.trust_score == before.trust_score
                &&& after.created_at == before.created_at
                &&& after.updated_at == before.updated_at
                &&& same_reports(after.reports@, reports_for(reports@, before.user_id))
            },
        decreases rest@.len(),
    {
        let mut user = rest.remove(0);
        assert(user == given[out@.len() as int]);
        user.reports = reports_against(reports, user.user_id);
        out.push(user);
        assert(rest@ =~= given.skip(out@.len() as int));
    }
    out
}

} // verus!
