//! Public lookup of the accepted reports against a user, without the reporters.

use vstd::prelude::*;

use crate::models::report::Report;
use crate::text::{parse_i64, text_i64};

verus! {

/// The query of a lookup.
#[derive(Debug)]
pub struct LookupParams {
    pub target_id: String,
}

/// The user a lookup is about: the `i64` that `target_id` spells, 0 otherwise.
pub fn lookup_target(params: &LookupParams) -> (id: i64)
    ensures
        id == (match text_i64(params.target_id@) {
            Some(n) => n,
            None => 0,
        }),
{
    match parse_i64(params.target_id.as_str()) {
        Some(n) => n,
        None => 0,
    }
}

/// `after` is `before` with the reporter hidden and the evidence left out.
pub open spec fn is_anonymized_of(after: Report, before: Report) -> bool {
    &&& after.id == before.id
    &&& after.target_username == before.target_username
    &&& after.target_user_id == before.target_user_id
    &&& after.reporter_username@ == "ANONYMOUS"@
    &&& after.reporter_user_id == 0
    &&& after.game == before.game
    &&& after.reason == before.reason
    &&& after.status == before.status
    &&& after.created_at == before.created_at
    &&& after.updated_at == before.updated_at
    &&& after.evidence@.len() == 0
}

/// Hides who filed a report and drops its evidence.
pub fn anonymize_report(report: Report) -> (r: Report)
    ensures
        is_anonymized_of(r, report),
{
    let mut report = report;
    let mut name = String::new();
    crate::text::push_str(&mut name, "ANONYMOUS");
    report.reporter_username = name;
    report.reporter_user_id = 0;
    report.evidence = Vec::new();
    report
}

/// The reports as a lookup shows them: in the same order, each anonymized.
pub fn anonymize_reports(reports: Vec<Report>) -> (r: Vec<Report>)
    ensures
        r@.len() == reports@.len(),
        forall|i: int| 0 <= i < r@.len() ==> is_anonymized_of(#[trigger] r@[i], reports@[i]),
{
    let ghost given = reports@;
    let mut rest = reports;
    let mut out: Vec<Report> = Vec::new();
    while rest.len() > 0
        invariant
            rest@ == given.skip(out@.len() as int),
            out@.len() <= given.len(),
            forall|i: int| 0 <= i < out@.len() ==> is_anonymized_of(#[trigger] out@[i], given[i]),
        decreases rest@.len(),
    {
        let report = rest.remove(0);
        assert(report == given[out@.len() as int]);
        out.push(anonymize_report(report));
        assert(rest@ =~= given.skip(out@.len() as int));
    }
    out
}

/// Anonymizing twice is anonymizing once.
pub proof fn anonymize_idempotent(first: Report, second: Report, given: Report)
    requires
        is_anonymized_of(first, given),
        is_anonymized_of(second, first),
    ensures
        is_anonymized_of(second, given),
{
}

} // verus!
