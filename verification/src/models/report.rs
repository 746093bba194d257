pub mod evidence;

use crate::models::time::Timestamp;
use vstd::prelude::*;

verus! {

/// A row of the `reports` table, with its evidence.
#[derive(Debug)]
pub struct Report {
    pub id: Option<i64>,
    pub target_username: String,
    pub target_user_id: i64,
    pub reporter_username: String,
    pub reporter_user_id: i64,
    pub game: String,
    pub reason: String,
    pub status: String,
    pub created_at: Option<Timestamp>,
    pub updated_at: Option<Timestamp>,
    pub evidence: Vec<Evidence>,
}

/// A row of the `report_evidence` table.
#[derive(Debug)]
pub struct Evidence {
    pub id: Option<i64>,
    pub report_id: i64,
    pub url: String,
    pub evidence_type: String,
    pub created_at: Option<Timestamp>,
}

/// Whether two reports hold the same values.
pub open spec fn same_report(a: Report, b: Report) -> bool {
    &&& a.id == b.id
    &&& a.target_username == b.target_username
    &&& a.target_user_id == b.target_user_id
    &&& a.reporter_username == b.reporter_username
    &&& a.reporter_user_id == b.reporter_user_id
    &&& a.game == b.game
    &&& a.reason == b.reason
    &&& a.status == b.status
    &&& a.created_at == b.created_at
    &&& a.updated_at == b.updated_at
    &&& a.evidence@ == b.evidence@
}

/// Reports that hold the same values agree on every field, the reason included.
pub proof fn same_report_agrees_on_every_field(a: Report, b: Report)
    requires
        same_report(a, b),
    ensures
        a.id == b.id,
        a.target_username@ == b.target_username@,
        a.target_user_id == b.target_user_id,
        a.reporter_username@ == b.reporter_username@,
        a.reporter_user_id == b.reporter_user_id,
        a.game@ == b.game@,
        a.reason@ == b.reason@,
        a.status@ == b.status@,
        a.created_at == b.created_at,
        a.updated_at == b.updated_at,
        a.evidence@ == b.evidence@,
{
}

impl Evidence {
    /// A copy of this evidence record.
    pub fn duplicate(&self) -> (r: Evidence)
        ensures
            r == *self,
    {
        Evidence {
            id: self.id,
            report_id: self.report_id,
            url: self.url.clone(),
            evidence_type: self.evidence_type.clone(),
            created_at: self.created_at,
        }
    }
}

impl Report {
    /// A copy of this report and its evidence.
    pub fn duplicate(&self) -> (r: Report)
        ensures
            same_report(r, *self),
    {
        let mut evidence: Vec<Evidence> = Vec::new();
        let mut i: usize = 0;
        while i < self.evidence.len()
            invariant
                i <= self.evidence@.len(),
                evidence@ == self.evidence@.take(i as int),
            decreases self.evidence@.len() - i,
        {
            evidence.push(self.evidence[i].duplicate());
            i = i + 1;
            assert(evidence@ =~= self.evidence@.take(i as int));
        }
        assert(self.evidence@.take(self.evidence@.len() as int) =~= self.evidence@);
        Report {
            id: self.id,
            target_username: self.target_username.clone(),
            target_user_id: self.target_user_id,
            reporter_username: self.reporter_username.clone(),
            reporter_user_id: self.reporter_user_id,
            game: self.game.clone(),
            reason: self.reason.clone(),
            status: self.status.clone(),
            created_at: self.created_at,
            updated_at: self.updated_at,
            evidence,
        }
    }
}

} // verus!
