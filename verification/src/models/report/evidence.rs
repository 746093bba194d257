use crate::models::time::Timestamp;
use vstd::prelude::*;

verus! {

/// A row of the `report_evidence` table.
#[derive(Debug)]
pub struct Evidence {
    pub id: Option<i64>,
    pub report_id: i64,
    pub url: String,
    pub evidence_type: String,
    pub created_at: Option<Timestamp>,
}

} // verus!
