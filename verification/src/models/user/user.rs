use crate::models::time::Timestamp;
use vstd::prelude::*;

use super::providers::Providers;
use crate::models::report::Report;

verus! {

/// A row of the `users` table, with its provider accounts in their full form.
#[derive(Debug)]
pub struct User {
    pub id: Option<i64>,
    pub user_id: i64,
    pub providers: Providers,
    pub mail: Option<String>,
    pub verified: Option<i32>,
    pub trust_score: Option<i32>,
    pub created_at: Option<Timestamp>,
    pub updated_at: Option<Timestamp>,
    pub reports: Vec<Report>,
}

/// The trust score of this scale after `report_count` accepted reports:
/// 100 with none, then 85, 70, 55, 35, 22, 14, and 6 from seven on.
pub open spec fn trust_score_for(report_count: int) -> i32 {
    if report_count == 0 {
        100
    } else if report_count == 1 {
        85
    } else if report_count == 2 {
        70
    } else if report_count == 3 {
        55
    } else if report_count == 4 {
        35
    } else if report_count == 5 {
        22
    } else if report_count == 6 {
        14
    } else {
        6
    }
}

impl User {
    /// The trust score after `report_count` accepted reports.
    pub fn calculate_trust_score(report_count: i64) -> (score: i32)
        ensures
            score == trust_score_for(report_count as int),
            6 <= score <= 100,
    {
        match report_count {
            0 => 100,
            1 => 85,
            2 => 70,
            3 => 55,
            4 => 35,
            5 => 22,
            6 => 14,
            _ => 6,
        }
    }
}

/// More accepted reports never raise the trust score.
pub proof fn trust_score_non_increasing(fewer: int, more: int)
    requires
        0 <= fewer <= more,
    ensures
        trust_score_for(fewer) >= trust_score_for(more),
{
}

/// Up to seven accepted reports, each one lowers the trust score.
pub proof fn trust_score_strictly_decreasing(fewer: int, more: int)
    requires
        0 <= fewer < more <= 7,
    ensures
        trust_score_for(fewer) > trust_score_for(more),
{
}

} // verus!
