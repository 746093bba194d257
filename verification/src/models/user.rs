pub mod providers;
pub mod user;

use crate::models::time::Timestamp;
use vstd::prelude::*;

use crate::models::report::Report;

verus! {

/// A row of the `users` table, with the accepted reports against the user.
#[derive(Debug)]
pub struct User {
    pub id: Option<i64>,
    pub user_id: i64,
    pub providers: Providers,
    pub mail: Option<String>,
    pub verified: Option<i32>,
    pub trust_score: Option<i32>,
    pub created_at: Option<Timestamp>,
    pub updated_at: Option<Timestamp>,
    pub reports: Vec<Report>,
}

/// The trust score of a user against whom `report_count` reports were accepted:
/// 100 with none, then 80, 70, 50, 40, 25, 10, and 5 from seven on.
pub open spec fn trust_score_for(report_count: int) -> i32 {
    if report_count == 0 {
        100
    } else if report_count == 1 {
        80
    } else if report_count == 2 {
        70
    } else if report_count == 3 {
        50
    } else if report_count == 4 {
        40
    } else if report_count == 5 {
        25
    } else if report_count == 6 {
        10
    } else {
        5
    }
}

impl User {
    /// The trust score after `report_count` accepted reports.
    pub fn calculate_trust_score(report_count: i64) -> (score: i32)
        ensures
            score == trust_score_for(report_count as int),
            5 <= score <= 100,
    {
        match report_count {
            0 => 100,
            1 => 80,
            2 => 70,
            3 => 50,
            4 => 40,
            5 => 25,
            6 => 10,
            _ => 5,
        }
    }
}

/// More accepted reports never raise the trust score.
pub proof fn trust_score_non_increasing(fewer: int, more: int)
    requires
        0 <= fewer <= more,
    ensures
        trust_score_for(fewer) >= trust_score_for(more),
{
}

/// Up to seven accepted reports, each one lowers the trust score.
pub proof fn trust_score_strictly_decreasing(fewer: int, more: int)
    requires
        0 <= fewer < more <= 7,
    ensures
        trust_score_for(fewer) > trust_score_for(more),
{
}

/// The accounts a user is known by.
#[derive(Debug)]
pub struct Providers {
    pub discord: Option<DiscordProvider>,
    pub fivem: Option<FiveMProvider>,
    pub hardware_ids: Vec<String>,
}

impl Default for Providers {
    fn default() -> (p: Providers)
        ensures
            p.discord is None,
            p.fivem is None,
            p.hardware_ids@.len() == 0,
    {
        Providers { discord: None, fivem: None, hardware_ids: Vec::new() }
    }
}

#[derive(Debug)]
pub struct DiscordProvider {
    pub username: String,
    pub id: String,
    pub avatar: String,
}

impl Default for DiscordProvider {
    fn default() -> (p: DiscordProvider)
        ensures
            p.username@.len() == 0,
            p.id@.len() == 0,
            p.avatar@.len() == 0,
    {
        DiscordProvider { username: String::new(), id: String::new(), avatar: String::new() }
    }
}

#[derive(Debug)]
pub struct FiveMProvider {
    pub username: String,
    pub identifiers: Vec<String>,
}

impl Default for FiveMProvider {
    fn default() -> (p: FiveMProvider)
        ensures
            p.username@.len() == 0,
            p.identifiers@.len() == 0,
    {
        FiveMProvider { username: String::new(), identifiers: Vec::new() }
    }
}

/// A user as the API creates it.
#[derive(Debug)]
pub struct CreateUser {
    pub user_id: Option<i64>,
    pub providers: Providers,
    pub mail: Option<String>,
    pub verified: i32,
    pub trust_score: Option<i32>,
}

/// The provider accounts to merge into a user's record; absent ones stay as they are.
#[derive(Debug)]
pub struct UpdateProviders {
    pub discord: Option<DiscordProvider>,
    pub fivem: Option<FiveMProvider>,
    pub hardware_ids: Option<Vec<String>>,
}

#[derive(Debug)]
pub struct UpdateMailVerified {
    pub mail: Option<String>,
    pub verified: i32,
    pub trust_score: Option<i32>,
}

} // verus!
