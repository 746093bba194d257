//! Accepting a report: the user's new trust score, the cache flag, the journal and
//! the broadcast.

use vstd::prelude::*;

use crate::handlers::reports::create::{exposes_dir, spec_exposes_dir};
use crate::models::report::Report;
use crate::models::websocket::BroadcastAcceptReport;
use crate::text::{push_i64, push_str, spec_i64_decimal};

verus! {

/// How long the cache flags an accepted target as a cheater, in seconds.
pub const CHEATER_STATUS_TTL_SECS: u64 = 3600;

/// The cache key that flags a user as an exposed cheater.
pub fn cheater_status_key(target_user_id: i64) -> (k: String)
    ensures
        k@ == "cheater_status:"@ + spec_i64_decimal(target_user_id),
{
    let mut k = String::new();
    push_str(&mut k, "cheater_status:");
    push_i64(&mut k, target_user_id);
    proof {
        assert(k@ =~= "cheater_status:"@ + spec_i64_decimal(target_user_id));
    }
    k
}

/// The journal of accepted reports against a user.
pub fn journal_path(target_user_id: i64) -> (p: String)
    ensures
        p@ == spec_exposes_dir(target_user_id) + "/journal.txt"@,
{
    let mut p = exposes_dir(target_user_id);
    push_str(&mut p, "/journal.txt");
    p
}

/// The accounts a journal entry names the target by.
#[derive(Debug)]
pub struct JournalIds {
    pub discord: Option<String>,
}

/// The ids a journal entry lists: the Discord id stored for the target, when the
/// stored providers hold it as text; none otherwise.
pub fn journal_ids(stored_discord_id: Option<&str>) -> (ids: JournalIds)
    ensures
        match stored_discord_id {
            Some(d) => ids.discord matches Some(t) && t@ == d@,
            None => ids.discord is None,
        },
{
    match stored_discord_id {
        Some(d) => JournalIds { discord: Some(d.to_owned()) },
        None => JournalIds { discord: None },
    }
}

/// The URLs of a report's evidence, in order.
pub fn evidence_urls(report: &Report) -> (urls: Vec<String>)
    ensures
        urls@.len() == report.evidence@.len(),
        forall|i: int| 0 <= i < urls@.len() ==> #[trigger] urls@[i] == report.evidence@[i].url,
{
    let mut urls: Vec<String> = Vec::new();
    let mut i: usize = 0;
    while i < report.evidence.len()
        invariant
            i <= report.evidence@.len(),
            urls@.len() == i,
            forall|j: int| 0 <= j < i ==> #[trigger] urls@[j] == report.evidence@[j].url,
        decreases report.evidence@.len() - i,
    {
        urls.push(report.evidence[i].url.clone());
        i = i + 1;
    }
    urls
}

/// The announcement of an accepted report: the report with the target's new trust
/// score.
pub fn broadcast_accept_report(report: &Report, trust_score: i32) -> (b: BroadcastAcceptReport)
    ensures
        b.id == report.id,
        b.target_username == report.target_username,
        b.target_user_id == report.target_user_id,
        b.reporter_username == report.reporter_username,
        b.reporter_user_id == report.reporter_user_id,
        b.game == report.game,
        b.reason == report.reason,
        b.status == report.status,
        b.trust_score == trust_score,
{
    BroadcastAcceptReport {
        id: report.id,
        target_username: report.target_username.clone(),
        target_user_id: report.target_user_id,
        reporter_username: report.reporter_username.clone(),
        reporter_user_id: report.reporter_user_id,
        game: report.game.clone(),
        reason: report.reason.clone(),
        trust_score,
        status: report.status.clone(),
    }
}

/// The journal entry of an accepted report.
pub open spec fn spec_journal_entry(
    timestamp: Seq<char>,
    reporter: Seq<char>,
    game: Seq<char>,
    cheat: Seq<char>,
    ids_json: Seq<char>,
    files_json: Seq<char>,
) -> Seq<char> {
    "\n--- REPORT ["@ + timestamp + "] ---\nReporter: "@ + reporter + "\nGame: "@ + game
        + "\nCheat: "@ + cheat + "\nIDs: "@ + ids_json + "\nFiles: "@ + files_json
        + "\n---------------------\n"@
}

/// The journal entry of an accepted report, given the acceptance time and the JSON
/// of the target's ids and of the evidence URLs, as text.
pub fn journal_entry(timestamp: &str, report: &Report, ids_json: &str, files_json: &str) -> (e: String)
    ensures
        e@ == spec_journal_entry(
            timestamp@,
            report.reporter_username@,
            report.game@,
            report.reason@,
            ids_json@,
            files_json@,
        ),
{
    let mut e = String::new();
    push_str(&mut e, "\n--- REPORT [");
    push_str(&mut e, timestamp);
    push_str(&mut e, "] ---\nReporter: ");
    push_str(&mut e, report.reporter_username.as_str());
    push_str(&mut e, "\nGame: ");
    push_str(&mut e, report.game.as_str());
    push_str(&mut e, "\nCheat: ");
    push_str(&mut e, report.reason.as_str());
    push_str(&mut e, "\nIDs: ");
    push_str(&mut e, ids_json);
    push_str(&mut e, "\nFiles: ");
    push_str(&mut e, files_json);
    push_str(&mut e, "\n---------------------\n");
    proof {
        assert(e@ =~= spec_journal_entry(
            timestamp@,
            report.reporter_username@,
            report.game@,
            report.reason@,
            ids_json@,
            files_json@,
        ));
    }
    e
}

} // verus!
