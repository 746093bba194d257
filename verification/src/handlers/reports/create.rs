//! Filing a report: the form fields, who is reported by whom, and where the
//! evidence files go.

use vstd::prelude::*;

use crate::models::report::{Evidence, Report};
use crate::models::time::Timestamp;
use crate::text::{parse_i64, push_i64, push_str, spec_i64_decimal, str_eq, text_i64};
use crate::utils::discord::DiscordInfo;
use crate::utils::AppError;

verus! {

/// Which report field a multipart part fills.
#[derive(Debug, Clone, Copy, PartialEq, Eq, Structural)]
pub enum ReportField {
    TargetId,
    TargetUsername,
    ReporterId,
    ReporterUsername,
    Game,
    Reason,
    Evidence,
    Ignored,
}

/// The field of each part name; several spellings are accepted.
pub open spec fn spec_report_field(name: Seq<char>) -> ReportField {
    if name == "target_user_id"@ || name == "target_id"@ || name == "target_userid"@ {
        ReportField::TargetId
    } else if name == "target_username"@ || name == "target_user_name"@ {
        ReportField::TargetUsername
    } else if name == "reporter_user_id"@ || name == "reporter_id"@ {
        ReportField::ReporterId
    } else if name == "reporter_username"@ {
        ReportField::ReporterUsername
    } else if name == "game"@ {
        ReportField::Game
    } else if name == "reason"@ || name == "cheat"@ {
        ReportField::Reason
    } else if name == "evidence[]"@ || name == "evidence"@ {
        ReportField::Evidence
    } else {
        ReportField::Ignored
    }
}

/// The field that a multipart part of the given name fills.
pub fn classify_report_field(name: &str) -> (f: ReportField)
    ensures
        f == spec_report_field(name@),
{
    if str_eq(name, "target_user_id") || str_eq(name, "target_id") || str_eq(name, "target_userid") {
        ReportField::TargetId
    } else if str_eq(name, "target_username") || str_eq(name, "target_user_name") {
        ReportField::TargetUsername
    } else if str_eq(name, "reporter_user_id") || str_eq(name, "reporter_id") {
        ReportField::ReporterId
    } else if str_eq(name, "reporter_username") {
        ReportField::ReporterUsername
    } else if str_eq(name, "game") {
        ReportField::Game
    } else if str_eq(name, "reason") || str_eq(name, "cheat") {
        ReportField::Reason
    } else if str_eq(name, "evidence[]") || str_eq(name, "evidence") {
        ReportField::Evidence
    } else {
        ReportField::Ignored
    }
}

/// The text fields of a submitted report; absent fields are empty.
#[derive(Debug)]
pub struct ReportForm {
    pub target_username: String,
    pub target_id: String,
    pub reporter_username: String,
    pub reporter_id: String,
    pub game: String,
    pub reason: String,
}

impl ReportForm {
    /// A form with every field empty.
    pub fn new() -> (f: ReportForm)
        ensures
            f.target_username@ == Seq::<char>::empty(),
            f.target_id@ == Seq::<char>::empty(),
            f.reporter_username@ == Seq::<char>::empty(),
            f.reporter_id@ == Seq::<char>::empty(),
            f.game@ == Seq::<char>::empty(),
            f.reason@ == Seq::<char>::empty(),
    {
        ReportForm {
            target_username: String::new(),
            target_id: String::new(),
            reporter_username: String::new(),
            reporter_id: String::new(),
            game: String::new(),
            reason: String::new(),
        }
    }

    /// Records the text of a part: the field it fills takes the text, so that of
    /// several parts of one field the last counts; evidence files and unknown parts
    /// leave the form as it is.
    pub fn record(&mut self, field: ReportField, text: String)
        ensures
            final(self).target_id == (if field == ReportField::TargetId {
                text
            } else {
                old(self).target_id
            }),
            final(self).target_username == (if field == ReportField::TargetUsername {
                text
            } else {
                old(self).target_username
            }),
            final(self).reporter_id == (if field == ReportField::ReporterId {
                text
            } else {
                old(self).reporter_id
            }),
            final(self).reporter_username == (if field == ReportField::ReporterUsername {
                text
            } else {
                old(self).reporter_username
            }),
            final(self).game == (if field == ReportField::Game {
                text
            } else {
                old(self).game
            }),
            final(self).reason == (if field == ReportField::Reason {
                text
            } else {
                old(self).reason
            }),
    {
        match field {
            ReportField::TargetId => self.target_id = text,
            ReportField::TargetUsername => self.target_username = text,
            ReportField::ReporterId => self.reporter_id = text,
            ReportField::ReporterUsername => self.reporter_username = text,
            ReportField::Game => self.game = text,
            ReportField::Reason => self.reason = text,
            ReportField::Evidence => {},
            ReportField::Ignored => {},
        }
    }
}

/// A report needs both the target's and the reporter's id.
pub fn check_report_form(form: &ReportForm) -> (r: Result<(), AppError>)
    ensures
        r is Ok <==> (form.target_id@.len() > 0 && form.reporter_id@.len() > 0),
        r matches Err(e) ==> e matches AppError::BadRequest(m) && m@
            == "target_id and reporter_id are required"@,
{
    if form.target_id.as_str().is_empty() || form.reporter_id.as_str().is_empty() {
        let mut m = String::new();
        push_str(&mut m, "target_id and reporter_id are required");
        return Err(AppError::BadRequest(m));
    }
    Ok(())
}

/// One side of a report, as it is stored.
#[derive(Debug)]
pub struct ReportParty {
    pub username: String,
    pub user_id: i64,
    /// The Discord avatar, when Discord knows one.
    pub avatar: Option<String>,
}

/// The name a party is stored under: Discord's, when Discord knows the id; else the
/// submitted one; else `Unknown`.
pub open spec fn party_username(submitted: Seq<char>, info: Option<DiscordInfo>) -> Seq<char> {
    match info {
        Some(i) => i.username@,
        None => if submitted.len() > 0 {
            submitted
        } else {
            "Unknown"@
        },
    }
}

/// When Discord knows the id, the party is stored under Discord's username,
/// whatever name was submitted, the empty one included; the submitted name (or
/// `Unknown` for none) counts only when Discord does not know the id.
pub proof fn discord_name_overrides_submitted(submitted: Seq<char>, other: Seq<char>, info: Option<DiscordInfo>)
    ensures
        info matches Some(i) ==> party_username(submitted, info) == i.username@,
        info is Some ==> party_username(submitted, info) == party_username(other, info),
        info is None && submitted.len() > 0 ==> party_username(submitted, info) == submitted,
        info is None && submitted.len() == 0 ==> party_username(submitted, info) == "Unknown"@,
{
}

/// Who a report is about, or by: the id that the text spells (0 when it is no
/// `i64`), the name, and the avatar when Discord has a non-empty one.
pub fn report_party(submitted_username: &str, id_text: &str, info: Option<&DiscordInfo>) -> (p: ReportParty)
    ensures
        p.username@ == party_username(
            submitted_username@,
            match info {
                Some(i) => Some(*i),
                None => None,
            },
        ),
        p.user_id == (match text_i64(id_text@) {
            Some(n) => n,
            None => 0,
        }),
        p.avatar == (match info {
            Some(i) => match i.avatar {
                Some(a) => if a@.len() > 0 {
                    Some(a)
                } else {
                    None::<String>
                },
                None => None,
            },
            None => None,
        }),
{
    let user_id = match parse_i64(id_text) {
        Some(n) => n,
        None => 0,
    };
    match info {
        Some(i) => {
            let avatar = match &i.avatar {
                Some(a) => if a.as_str().is_empty() {
                    None
                } else {
                    Some(a.clone())
                },
                None => None,
            };
            ReportParty { username: i.username.clone(), user_id, avatar }
        },
        None => {
            let mut username = String::new();
            if submitted_username.is_empty() {
                push_str(&mut username, "Unknown");
            } else {
                push_str(&mut username, submitted_username);
            }
            proof {
                assert(username@ =~= party_username(submitted_username@, None));
            }
            ReportParty { username, user_id, avatar: None }
        },
    }
}

/// The Discord account a report records for its target: the submitted id, the
/// stored name and the avatar when Discord has one.
#[derive(Debug)]
pub struct ReportedDiscordAccount {
    pub id: String,
    pub username: String,
    pub avatar: Option<String>,
}

/// The linked accounts a report merges into its target's providers.
#[derive(Debug)]
pub struct ReportedProviders {
    pub discord: Option<ReportedDiscordAccount>,
}

/// What a report merges into its target's providers: the Discord entry, with the
/// id as submitted, the name the target is stored under, and the avatar only when
/// one is known.
pub fn reported_providers(target_id: &str, target: &ReportParty) -> (p: ReportedProviders)
    ensures
        p.discord matches Some(d) && d.id@ == target_id@ && d.username == target.username
            && d.avatar == target.avatar,
{
    let avatar = match &target.avatar {
        Some(a) => Some(a.clone()),
        None => None,
    };
    ReportedProviders {
        discord: Some(
            ReportedDiscordAccount {
                id: target_id.to_owned(),
                username: target.username.clone(),
                avatar,
            },
        ),
    }
}

/// The directory that holds what is stored about a reported user.
pub open spec fn spec_exposes_dir(target_user_id: i64) -> Seq<char> {
    "data/exposes/"@ + spec_i64_decimal(target_user_id)
}

/// The directory of a reported user's evidence files.
pub open spec fn spec_evidence_dir(target_user_id: i64) -> Seq<char> {
    spec_exposes_dir(target_user_id) + "/evidence"@
}

/// The name an uploaded file is stored under: the upload time, `_`, its own name.
pub open spec fn spec_unique_name(timestamp: i64, file_name: Seq<char>) -> Seq<char> {
    spec_i64_decimal(timestamp) + "_"@ + file_name
}

/// Where an evidence file of a reported user is stored.
pub open spec fn spec_evidence_location(target_user_id: i64, unique_name: Seq<char>) -> Seq<char> {
    spec_evidence_dir(target_user_id) + "/"@ + unique_name
}

/// The URL under which an evidence file is recorded.
pub open spec fn spec_evidence_url(target_user_id: i64, unique_name: Seq<char>) -> Seq<char> {
    "/"@ + spec_evidence_location(target_user_id, unique_name)
}

pub fn exposes_dir(target_user_id: i64) -> (d: String)
    ensures
        d@ == spec_exposes_dir(target_user_id),
{
    let mut d = String::new();
    push_str(&mut d, "data/exposes/");
    push_i64(&mut d, target_user_id);
    proof {
        assert(d@ =~= spec_exposes_dir(target_user_id));
    }
    d
}

pub fn evidence_dir(target_user_id: i64) -> (d: String)
    ensures
        d@ == spec_evidence_dir(target_user_id),
{
    let mut d = exposes_dir(target_user_id);
    push_str(&mut d, "/evidence");
    d
}

pub fn unique_name(timestamp: i64, file_name: &str) -> (n: String)
    ensures
        n@ == spec_unique_name(timestamp, file_name@),
{
    let mut n = String::new();
    push_i64(&mut n, timestamp);
    push_str(&mut n, "_");
    push_str(&mut n, file_name);
    proof {
        assert(n@ =~= spec_unique_name(timestamp, file_name@));
    }
    n
}

pub fn evidence_location(target_user_id: i64, unique_name: &str) -> (p: String)
    ensures
        p@ == spec_evidence_location(target_user_id, unique_name@),
{
    let mut p = evidence_dir(target_user_id);
    push_str(&mut p, "/");
    push_str(&mut p, unique_name);
    proof {
        assert(p@ =~= spec_evidence_location(target_user_id, unique_name@));
    }
    p
}

pub fn evidence_url(target_user_id: i64, unique_name: &str) -> (u: String)
    ensures
        u@ == spec_evidence_url(target_user_id, unique_name@),
{
    let mut u = String::new();
    push_str(&mut u, "/");
    let location = evidence_location(target_user_id, unique_name);
    push_str(&mut u, location.as_str());
    proof {
        assert(u@ =~= spec_evidence_url(target_user_id, unique_name@));
    }
    u
}

/// The kind every uploaded evidence file is recorded as.
pub fn evidence_kind() -> (k: &'static str)
    ensures
        k@ == "image"@,
{
    "image"
}

/// The record of an evidence file stored for a new report.
pub fn new_evidence(id: i64, report_id: i64, url: String, created_at: Timestamp) -> (e: Evidence)
    ensures
        e.id == Some(id),
        e.report_id == report_id,
        e.url == url,
        e.evidence_type@ == "image"@,
        e.created_at == Some(created_at),
{
    Evidence {
        id: Some(id),
        report_id,
        url,
        evidence_type: evidence_kind().to_owned(),
        created_at: Some(created_at),
    }
}

/// The record of a newly filed report: the stored parties, the game and reason of
/// the form, its evidence, and the status `pending`.
pub fn new_report(
    id: i64,
    target: ReportParty,
    reporter: ReportParty,
    form: ReportForm,
    evidence: Vec<Evidence>,
    created_at: Timestamp,
    updated_at: Timestamp,
) -> (r: Report)
    ensures
        r.id == Some(id),
        r.target_username == target.username,
        r.target_user_id == target.user_id,
        r.reporter_username == reporter.username,
        r.reporter_user_id == reporter.user_id,
        r.game == form.game,
        r.reason == form.reason,
        r.status@ == "pending"@,
        r.created_at == Some(created_at),
        r.updated_at == Some(updated_at),
        r.evidence == evidence,
{
    Report {
        id: Some(id),
        target_username: target.username,
        target_user_id: target.user_id,
        reporter_username: reporter.username,
        reporter_user_id: reporter.user_id,
        game: form.game,
        reason: form.reason,
        status: "pending".to_owned(),
        created_at: Some(created_at),
        updated_at: Some(updated_at),
        evidence,
    }
}

/// The name a file part is stored under when it names no file itself.
pub fn evidence_file_name(file_name: Option<&str>) -> (n: String)
    ensures
        n@ == (match file_name {
            Some(f) => f@,
            None => "evidence.dat"@,
        }),
{
    let mut n = String::new();
    match file_name {
        Some(f) => push_str(&mut n, f),
        None => push_str(&mut n, "evidence.dat"),
    }
    proof {
        assert(n@ =~= (match file_name {
            Some(f) => f@,
            None => "evidence.dat"@,
        }));
    }
    n
}

} // verus!
