use backend::handlers::reports::accept::{
    broadcast_accept_report, cheater_status_key, evidence_urls, journal_entry, journal_ids, journal_path,
    CHEATER_STATUS_TTL_SECS,
};
use backend::handlers::reports::create::{
    check_report_form, classify_report_field, evidence_dir, evidence_file_name, evidence_location,
    evidence_kind, evidence_url, exposes_dir, new_evidence, new_report, report_party, reported_providers,
    unique_name,
    ReportField, ReportForm,
};
use backend::handlers::reports::evidence::{content_type_for, evidence_file_path};
use backend::handlers::reports::lookup::{anonymize_reports, lookup_target, LookupParams};
use backend::handlers::reports::upload::{upload_field_name, upload_file_name, upload_url, UPLOAD_DIR};
use backend::models::report::{Evidence, Report};
use backend::models::time::Timestamp;
use backend::utils::discord::DiscordInfo;
use backend::utils::AppError;

fn report() -> Report {
    Report {
        id: Some(5),
        target_username: "cheater".to_string(),
        target_user_id: 77,
        reporter_username: "snitch".to_string(),
        reporter_user_id: 12,
        game: "rust".to_string(),
        reason: "esp".to_string(),
        status: "accepted".to_string(),
        created_at: None,
        updated_at: None,
        evidence: vec![Evidence {
            id: Some(1),
            report_id: 5,
            url: "/data/exposes/77/evidence/1_a.png".to_string(),
            evidence_type: "image".to_string(),
            created_at: None,
        }],
    }
}

#[test]
fn report_fields_accept_several_spellings() {
    for (name, field) in [
        ("target_user_id", ReportField::TargetId),
        ("target_id", ReportField::TargetId),
        ("target_userid", ReportField::TargetId),
        ("target_username", ReportField::TargetUsername),
        ("target_user_name", ReportField::TargetUsername),
        ("reporter_user_id", ReportField::ReporterId),
        ("reporter_id", ReportField::ReporterId),
        ("reporter_username", ReportField::ReporterUsername),
        ("game", ReportField::Game),
        ("reason", ReportField::Reason),
        ("cheat", ReportField::Reason),
        ("evidence[]", ReportField::Evidence),
        ("evidence", ReportField::Evidence),
        ("other", ReportField::Ignored),
        ("", ReportField::Ignored),
    ] {
        assert_eq!(classify_report_field(name), field, "{}", name);
    }
}

fn form(target_id: &str, reporter_id: &str) -> ReportForm {
    ReportForm {
        target_username: String::new(),
        target_id: target_id.to_string(),
        reporter_username: String::new(),
        reporter_id: reporter_id.to_string(),
        game: String::new(),
        reason: String::new(),
    }
}

#[test]
fn report_needs_both_ids() {
    assert!(check_report_form(&form("1", "2")).is_ok());
    match check_report_form(&form("", "2")) {
        Err(AppError::BadRequest(m)) => assert_eq!(m, "target_id and reporter_id are required"),
        other => panic!("{:?}", other),
    }
    assert!(check_report_form(&form("1", "")).is_err());
}

#[test]
fn report_parties_prefer_discord_names() {
    let p = report_party("", "abc", None);
    assert_eq!((p.username.as_str(), p.user_id, p.avatar.is_none()), ("Unknown", 0, true));
    let p = report_party("given", "42", None);
    assert_eq!((p.username.as_str(), p.user_id), ("given", 42));
    let info = DiscordInfo { username: "disc#1".to_string(), id: "42".to_string(), avatar: Some("u".to_string()) };
    let p = report_party("given", "42", Some(&info));
    assert_eq!((p.username.as_str(), p.avatar.as_deref()), ("disc#1", Some("u")));
    let info = DiscordInfo { username: "d".to_string(), id: "42".to_string(), avatar: Some(String::new()) };
    assert!(report_party("", "42", Some(&info)).avatar.is_none());
}

#[test]
fn evidence_paths() {
    assert_eq!(exposes_dir(77), "data/exposes/77");
    assert_eq!(evidence_dir(-5), "data/exposes/-5/evidence");
    let name = unique_name(1700000000, "shot.png");
    assert_eq!(name, "1700000000_shot.png");
    assert_eq!(evidence_location(77, &name), "data/exposes/77/evidence/1700000000_shot.png");
    assert_eq!(evidence_url(77, &name), "/data/exposes/77/evidence/1700000000_shot.png");
    assert_eq!(evidence_file_name(None), "evidence.dat");
    assert_eq!(evidence_file_name(Some("x.jpg")), "x.jpg");
}

#[test]
fn recorded_evidence_url_serves_stored_file() {
    for (id, file) in [(77i64, "1_a.png"), (0, "x"), (-3, "//odd")] {
        assert_eq!(evidence_file_path(&evidence_url(id, file)), evidence_location(id, file));
    }
}

#[test]
fn evidence_file_path_drops_leading_slashes() {
    assert_eq!(evidence_file_path("///a/b"), "a/b");
    assert_eq!(evidence_file_path("a/b"), "a/b");
    assert_eq!(evidence_file_path(""), "");
}

#[test]
fn content_types_by_extension() {
    assert_eq!(content_type_for("data/x/1_a.PNG"), "image/png");
    assert_eq!(content_type_for("a.jpg"), "image/jpeg");
    assert_eq!(content_type_for("a.JpEg"), "image/jpeg");
    assert_eq!(content_type_for("a.gif"), "image/gif");
    assert_eq!(content_type_for("a.webp"), "image/webp");
    assert_eq!(content_type_for("clip.mp4"), "video/mp4");
    assert_eq!(content_type_for("clip.webm"), "video/webm");
    assert_eq!(content_type_for("doc.pdf"), "application/pdf");
    assert_eq!(content_type_for("archive.tar.gz"), "application/octet-stream");
    assert_eq!(content_type_for("png"), "image/png");
    assert_eq!(content_type_for("a."), "application/octet-stream");
    assert_eq!(content_type_for(""), "application/octet-stream");
}

#[test]
fn lookup_hides_reporters() {
    assert_eq!(lookup_target(&LookupParams { target_id: "77".to_string() }), 77);
    assert_eq!(lookup_target(&LookupParams { target_id: "x".to_string() }), 0);
    let out = anonymize_reports(vec![report(), report()]);
    assert_eq!(out.len(), 2);
    for r in &out {
        assert_eq!(r.reporter_username, "ANONYMOUS");
        assert_eq!(r.reporter_user_id, 0);
        assert!(r.evidence.is_empty());
        assert_eq!(r.target_user_id, 77);
        assert_eq!(r.reason, "esp");
    }
    let twice = anonymize_reports(out);
    assert_eq!(twice[0].reporter_username, "ANONYMOUS");
}

#[test]
fn acceptance_outputs() {
    let r = report();
    assert_eq!(cheater_status_key(77), "cheater_status:77");
    assert_eq!(CHEATER_STATUS_TTL_SECS, 3600);
    assert_eq!(journal_path(77), "data/exposes/77/journal.txt");
    assert_eq!(evidence_urls(&r), vec!["/data/exposes/77/evidence/1_a.png".to_string()]);
    let b = broadcast_accept_report(&r, 80);
    assert_eq!((b.id, b.target_user_id, b.reporter_user_id, b.trust_score), (Some(5), 77, 12, 80));
    assert_eq!((b.target_username.as_str(), b.status.as_str()), ("cheater", "accepted"));
    let e = journal_entry("2024-01-01 00:00:00 UTC", &r, "{\"discord\":\"1\"}", "[]");
    assert_eq!(
        e,
        "\n--- REPORT [2024-01-01 00:00:00 UTC] ---\nReporter: snitch\nGame: rust\nCheat: esp\nIDs: {\"discord\":\"1\"}\nFiles: []\n---------------------\n"
    );
}

#[test]
fn upload_names() {
    assert_eq!(UPLOAD_DIR, "data/tmp");
    assert_eq!(upload_url("1_a.png"), "/data/exposes/1_a.png");
    assert_eq!(upload_field_name(None), "file");
    assert_eq!(upload_field_name(Some("f")), "f");
    assert_eq!(upload_file_name(None), "upload.dat");
}

#[test]
fn form_parts_fill_fields_and_the_last_part_counts() {
    let mut f = ReportForm::new();
    assert!(f.target_id.is_empty() && f.reason.is_empty());
    for (name, text) in [
        ("target_id", "1"),
        ("target_userid", "2"),
        ("target_user_name", "bob"),
        ("reporter_user_id", "3"),
        ("reporter_username", "alice"),
        ("game", "chess"),
        ("cheat", "aimbot"),
        ("evidence", "file bytes"),
        ("other", "x"),
    ] {
        f.record(classify_report_field(name), text.to_string());
    }
    assert_eq!(f.target_id, "2");
    assert_eq!(f.target_username, "bob");
    assert_eq!(f.reporter_id, "3");
    assert_eq!(f.reporter_username, "alice");
    assert_eq!(f.game, "chess");
    assert_eq!(f.reason, "aimbot");
}

#[test]
fn new_report_records() {
    let at = Timestamp { secs: 1_700_000_000, nanos: 5 };
    let later = Timestamp { secs: 1_700_000_001, nanos: 0 };
    assert_eq!(evidence_kind(), "image");
    let ev = new_evidence(9, 4, "/data/exposes/7/evidence/1_a.png".to_string(), at);
    assert_eq!(ev.id, Some(9));
    assert_eq!(ev.report_id, 4);
    assert_eq!(ev.url, "/data/exposes/7/evidence/1_a.png");
    assert_eq!(ev.evidence_type, "image");
    assert_eq!(ev.created_at, Some(at));
    let mut f = ReportForm::new();
    f.record(ReportField::Game, "chess".to_string());
    f.record(ReportField::Reason, "aimbot".to_string());
    let target = report_party("", "7", None);
    let reporter = report_party("alice", "8", None);
    let r = new_report(4, target, reporter, f, vec![ev], at, later);
    assert_eq!(r.id, Some(4));
    assert_eq!(r.target_username, "Unknown");
    assert_eq!(r.target_user_id, 7);
    assert_eq!(r.reporter_username, "alice");
    assert_eq!(r.reporter_user_id, 8);
    assert_eq!(r.game, "chess");
    assert_eq!(r.reason, "aimbot");
    assert_eq!(r.status, "pending");
    assert_eq!(r.created_at, Some(at));
    assert_eq!(r.updated_at, Some(later));
    assert_eq!(r.evidence.len(), 1);
    assert_eq!(r.evidence[0].id, Some(9));
}

#[test]
fn reports_record_the_targets_discord_account() {
    let info = DiscordInfo { username: "bob".to_string(), id: "42".to_string(), avatar: Some("av".to_string()) };
    let target = report_party("typed", "42", Some(&info));
    let p = reported_providers("42", &target);
    let d = p.discord.unwrap();
    assert_eq!(d.id, "42");
    assert_eq!(d.username, "bob");
    assert_eq!(d.avatar, Some("av".to_string()));
    let plain = report_party("", "x7", None);
    let d = reported_providers("x7", &plain).discord.unwrap();
    assert_eq!(d.id, "x7");
    assert_eq!(d.username, "Unknown");
    assert_eq!(d.avatar, None);
}

#[test]
fn journal_lists_the_stored_discord_id() {
    assert_eq!(journal_ids(Some("42")).discord, Some("42".to_string()));
    assert_eq!(journal_ids(None).discord, None);
}
