use backend::handlers::guilds::create::parse_guild_payload;
use backend::handlers::users::create::{apply_discord_info, create_user_id, initial_trust_score};
use backend::handlers::users::delete::delete_outcome;
use backend::handlers::users::list::attach_reports;
use backend::models::guild::UpdateGuild;
use backend::models::report::Report;
use backend::models::time::Timestamp;
use backend::models::user::{CreateUser, DiscordProvider, Providers, User};
use backend::status::Status;
use backend::utils::discord::{bot_authorization, discord_info, discord_user_url, DiscordInfo};

fn payload(members: &[&str], channel: Option<&str>) -> UpdateGuild {
    UpdateGuild {
        guild_id: "10".to_string(),
        guild_name: "G".to_string(),
        guild_owner: "20".to_string(),
        guild_members: members.iter().map(|m| m.to_string()).collect(),
        alert_channel: channel.map(|c| c.to_string()),
        alert_role: None,
        identifiers_showed: vec!["steam".to_string()],
        is_active: None,
    }
}

#[test]
fn guild_payload_is_parsed() {
    let w = parse_guild_payload(&payload(&["1", "2", "-3"], Some("99"))).unwrap();
    assert_eq!((w.guild_id, w.guild_owner), (10, 20));
    assert_eq!(w.guild_members, vec![1, 2, -3]);
    assert_eq!(w.alert_channel, Some(99));
    assert_eq!(w.alert_role, None);
    assert_eq!(w.identifiers_showed, vec!["steam".to_string()]);
    assert!(w.insert_is_active());
}

#[test]
fn any_bad_guild_id_is_a_bad_request() {
    assert!(matches!(parse_guild_payload(&payload(&["1", "x"], None)), Err(Status::BadRequest)));
    assert!(matches!(parse_guild_payload(&payload(&[], Some("c"))), Err(Status::BadRequest)));
    let mut p = payload(&[], None);
    p.guild_owner = "".to_string();
    assert!(matches!(parse_guild_payload(&p), Err(Status::BadRequest)));
    let mut p = payload(&[], None);
    p.is_active = Some(false);
    assert!(!parse_guild_payload(&p).unwrap().insert_is_active());
}

fn create_user(user_id: Option<i64>, discord_id: Option<&str>, trust: Option<i32>) -> CreateUser {
    CreateUser {
        user_id,
        providers: Providers {
            discord: discord_id.map(|d| DiscordProvider { username: "u".to_string(), id: d.to_string(), avatar: String::new() }),
            fivem: None,
            hardware_ids: vec![],
        },
        mail: None,
        verified: 0,
        trust_score: trust,
    }
}

#[test]
fn new_user_id_comes_from_payload_or_discord() {
    assert_eq!(create_user_id(&create_user(Some(5), Some("6"), None)), Ok(5));
    assert_eq!(create_user_id(&create_user(None, Some("6"), None)), Ok(6));
    assert_eq!(create_user_id(&create_user(None, Some("six"), None)), Err(Status::BadRequest));
    assert_eq!(create_user_id(&create_user(None, None, None)), Err(Status::BadRequest));
    assert_eq!(initial_trust_score(&create_user(None, None, None)), 100);
    assert_eq!(initial_trust_score(&create_user(None, None, Some(40))), 40);
}

#[test]
fn discord_info_refreshes_provider() {
    let mut p = DiscordProvider { username: "old".to_string(), id: "6".to_string(), avatar: "x".to_string() };
    apply_discord_info(&mut p, &DiscordInfo { username: "new".to_string(), id: "6".to_string(), avatar: None });
    assert_eq!((p.username.as_str(), p.id.as_str(), p.avatar.as_str()), ("new", "6", ""));
}

#[test]
fn deletion_outcomes() {
    assert_eq!(delete_outcome(0), Err(Status::NotFound));
    assert_eq!(delete_outcome(1), Ok(Status::NoContent));
    assert_eq!(Status::NoContent.code(), 204);
    assert_eq!(Status::NotFound.code(), 404);
}

fn report(id: i64, target: i64) -> Report {
    Report {
        id: Some(id),
        target_username: "t".to_string(),
        target_user_id: target,
        reporter_username: "r".to_string(),
        reporter_user_id: 3,
        game: "g".to_string(),
        reason: "aimbot".to_string(),
        status: "accepted".to_string(),
        created_at: Some(Timestamp { secs: 1, nanos: 2 }),
        updated_at: None,
        evidence: vec![],
    }
}

fn user(user_id: i64) -> User {
    User {
        id: Some(user_id * 10),
        user_id,
        providers: Providers::default(),
        mail: None,
        verified: Some(1),
        trust_score: Some(100),
        created_at: None,
        updated_at: None,
        reports: vec![],
    }
}

#[test]
fn reports_are_attached_to_their_targets_in_order() {
    let reports = vec![report(1, 7), report(2, 8), report(3, 7)];
    let users = attach_reports(vec![user(7), user(8), user(9)], &reports);
    let ids = |u: &User| u.reports.iter().map(|r| r.id.unwrap()).collect::<Vec<_>>();
    assert_eq!(ids(&users[0]), vec![1, 3]);
    assert_eq!(ids(&users[1]), vec![2]);
    assert!(users[2].reports.is_empty());
    assert_eq!(users[0].id, Some(70));
    assert_eq!(users[0].reports[0].created_at, Some(Timestamp { secs: 1, nanos: 2 }));
}

#[test]
fn discord_user_summary() {
    let info = discord_info("1", Some("alice"), Some("0"), Some("a_hash"));
    assert_eq!(info.username, "alice");
    assert_eq!(info.id, "1");
    assert_eq!(info.avatar.as_deref(), Some("https://cdn.discordapp.com/avatars/1/a_hash.gif"));
    let info = discord_info("2", None, None, None);
    assert_eq!(info.username, "Unknown#0000");
    assert!(info.avatar.is_none());
    let info = discord_info("3", Some("bob"), Some("1234"), Some("hash"));
    assert_eq!(info.username, "bob#1234");
    assert_eq!(info.avatar.as_deref(), Some("https://cdn.discordapp.com/avatars/3/hash.png"));
    assert_eq!(discord_user_url("3"), "https://discord.com/api/v10/users/3");
    assert_eq!(bot_authorization("t"), "Bot t");
}
