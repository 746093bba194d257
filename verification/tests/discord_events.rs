use backend::handlers::discord::authorized::{handle_authorized, parse_snowflake};
use backend::handlers::discord_events::authorized::handle_authorized as handle_signed_authorized;
use backend::handlers::discord_events::deauthorized::handle_deauthorized;
use backend::handlers::discord_events::handler::{
    check_discord_request, discord_event_action, verify_discord_signature, DiscordEventAction,
};
use backend::models::discord_events::{
    DiscordEvent, DiscordEventData, DiscordEventWrapper, DiscordGuild, DiscordUser,
};
use backend::routes::discord::{discord_event_route, DiscordRoute};
use backend::status::Status;
use ed25519_dalek::{Signer, SigningKey};

fn user(id: &str, avatar: Option<&str>) -> DiscordUser {
    DiscordUser {
        id: id.to_string(),
        username: "alice".to_string(),
        global_name: None,
        avatar: avatar.map(|a| a.to_string()),
        discriminator: None,
        public_flags: None,
        flags: None,
        banner: None,
        banner_color: None,
        accent_color: None,
        locale: None,
        mfa_enabled: None,
        premium_type: None,
    }
}

fn guild(id: &str, owner: Option<&str>) -> DiscordGuild {
    DiscordGuild {
        id: id.to_string(),
        name: "Guild".to_string(),
        icon: None,
        owner_id: owner.map(|o| o.to_string()),
    }
}

fn data(integration_type: Option<i32>, u: Option<DiscordUser>, g: Option<DiscordGuild>) -> DiscordEventData {
    DiscordEventData { integration_type, scopes: None, user: u, guild: g }
}

fn wrapper(event_type: i32, name: Option<&str>) -> DiscordEventWrapper {
    DiscordEventWrapper {
        version: Some(1),
        application_id: None,
        event_type,
        event: name.map(|n| DiscordEvent {
            event_name: n.to_string(),
            timestamp: "2024-01-01T00:00:00Z".to_string(),
            data: data(None, None, None),
        }),
    }
}

#[test]
fn parse_snowflake_rejects_non_numbers() {
    assert_eq!(parse_snowflake("80351110224678912"), Ok(80351110224678912));
    assert_eq!(parse_snowflake("abc"), Err(Status::BadRequest));
    assert_eq!(Status::BadRequest.code(), 400);
}

#[test]
fn authorization_registers_user_and_guild() {
    let d = data(Some(0), Some(user("42", Some("hash"))), Some(guild("7", Some("9"))));
    let plan = handle_authorized(&d).unwrap();
    let reg = plan.user.unwrap();
    assert_eq!(reg.user_id, 42);
    let discord = reg.providers.discord.unwrap();
    assert_eq!(discord.id, 42);
    assert_eq!(discord.username, "alice");
    assert_eq!(discord.avatar, "hash");
    assert!(reg.providers.fivem.is_none());
    let g = plan.guild.unwrap().unwrap();
    assert_eq!((g.guild_id, g.guild_name.as_str(), g.guild_owner), (7, "Guild", 9));
}

#[test]
fn authorization_with_bad_user_id_writes_nothing() {
    let d = data(Some(0), Some(user("x42", None)), Some(guild("7", None)));
    assert!(matches!(handle_authorized(&d), Err(Status::BadRequest)));
}

#[test]
fn guild_authorization_needs_a_guild() {
    let d = data(Some(0), Some(user("42", None)), None);
    let plan = handle_authorized(&d).unwrap();
    assert_eq!(plan.user.unwrap().providers.discord.unwrap().avatar, "");
    assert!(matches!(plan.guild, Err(Status::BadRequest)));
}

#[test]
fn guild_owner_defaults_to_zero_and_must_parse() {
    let plan = handle_authorized(&data(Some(0), None, Some(guild("7", None)))).unwrap();
    assert!(plan.user.is_none());
    assert_eq!(plan.guild.unwrap().unwrap().guild_owner, 0);
    let plan = handle_authorized(&data(Some(0), None, Some(guild("7", Some("owner"))))).unwrap();
    assert!(matches!(plan.guild, Err(Status::BadRequest)));
}

#[test]
fn user_authorization_touches_no_guild() {
    let plan = handle_authorized(&data(Some(1), Some(user("1", None)), Some(guild("7", None)))).unwrap();
    assert!(matches!(plan.guild, Ok(None)));
    let plan = handle_authorized(&data(None, None, Some(guild("bad", None)))).unwrap();
    assert!(matches!(plan.guild, Ok(None)));
}

#[test]
fn signed_authorization_keeps_text_ids_and_tolerates_missing_guild() {
    let d = data(Some(0), Some(user("42", Some("h"))), None);
    let plan = handle_signed_authorized(&d).unwrap();
    let reg = plan.user.unwrap();
    assert_eq!(reg.user_id, 42);
    let discord = reg.providers.discord.unwrap();
    assert_eq!((discord.id.as_str(), discord.avatar.as_str()), ("42", "h"));
    assert!(reg.providers.hardware_ids.is_empty());
    assert!(matches!(plan.guild, Ok(None)));
    let bad = data(Some(0), None, Some(guild("7", Some("x"))));
    assert!(matches!(handle_signed_authorized(&bad).unwrap().guild, Err(Status::BadRequest)));
    assert!(matches!(
        handle_signed_authorized(&data(None, Some(user("no", None)), None)),
        Err(Status::BadRequest)
    ));
}

#[test]
fn deauthorization_deactivates_named_guild() {
    assert_eq!(handle_deauthorized(&data(None, None, Some(guild("77", None)))), Ok(Some(77)));
    assert_eq!(handle_deauthorized(&data(None, None, Some(guild("g", None)))), Err(Status::BadRequest));
    assert_eq!(handle_deauthorized(&data(None, Some(user("1", None)), None)), Ok(None));
}

#[test]
fn events_are_dispatched_by_name() {
    assert_eq!(discord_event_action(&wrapper(1, Some("APPLICATION_AUTHORIZED"))), DiscordEventAction::Authorized);
    assert_eq!(discord_event_action(&wrapper(1, Some("APPLICATION_DEAUTHORIZED"))), DiscordEventAction::Deauthorized);
    assert_eq!(discord_event_action(&wrapper(1, Some("ENTITLEMENT_CREATE"))), DiscordEventAction::Ignore);
    assert_eq!(discord_event_action(&wrapper(1, None)), DiscordEventAction::Ignore);
}

#[test]
fn unsigned_route_answers_pings_and_rejects_empty_envelopes() {
    assert_eq!(discord_event_route(&wrapper(0, None)), DiscordRoute::Respond(Status::Success));
    assert_eq!(discord_event_route(&wrapper(1, None)), DiscordRoute::Respond(Status::BadRequest));
    assert_eq!(discord_event_route(&wrapper(1, Some("APPLICATION_AUTHORIZED"))), DiscordRoute::HandleAuthorized);
    assert_eq!(discord_event_route(&wrapper(1, Some("APPLICATION_DEAUTHORIZED"))), DiscordRoute::Respond(Status::Success));
}

fn signed(timestamp: &str, body: &[u8]) -> (String, String) {
    let key = SigningKey::from_bytes(&[7u8; 32]);
    let mut message = timestamp.as_bytes().to_vec();
    message.extend_from_slice(body);
    let signature = key.sign(&message);
    (hex::encode(key.verifying_key().to_bytes()), hex::encode(signature.to_bytes()))
}

#[test]
fn genuine_signature_is_accepted() {
    let (public_key, signature) = signed("1700000000", b"{\"type\":1}");
    assert!(verify_discord_signature(&public_key, &signature, "1700000000", b"{\"type\":1}"));
    assert!(verify_discord_signature(&public_key.to_uppercase(), &signature, "1700000000", b"{\"type\":1}"));
}

#[test]
fn tampered_or_malformed_signatures_are_rejected() {
    let (public_key, signature) = signed("1700000000", b"{\"type\":1}");
    assert!(!verify_discord_signature(&public_key, &signature, "1700000001", b"{\"type\":1}"));
    assert!(!verify_discord_signature(&public_key, &signature, "1700000000", b"{\"type\":2}"));
    assert!(!verify_discord_signature(&public_key, "zz", "1700000000", b"{\"type\":1}"));
    assert!(!verify_discord_signature(&public_key, &signature[..126], "1700000000", b"{\"type\":1}"));
    assert!(!verify_discord_signature("abc", &signature, "1700000000", b"{\"type\":1}"));
}

#[test]
fn request_check_statuses() {
    let body = b"{}";
    let (public_key, signature) = signed("5", body);
    assert_eq!(check_discord_request(Some(&signature), Some("5"), Some(&public_key), body), Ok(()));
    assert_eq!(check_discord_request(None, Some("5"), Some(&public_key), body), Err(Status::Unauthorized));
    assert_eq!(check_discord_request(Some(&signature), None, Some(&public_key), body), Err(Status::Unauthorized));
    assert_eq!(check_discord_request(Some(&signature), Some("5"), None, body), Err(Status::InternalServerError));
    assert_eq!(check_discord_request(Some(&signature), Some("6"), Some(&public_key), body), Err(Status::Unauthorized));
    assert_eq!(Status::Unauthorized.code(), 401);
    assert_eq!(Status::InternalServerError.code(), 500);
}

#[test]
fn short_key_with_unreadable_signature_is_unauthorized() {
    let body = b"{}";
    assert!(!verify_discord_signature("abcd", "not hex", "5", body));
    assert_eq!(check_discord_request(Some("not hex"), Some("5"), Some("abcd"), body), Err(Status::Unauthorized));
}
