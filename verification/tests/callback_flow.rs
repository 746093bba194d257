use backend::handlers::callbacks::discord::{
    discord_callback_step, CallbackAction, CallbackEvent, CallbackState, DiscordCallbackQuery,
    JsonReply, RoleReply, TokenBody, UserBody, REDIRECT_SUCCESS,
};

fn error_page(message_encoded: &str) -> String {
    format!("https://outed.dev/verification/error?message={}", message_encoded)
}

fn redirect_of(action: CallbackAction) -> String {
    match action {
        CallbackAction::Redirect { location } => location,
        other => panic!("expected a redirect, got {:?}", other),
    }
}

fn start(code: Option<&str>) -> (CallbackState, CallbackAction) {
    discord_callback_step(
        CallbackState::Start,
        CallbackEvent::Query(DiscordCallbackQuery { code: code.map(|c| c.to_string()) }),
    )
}

fn token_ok(token: &str) -> CallbackEvent {
    CallbackEvent::TokenReply(JsonReply::Received {
        success: true,
        body: TokenBody { error_description: None, error: None, access_token: Some(token.to_string()) },
    })
}

fn user_ok(id: &str, avatar: Option<&str>) -> CallbackEvent {
    CallbackEvent::UserReply(JsonReply::Received {
        success: true,
        body: UserBody {
            message: None,
            id: Some(id.to_string()),
            email: Some("a@b.c".to_string()),
            username: Some("alice".to_string()),
            avatar: avatar.map(|a| a.to_string()),
        },
    })
}

fn role_config() -> CallbackEvent {
    CallbackEvent::RoleConfig {
        guild_id: "100".to_string(),
        role_id: "200".to_string(),
        bot_token: "tok".to_string(),
    }
}

#[test]
fn callback_happy_path_ends_on_success_page() {
    let (s, a) = start(Some("  abc def "));
    assert!(matches!(a, CallbackAction::ReadCredentials));
    let (s, a) = discord_callback_step(
        s,
        CallbackEvent::Credentials { client_id: "id".to_string(), client_secret: "s&cret".to_string() },
    );
    match a {
        CallbackAction::RequestToken { url, content_type, body } => {
            assert_eq!(url, "https://discord.com/api/oauth2/token");
            assert_eq!(content_type, "application/x-www-form-urlencoded");
            assert_eq!(
                body,
                "client_id=id&client_secret=s%26cret&grant_type=authorization_code&code=abc+def&redirect_uri=https%3A%2F%2Fbackend.outed.dev%2Fcallback%2Fdiscord"
            );
        }
        other => panic!("{:?}", other),
    }
    let (s, a) = discord_callback_step(s, token_ok("AT"));
    assert!(matches!(a, CallbackAction::RequestUser { ref url, ref access_token }
        if url == "https://discord.com/api/users/@me" && access_token == "AT"));
    let (s, a) = discord_callback_step(s, user_ok("12345", Some("av")));
    assert!(matches!(a, CallbackAction::ReadRoleConfig));
    let (s, a) = discord_callback_step(s, role_config());
    match a {
        CallbackAction::AssignRole { url, bot_token } => {
            assert_eq!(url, "https://discord.com/api/v10/guilds/100/members/12345/roles/200");
            assert_eq!(bot_token, "tok");
        }
        other => panic!("{:?}", other),
    }
    let (s, a) = discord_callback_step(s, CallbackEvent::RoleReply(RoleReply::Assigned));
    match a {
        CallbackAction::SaveUser { user_id, email, discord_id, username, avatar_url } => {
            assert_eq!(user_id, 12345);
            assert_eq!(email.as_deref(), Some("a@b.c"));
            assert_eq!(discord_id, "12345");
            assert_eq!(username, "alice");
            assert_eq!(avatar_url, "https://cdn.discordapp.com/avatars/12345/av.png");
        }
        other => panic!("{:?}", other),
    }
    let (s, a) = discord_callback_step(s, CallbackEvent::UserSaved);
    assert!(matches!(s, CallbackState::Done));
    assert_eq!(redirect_of(a), REDIRECT_SUCCESS);
}

#[test]
fn blank_code_is_missing() {
    for code in [None, Some(""), Some(" \t ")] {
        let (s, a) = start(code);
        assert!(matches!(s, CallbackState::Done));
        assert_eq!(redirect_of(a), error_page("Missing+authorization+code"));
    }
}

#[test]
fn missing_credentials_end_the_flow() {
    let (s, _) = start(Some("c"));
    let (_, a) = discord_callback_step(
        s,
        CallbackEvent::Credentials { client_id: String::new(), client_secret: "x".to_string() },
    );
    assert_eq!(redirect_of(a), error_page("Discord+OAuth+client+credentials+are+not+configured"));
}

fn at_token() -> CallbackState {
    CallbackState::AwaitToken
}

#[test]
fn token_failures_are_reported() {
    let (_, a) = discord_callback_step(at_token(), CallbackEvent::TokenReply(JsonReply::SendFailed));
    assert_eq!(redirect_of(a), error_page("Communication+error+occurred"));
    let (_, a) = discord_callback_step(at_token(), CallbackEvent::TokenReply(JsonReply::Unreadable));
    assert_eq!(redirect_of(a), error_page("Failed+to+read+Discord+token+response"));
    let refused = |d: Option<&str>, e: Option<&str>| {
        CallbackEvent::TokenReply(JsonReply::Received {
            success: false,
            body: TokenBody {
                error_description: d.map(|s| s.to_string()),
                error: e.map(|s| s.to_string()),
                access_token: Some("ignored".to_string()),
            },
        })
    };
    let (_, a) = discord_callback_step(at_token(), refused(Some("Invalid \"code\""), Some("invalid_grant")));
    assert_eq!(redirect_of(a), error_page("Invalid+%22code%22"));
    let (_, a) = discord_callback_step(at_token(), refused(None, Some("invalid_grant")));
    assert_eq!(redirect_of(a), error_page("invalid_grant"));
    let (_, a) = discord_callback_step(at_token(), refused(None, None));
    assert_eq!(redirect_of(a), error_page("Unknown+error"));
    let (_, a) = discord_callback_step(at_token(), token_ok(""));
    assert_eq!(redirect_of(a), error_page("Failed+to+retrieve+access+token"));
}

#[test]
fn user_failures_are_reported() {
    let (_, a) = discord_callback_step(CallbackState::AwaitUser, CallbackEvent::UserReply(JsonReply::Unreadable));
    assert_eq!(redirect_of(a), error_page("Failed+to+read+Discord+user+info"));
    let refused = CallbackEvent::UserReply(JsonReply::Received {
        success: false,
        body: UserBody { message: None, id: Some("1".to_string()), email: None, username: None, avatar: None },
    });
    let (_, a) = discord_callback_step(CallbackState::AwaitUser, refused);
    assert_eq!(redirect_of(a), error_page("Discord+API+returned+an+error"));
    let (_, a) = discord_callback_step(CallbackState::AwaitUser, user_ok("", None));
    assert_eq!(redirect_of(a), error_page("Discord+user+ID+is+missing"));
}

#[test]
fn role_failures_are_reported_and_defaults_apply() {
    let (s, _) = discord_callback_step(CallbackState::AwaitUser, user_ok("x1", None));
    let (_, a) = discord_callback_step(
        s,
        CallbackEvent::RoleConfig { guild_id: "1".to_string(), role_id: String::new(), bot_token: "t".to_string() },
    );
    assert_eq!(redirect_of(a), error_page("Discord+guild+role+configuration+is+not+complete"));

    let (s, _) = discord_callback_step(CallbackState::AwaitUser, user_ok("x1", None));
    let (s, _) = discord_callback_step(s, role_config());
    let (_, a) = discord_callback_step(s, CallbackEvent::RoleReply(RoleReply::Refused { body: "Missing Access".to_string() }));
    assert_eq!(redirect_of(a), error_page("Failed+to+add+role%3A+Missing+Access"));

    let (s, _) = discord_callback_step(CallbackState::AwaitUser, user_ok("x1", None));
    let (s, _) = discord_callback_step(s, role_config());
    let (_, a) = discord_callback_step(s, CallbackEvent::RoleReply(RoleReply::SendFailed));
    assert_eq!(redirect_of(a), error_page("Communication+error+occurred"));

    let (s, _) = discord_callback_step(CallbackState::AwaitUser, user_ok("x1", None));
    let (s, _) = discord_callback_step(s, role_config());
    let (_, a) = discord_callback_step(s, CallbackEvent::RoleReply(RoleReply::Assigned));
    match a {
        CallbackAction::SaveUser { user_id, avatar_url, .. } => {
            assert_eq!(user_id, 0);
            assert_eq!(avatar_url, "");
        }
        other => panic!("{:?}", other),
    }
}
