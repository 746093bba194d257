//! OAuth2 callback of the Discord verification flow.

use vstd::prelude::*;

use vstd::string::StringSliceAdditionalSpecFns;

use vstd::utf8::encode_utf8;

use crate::text::{
    hex_digit_upper, hex_digit_upper_exec, parse_i64, push_char, push_str, spec_trim, text_i64,
    trim,
};

verus! {

/// Bytes that form-encoding keeps as they are: ASCII letters, digits and `-_.~`.
pub open spec fn is_unreserved(b: u8) -> bool {
    ||| (65 <= b && b <= 90)
    ||| (97 <= b && b <= 122)
    ||| (48 <= b && b <= 57)
    ||| b == 45
    ||| b == 95
    ||| b == 46
    ||| b == 126
}

/// What one byte becomes: itself, `+` for a space, `%XX` otherwise.
pub open spec fn encode_byte(b: u8) -> Seq<char> {
    if is_unreserved(b) {
        seq![b as char]
    } else if b == 32 {
        seq!['+']
    } else {
        seq!['%', hex_digit_upper(b / 16), hex_digit_upper(b % 16)]
    }
}

/// Form-encoding (`application/x-www-form-urlencoded`) of a byte string.
pub open spec fn spec_url_encode(bytes: Seq<u8>) -> Seq<char>
    decreases bytes.len(),
{
    if bytes.len() == 0 {
        Seq::empty()
    } else {
        encode_byte(bytes[0]) + spec_url_encode(bytes.drop_first())
    }
}

pub proof fn lemma_url_encode_append(a: Seq<u8>, b: Seq<u8>)
    ensures
        spec_url_encode(a + b) == spec_url_encode(a) + spec_url_encode(b),
    decreases a.len(),
{
    if a.len() == 0 {
        assert(a + b =~= b);
    } else {
        assert((a + b).drop_first() =~= a.drop_first() + b);
        lemma_url_encode_append(a.drop_first(), b);
    }
}

pub proof fn lemma_url_encode_one(b: u8)
    ensures
        spec_url_encode(seq![b]) == encode_byte(b),
{
    assert(seq![b].drop_first() =~= Seq::<u8>::empty());
    assert(spec_url_encode(Seq::<u8>::empty()) == Seq::<char>::empty());
    assert(encode_byte(b) + Seq::<char>::empty() =~= encode_byte(b));
}

/// The value of a hexadecimal digit (either case); zero for any other character.
pub open spec fn hex_value(c: char) -> u8 {
    if '0' <= c && c <= '9' {
        (c as u32 - 48) as u8
    } else if 'A' <= c && c <= 'F' {
        (c as u32 - 55) as u8
    } else if 'a' <= c && c <= 'f' {
        (c as u32 - 87) as u8
    } else {
        0
    }
}

/// Decoding of form-encoded text: `%XX` gives the byte `XX`, `+` a space, and any
/// other character its own code.
pub open spec fn spec_url_decode(s: Seq<char>) -> Seq<u8>
    decreases s.len(),
{
    if s.len() == 0 {
        Seq::empty()
    } else if s[0] == '%' && s.len() >= 3 {
        seq![(hex_value(s[1]) * 16 + hex_value(s[2])) as u8] + spec_url_decode(s.skip(3))
    } else if s[0] == '+' {
        seq![32u8] + spec_url_decode(s.drop_first())
    } else {
        seq![s[0] as u8] + spec_url_decode(s.drop_first())
    }
}

proof fn lemma_hex_value_of_digit(n: u8)
    requires
        n < 16,
    ensures
        hex_value(hex_digit_upper(n)) == n,
{
}

proof fn lemma_decode_encoded_byte(b: u8, rest: Seq<char>)
    ensures
        spec_url_decode(encode_byte(b) + rest) == seq![b] + spec_url_decode(rest),
{
    let s = encode_byte(b) + rest;
    if is_unreserved(b) {
        assert(s.drop_first() =~= rest);
        assert((b as char) as u8 == b);
    } else if b == 32 {
        assert(s.drop_first() =~= rest);
    } else {
        assert(s.skip(3) =~= rest);
        lemma_hex_value_of_digit(b / 16);
        lemma_hex_value_of_digit(b % 16);
        assert(s[1] == hex_digit_upper(b / 16));
        assert(s[2] == hex_digit_upper(b % 16));
        assert((b / 16) * 16 + b % 16 == b);
    }
}

/// Decoding undoes form-encoding: the encoding of a byte string decodes back to it.
pub proof fn lemma_url_decode_encode(bytes: Seq<u8>)
    ensures
        spec_url_decode(spec_url_encode(bytes)) == bytes,
    decreases bytes.len(),
{
    if bytes.len() == 0 {
    } else {
        lemma_url_decode_encode(bytes.drop_first());
        lemma_decode_encoded_byte(bytes[0], spec_url_encode(bytes.drop_first()));
        assert(seq![bytes[0]] + bytes.drop_first() =~= bytes);
    }
}

/// Form-encoding is injective: different byte strings never encode alike.
pub proof fn url_encode_injective(a: Seq<u8>, b: Seq<u8>)
    requires
        spec_url_encode(a) == spec_url_encode(b),
    ensures
        a == b,
{
    lemma_url_decode_encode(a);
    lemma_url_decode_encode(b);
}

/// The characters that form-encoding writes: unreserved ones, `+` and `%`.
pub open spec fn is_form_safe(c: char) -> bool {
    ||| ('A' <= c && c <= 'Z')
    ||| ('a' <= c && c <= 'z')
    ||| ('0' <= c && c <= '9')
    ||| c == '-'
    ||| c == '_'
    ||| c == '.'
    ||| c == '~'
    ||| c == '+'
    ||| c == '%'
}

/// Form-encoded text holds only form-safe characters, whatever the bytes.
pub proof fn url_encode_is_form_safe(bytes: Seq<u8>)
    ensures
        forall|i: int| 0 <= i < spec_url_encode(bytes).len() ==> is_form_safe(#[trigger] spec_url_encode(bytes)[i]),
    decreases bytes.len(),
{
    if bytes.len() > 0 {
        url_encode_is_form_safe(bytes.drop_first());
        let head = encode_byte(bytes[0]);
        let tail = spec_url_encode(bytes.drop_first());
        assert forall|i: int| 0 <= i < spec_url_encode(bytes).len() implies is_form_safe(#[trigger] spec_url_encode(bytes)[i]) by {
            if i < head.len() {
                assert(spec_url_encode(bytes)[i] == head[i]);
            } else {
                assert(spec_url_encode(bytes)[i] == tail[i - head.len()]);
            }
        }
    }
}

/// Form-encodes the UTF-8 bytes of `value`.
pub fn url_encode(value: &str) -> (encoded: String)
    ensures
        encoded@ == spec_url_encode(value.spec_bytes()),
{
    let bytes = value.as_bytes();
    let mut out = String::new();
    let mut i: usize = 0;
    while i < bytes.len()
        invariant
            i <= bytes@.len(),
            bytes@ == value.spec_bytes(),
            out@ == spec_url_encode(bytes@.take(i as int)),
        decreases bytes@.len() - i,
    {
        let b = bytes[i];
        proof {
            assert(bytes@.take(i + 1) =~= bytes@.take(i as int) + seq![b]);
            lemma_url_encode_append(bytes@.take(i as int), seq![b]);
            lemma_url_encode_one(b);
        }
        if (65 <= b && b <= 90) || (97 <= b && b <= 122) || (48 <= b && b <= 57) || b == 45
            || b == 95 || b == 46 || b == 126 {
            push_char(&mut out, b as char);
        } else if b == 32 {
            push_char(&mut out, '+');
        } else {
            push_char(&mut out, '%');
            push_char(&mut out, hex_digit_upper_exec(b / 16));
            push_char(&mut out, hex_digit_upper_exec(b % 16));
        }
        i = i + 1;
    }
    proof {
        assert(bytes@.take(bytes@.len() as int) =~= bytes@);
    }
    out
}

/// Where the flow ends when the user is verified.
pub const REDIRECT_SUCCESS: &'static str = "https://outed.dev/discord/verified-project-outed";

/// Where the flow ends on failure; the form-encoded message follows.
pub const REDIRECT_ERROR_BASE: &'static str = "https://outed.dev/verification/error?message=";

/// The redirect URI registered with Discord for this flow.
pub const DISCORD_REDIRECT_URI: &'static str = "https://backend.outed.dev/callback/discord";

/// Discord's OAuth2 token endpoint.
pub const DISCORD_TOKEN_URL: &'static str = "https://discord.com/api/oauth2/token";

/// The content type of the token request's body.
pub const FORM_CONTENT_TYPE: &'static str = "application/x-www-form-urlencoded";

/// Discord's endpoint for the user that a bearer token belongs to.
pub const DISCORD_USER_URL: &'static str = "https://discord.com/api/users/@me";

/// Base of Discord's REST API.
pub const DISCORD_API_BASE: &'static str = "https://discord.com/api/v10";

/// Form-encoding of a text's UTF-8 bytes.
pub open spec fn enc(s: Seq<char>) -> Seq<char> {
    spec_url_encode(encode_utf8(s))
}

/// The error page for a message.
pub open spec fn error_location(message: Seq<char>) -> Seq<char> {
    REDIRECT_ERROR_BASE@ + enc(message)
}

/// The error page that reports `message`.
pub fn redirect_error(message: &str) -> (location: String)
    ensures
        location@ == error_location(message@),
{
    let mut location = String::new();
    push_str(&mut location, REDIRECT_ERROR_BASE);
    let encoded = url_encode(message);
    push_str(&mut location, encoded.as_str());
    proof {
        assert(location@ =~= error_location(message@));
    }
    location
}

/// The query string of the callback.
#[derive(Debug)]
pub struct DiscordCallbackQuery {
    pub code: Option<String>,
}

/// The string fields of the token endpoint's JSON answer (`None` when a field is
/// absent or not a string).
#[derive(Debug)]
pub struct TokenBody {
    pub error_description: Option<String>,
    pub error: Option<String>,
    pub access_token: Option<String>,
}

/// The string fields of the `users/@me` JSON answer.
#[derive(Debug)]
pub struct UserBody {
    pub message: Option<String>,
    pub id: Option<String>,
    pub email: Option<String>,
    pub username: Option<String>,
    pub avatar: Option<String>,
}

/// How a request that answers JSON went.
#[derive(Debug)]
pub enum JsonReply<T> {
    /// The request could not be sent, or no answer came.
    SendFailed,
    /// An answer came, but its body was not JSON.
    Unreadable,
    /// A JSON answer, with whether its status was a success.
    Received { success: bool, body: T },
}

/// How the role assignment went.
#[derive(Debug)]
pub enum RoleReply {
    SendFailed,
    Assigned,
    /// A non-success answer, with its body text.
    Refused { body: String },
}

/// What the flow knows of the Discord user once the user info is read.
#[derive(Debug)]
pub struct DiscordProfile {
    pub discord_id: String,
    pub email: Option<String>,
    pub username: String,
    pub avatar_hash: String,
}

/// Where the callback flow stands.
#[derive(Debug)]
pub enum CallbackState {
    Start,
    AwaitCredentials { code: String },
    AwaitToken,
    AwaitUser,
    AwaitRoleConfig { profile: DiscordProfile },
    AwaitRoleAssignment { profile: DiscordProfile },
    AwaitUserRecord,
    Done,
}

/// What the environment reports back to the flow.
#[derive(Debug)]
pub enum CallbackEvent {
    Query(DiscordCallbackQuery),
    /// `BOT_CLIENT` and `BOT_SECRET`, empty when unset.
    Credentials { client_id: String, client_secret: String },
    TokenReply(JsonReply<TokenBody>),
    UserReply(JsonReply<UserBody>),
    /// `GUILD_MAIN`, `DISCORD_ROLE_VERIFIED` and `BOT_TOKEN`, empty when unset.
    RoleConfig { guild_id: String, role_id: String, bot_token: String },
    RoleReply(RoleReply),
    /// The user record was written, or writing it failed (which is only logged).
    UserSaved,
}

/// What the flow asks the environment to do next.
#[derive(Debug)]
pub enum CallbackAction {
    ReadCredentials,
    /// POST this body, of this content type, to this URL (Discord's token endpoint).
    RequestToken { url: String, content_type: String, body: String },
    /// GET this URL (Discord's `users/@me`) with this bearer token.
    RequestUser { url: String, access_token: String },
    ReadRoleConfig,
    /// PUT to this URL with the bot token.
    AssignRole { url: String, bot_token: String },
    /// Upsert the user as verified, with this Discord account.
    SaveUser {
        user_id: i64,
        email: Option<String>,
        discord_id: String,
        username: String,
        avatar_url: String,
    },
    /// Answer with a temporary redirect here; the flow is over.
    Redirect { location: String },
}

/// Which event each state waits for.
pub open spec fn expects(state: CallbackState, event: CallbackEvent) -> bool {
    match state {
        CallbackState::Start => event is Query,
        CallbackState::AwaitCredentials { .. } => event is Credentials,
        CallbackState::AwaitToken => event is TokenReply,
        CallbackState::AwaitUser => event is UserReply,
        CallbackState::AwaitRoleConfig { .. } => event is RoleConfig,
        CallbackState::AwaitRoleAssignment { .. } => event is RoleReply,
        CallbackState::AwaitUserRecord => event is UserSaved,
        CallbackState::Done => false,
    }
}

pub open spec fn text_of(s: Option<String>) -> Seq<char> {
    match s {
        Some(t) => t@,
        None => Seq::empty(),
    }
}

/// The form body of the token request.
pub open spec fn token_request_body(client_id: Seq<char>, client_secret: Seq<char>, code: Seq<char>) -> Seq<char> {
    "client_id="@ + enc(client_id) + "&client_secret="@ + enc(client_secret)
        + "&grant_type=authorization_code&code="@ + enc(code) + "&redirect_uri="@ + enc(
        DISCORD_REDIRECT_URI@,
    )
}

/// The URL that grants the verified role to a member.
pub open spec fn role_url(guild_id: Seq<char>, discord_id: Seq<char>, role_id: Seq<char>) -> Seq<char> {
    DISCORD_API_BASE@ + "/guilds/"@ + guild_id + "/members/"@ + discord_id + "/roles/"@ + role_id
}

/// The avatar image of a user, empty without an avatar.
pub open spec fn avatar_url(discord_id: Seq<char>, avatar_hash: Seq<char>) -> Seq<char> {
    if avatar_hash.len() > 0 {
        "https://cdn.discordapp.com/avatars/"@ + discord_id + "/"@ + avatar_hash + ".png"@
    } else {
        Seq::empty()
    }
}

/// The message of a refused token request.
pub open spec fn token_error_message(body: TokenBody) -> Seq<char> {
    match body.error_description {
        Some(d) => d@,
        None => match body.error {
            Some(e) => e@,
            None => "Unknown error"@,
        },
    }
}

/// The redirect that ends the flow with `message`.
pub open spec fn is_error_redirect(action: CallbackAction, message: Seq<char>) -> bool {
    action matches CallbackAction::Redirect { location } && location@ == error_location(message)
}

/// The redirect that ends the flow on the success page.
pub open spec fn is_success_redirect(action: CallbackAction) -> bool {
    action matches CallbackAction::Redirect { location } && location@ == REDIRECT_SUCCESS@
}

/// No error page is the success page.
pub proof fn error_location_is_not_success(message: Seq<char>)
    ensures
        error_location(message) != REDIRECT_SUCCESS@,
{
    reveal_strlit("https://outed.dev/verification/error?message=");
    reveal_strlit("https://outed.dev/discord/verified-project-outed");
    assert(error_location(message)[18] == 'v');
    assert(REDIRECT_SUCCESS@[18] == 'd');
}

fn error_step(message: &str) -> (r: (CallbackState, CallbackAction))
    ensures
        r.0 is Done,
        is_error_redirect(r.1, message@),
        !is_success_redirect(r.1),
{
    proof {
        error_location_is_not_success(message@);
    }
    (CallbackState::Done, CallbackAction::Redirect { location: redirect_error(message) })
}

fn non_empty(s: &Option<String>) -> (r: Option<&String>)
    ensures
        r is Some <==> (s is Some && s->0@.len() > 0),
        r matches Some(t) ==> *t == s->0,
{
    match s {
        Some(t) => if t.as_str().is_empty() {
            None
        } else {
            Some(t)
        },
        None => None,
    }
}

fn clone_text(s: &Option<String>) -> (r: Option<String>)
    ensures
        r == *s,
{
    match s {
        Some(t) => Some(t.clone()),
        None => None,
    }
}

fn text_or(s: &Option<String>, default: &str) -> (r: String)
    ensures
        r@ == (match *s {
            Some(t) => t@,
            None => default@,
        }),
{
    match s {
        Some(t) => t.clone(),
        None => {
            let mut d = String::new();
            push_str(&mut d, default);
            d
        },
    }
}

/// One step of the OAuth2 callback: the code is exchanged for a token, the token
/// for the user's id, the verified role is granted in the main guild, and the user
/// is recorded as verified; the first failure ends the flow on the error page with
/// its message.
pub fn discord_callback_step(state: CallbackState, event: CallbackEvent) -> (r: (CallbackState, CallbackAction))
    requires
        expects(state, event),
    ensures
        // The query: a code that is blank after trimming ends the flow.
        event matches CallbackEvent::Query(q) ==> {
            let code = spec_trim(text_of(q.code));
            if code.len() == 0 {
                r.0 is Done && is_error_redirect(r.1, "Missing authorization code"@)
            } else {
                &&& r.0 matches CallbackState::AwaitCredentials { code: c } && c@ == code
                &&& r.1 is ReadCredentials
            }
        },
        // Credentials: both must be set; then the token is requested.
        state matches CallbackState::AwaitCredentials { code } ==> event matches CallbackEvent::Credentials { client_id, client_secret } ==> {
            if client_id@.len() == 0 || client_secret@.len() == 0 {
                r.0 is Done && is_error_redirect(
                    r.1,
                    "Discord OAuth client credentials are not configured"@,
                )
            } else {
                &&& r.0 is AwaitToken
                &&& r.1 matches CallbackAction::RequestToken { url, content_type, body }
                    && url@ == DISCORD_TOKEN_URL@ && content_type@ == FORM_CONTENT_TYPE@
                    && body@ == token_request_body(client_id@, client_secret@, code@)
            }
        },
        // The token answer.
        event matches CallbackEvent::TokenReply(reply) ==> match reply {
            JsonReply::SendFailed => r.0 is Done && is_error_redirect(r.1, "Communication error occurred"@),
            JsonReply::Unreadable => r.0 is Done && is_error_redirect(r.1, "Failed to read Discord token response"@),
            JsonReply::Received { success, body } => if !success {
                r.0 is Done && is_error_redirect(r.1, token_error_message(body))
            } else if text_of(body.access_token).len() == 0 {
                r.0 is Done && is_error_redirect(r.1, "Failed to retrieve access token"@)
            } else {
                &&& r.0 is AwaitUser
                &&& r.1 matches CallbackAction::RequestUser { url, access_token } && url@ == DISCORD_USER_URL@
                    && access_token@ == text_of(body.access_token)
            },
        },
        // The user answer.
        event matches CallbackEvent::UserReply(reply) ==> match reply {
            JsonReply::SendFailed => r.0 is Done && is_error_redirect(r.1, "Communication error occurred"@),
            JsonReply::Unreadable => r.0 is Done && is_error_redirect(r.1, "Failed to read Discord user info"@),
            JsonReply::Received { success, body } => if !success {
                r.0 is Done && is_error_redirect(
                    r.1,
                    match body.message {
                        Some(m) => m@,
                        None => "Discord API returned an error"@,
                    },
                )
            } else if text_of(body.id).len() == 0 {
                r.0 is Done && is_error_redirect(r.1, "Discord user ID is missing"@)
            } else {
                &&& r.0 matches CallbackState::AwaitRoleConfig { profile }
                &&& profile.discord_id@ == text_of(body.id)
                &&& profile.email == body.email
                &&& profile.username@ == (match body.username {
                    Some(u) => u@,
                    None => "Unknown"@,
                })
                &&& profile.avatar_hash@ == text_of(body.avatar)
                &&& r.1 is ReadRoleConfig
            },
        },
        // The role configuration: all three must be set.
        state matches CallbackState::AwaitRoleConfig { profile } ==> event matches CallbackEvent::RoleConfig { guild_id, role_id, bot_token } ==> {
            if guild_id@.len() == 0 || role_id@.len() == 0 || bot_token@.len() == 0 {
                r.0 is Done && is_error_redirect(
                    r.1,
                    "Discord guild role configuration is not complete"@,
                )
            } else {
                &&& r.0 matches CallbackState::AwaitRoleAssignment { profile: p } && p == profile
                &&& r.1 matches CallbackAction::AssignRole { url, bot_token: t } && url@ == role_url(
                    guild_id@,
                    profile.discord_id@,
                    role_id@,
                ) && t == bot_token
            }
        },
        // The role assignment; once granted, the user is recorded.
        state matches CallbackState::AwaitRoleAssignment { profile } ==> event matches CallbackEvent::RoleReply(reply) ==> match reply {
            RoleReply::SendFailed => r.0 is Done && is_error_redirect(r.1, "Communication error occurred"@),
            RoleReply::Refused { body } => r.0 is Done && is_error_redirect(r.1, "Failed to add role: "@ + body@),
            RoleReply::Assigned => {
                &&& r.0 is AwaitUserRecord
                &&& r.1 matches CallbackAction::SaveUser { user_id, email, discord_id, username, avatar_url: a }
                &&& user_id == (match text_i64(profile.discord_id@) {
                    Some(n) => n,
                    None => 0,
                })
                &&& email == profile.email
                &&& discord_id == profile.discord_id
                &&& username == profile.username
                &&& a@ == avatar_url(profile.discord_id@, profile.avatar_hash@)
            },
        },
        // Recorded: the flow ends on the success page.
        event is UserSaved ==> r.0 is Done && is_success_redirect(r.1),
        // The success page is reached only once the user is recorded, which only
        // follows a granted role.
        is_success_redirect(r.1) ==> state is AwaitUserRecord,
        r.0 is AwaitUserRecord ==> state is AwaitRoleAssignment && event == CallbackEvent::RoleReply(RoleReply::Assigned),
{
    match (state, event) {
        (CallbackState::Start, CallbackEvent::Query(q)) => {
            let code = match &q.code {
                Some(c) => trim(c.as_str()),
                None => String::new(),
            };
            if code.as_str().is_empty() {
                return error_step("Missing authorization code");
            }
            (CallbackState::AwaitCredentials { code }, CallbackAction::ReadCredentials)
        },
        (
            CallbackState::AwaitCredentials { code },
            CallbackEvent::Credentials { client_id, client_secret },
        ) => {
            if client_id.as_str().is_empty() || client_secret.as_str().is_empty() {
                return error_step("Discord OAuth client credentials are not configured");
            }
            let mut body = String::new();
            push_str(&mut body, "client_id=");
            push_str(&mut body, url_encode(client_id.as_str()).as_str());
            push_str(&mut body, "&client_secret=");
            push_str(&mut body, url_encode(client_secret.as_str()).as_str());
            push_str(&mut body, "&grant_type=authorization_code&code=");
            push_str(&mut body, url_encode(code.as_str()).as_str());
            push_str(&mut body, "&redirect_uri=");
            push_str(&mut body, url_encode(DISCORD_REDIRECT_URI).as_str());
            proof {
                assert(body@ =~= token_request_body(client_id@, client_secret@, code@));
            }
            (
                CallbackState::AwaitToken,
                CallbackAction::RequestToken {
                    url: DISCORD_TOKEN_URL.to_owned(),
                    content_type: FORM_CONTENT_TYPE.to_owned(),
                    body,
                },
            )
        },
        (CallbackState::AwaitToken, CallbackEvent::TokenReply(reply)) => {
            match reply {
                JsonReply::SendFailed => error_step("Communication error occurred"),
                JsonReply::Unreadable => error_step("Failed to read Discord token response"),
                JsonReply::Received { success, body } => {
                    if !success {
                        let message = match &body.error_description {
                            Some(d) => d.clone(),
                            None => text_or(&body.error, "Unknown error"),
                        };
                        return error_step(message.as_str());
                    }
                    match non_empty(&body.access_token) {
                        Some(t) => (
                            CallbackState::AwaitUser,
                            CallbackAction::RequestUser {
                                url: DISCORD_USER_URL.to_owned(),
                                access_token: t.clone(),
                            },
                        ),
                        None => error_step("Failed to retrieve access token"),
                    }
                },
            }
        },
        (CallbackState::AwaitUser, CallbackEvent::UserReply(reply)) => {
            match reply {
                JsonReply::SendFailed => error_step("Communication error occurred"),
                JsonReply::Unreadable => error_step("Failed to read Discord user info"),
                JsonReply::Received { success, body } => {
                    if !success {
                        let message = text_or(&body.message, "Discord API returned an error");
                        return error_step(message.as_str());
                    }
                    match non_empty(&body.id) {
                        Some(id) => {
                            proof {
                                reveal_strlit("");
                            }
                            let profile = DiscordProfile {
                                discord_id: id.clone(),
                                email: clone_text(&body.email),
                                username: text_or(&body.username, "Unknown"),
                                avatar_hash: text_or(&body.avatar, ""),
                            };
                            (CallbackState::AwaitRoleConfig { profile }, CallbackAction::ReadRoleConfig)
                        },
                        None => error_step("Discord user ID is missing"),
                    }
                },
            }
        },
        (
            CallbackState::AwaitRoleConfig { profile },
            CallbackEvent::RoleConfig { guild_id, role_id, bot_token },
        ) => {
            if guild_id.as_str().is_empty() || role_id.as_str().is_empty()
                || bot_token.as_str().is_empty() {
                return error_step("Discord guild role configuration is not complete");
            }
            let mut url = String::new();
            push_str(&mut url, DISCORD_API_BASE);
            push_str(&mut url, "/guilds/");
            push_str(&mut url, guild_id.as_str());
            push_str(&mut url, "/members/");
            push_str(&mut url, profile.discord_id.as_str());
            push_str(&mut url, "/roles/");
            push_str(&mut url, role_id.as_str());
            proof {
                assert(url@ =~= role_url(guild_id@, profile.discord_id@, role_id@));
            }
            (
                CallbackState::AwaitRoleAssignment { profile },
                CallbackAction::AssignRole { url, bot_token },
            )
        },
        (CallbackState::AwaitRoleAssignment { profile }, CallbackEvent::RoleReply(reply)) => {
            match reply {
                RoleReply::SendFailed => error_step("Communication error occurred"),
                RoleReply::Refused { body } => {
                    let mut message = String::new();
                    push_str(&mut message, "Failed to add role: ");
                    push_str(&mut message, body.as_str());
                    error_step(message.as_str())
                },
                RoleReply::Assigned => {
                    let mut avatar = String::new();
                    if !profile.avatar_hash.as_str().is_empty() {
                        push_str(&mut avatar, "https://cdn.discordapp.com/avatars/");
                        push_str(&mut avatar, profile.discord_id.as_str());
                        push_str(&mut avatar, "/");
                        push_str(&mut avatar, profile.avatar_hash.as_str());
                        push_str(&mut avatar, ".png");
                    }
                    proof {
                        assert(avatar@ =~= avatar_url(profile.discord_id@, profile.avatar_hash@));
                    }
                    let user_id = match parse_i64(profile.discord_id.as_str()) {
                        Some(n) => n,
                        None => 0,
                    };
                    let DiscordProfile { discord_id, email, username, avatar_hash: _ } = profile;
                    (
                        CallbackState::AwaitUserRecord,
                        CallbackAction::SaveUser {
                            user_id,
                            email,
                            discord_id,
                            username,
                            avatar_url: avatar,
                        },
                    )
                },
            }
        },
        (CallbackState::AwaitUserRecord, CallbackEvent::UserSaved) => {
            let mut location = String::new();
            push_str(&mut location, REDIRECT_SUCCESS);
            (CallbackState::Done, CallbackAction::Redirect { location })
        },
        _ => {
            proof {
                assert(false);
            }
            (CallbackState::Done, CallbackAction::ReadCredentials)
        },
    }
}

} // verus!
