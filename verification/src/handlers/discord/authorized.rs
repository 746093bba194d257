//! The `APPLICATION_AUTHORIZED` webhook event: who authorized the application, and
//! for which guild.

use vstd::prelude::*;

use crate::models::discord_events::DiscordEventData;
use crate::models::user::providers::{DiscordProvider, Providers};
use crate::status::Status;
use crate::text::{parse_i64, text_i64};

verus! {

/// Parses a Discord id (a "snowflake", decimal text); text that is not an `i64`
/// is a bad request.
pub fn parse_snowflake(value: &str) -> (r: Result<i64, Status>)
    ensures
        r == (match text_i64(value@) {
            Some(n) => Ok(n),
            None => Err(Status::BadRequest),
        }),
{
    match parse_i64(value) {
        Some(n) => Ok(n),
        None => Err(Status::BadRequest),
    }
}

/// The user record to create, unless one exists already (verified, trust score 100).
#[derive(Debug)]
pub struct UserRegistration {
    pub user_id: i64,
    pub providers: Providers,
}

/// The guild record to create or refresh, marked active.
#[derive(Debug)]
pub struct GuildAuthorization {
    pub guild_id: i64,
    pub guild_name: String,
    pub guild_owner: i64,
}

/// What an authorization event asks of the database, in order: first the user,
/// then the guild step, which may still fail once the user is written.
#[derive(Debug)]
pub struct AuthorizedPlan {
    pub user: Option<UserRegistration>,
    pub guild: Result<Option<GuildAuthorization>, Status>,
}

/// The text of an optional string, empty when absent.
pub open spec fn text_or_empty(s: Option<String>) -> Seq<char> {
    match s {
        Some(t) => t@,
        None => Seq::empty(),
    }
}

/// The guild step of an authorization: a guild authorization (integration type 0)
/// must carry a guild whose id, and owner id when given, are `i64` text; the owner
/// defaults to 0. Other integration types touch no guild.
pub open spec fn guild_step_ok(data: DiscordEventData, g: Option<GuildAuthorization>) -> bool {
    match data.integration_type {
        Some(t) => if t == 0 {
            match data.guild {
                Some(guild) => {
                    &&& g matches Some(a)
                    &&& text_i64(guild.id@) == Some(a.guild_id)
                    &&& a.guild_name == guild.name
                    &&& a.guild_owner == (match guild.owner_id {
                        Some(o) => text_i64(o@)->0,
                        None => 0,
                    })
                },
                None => false,
            }
        } else {
            g is None
        },
        None => g is None,
    }
}

/// Whether the guild step of an authorization is rejected as a bad request.
pub open spec fn guild_step_rejected(data: DiscordEventData) -> bool {
    &&& data.integration_type == Some(0i32)
    &&& match data.guild {
        Some(guild) => text_i64(guild.id@) is None || (guild.owner_id matches Some(o)
            && text_i64(o@) is None),
        None => true,
    }
}

fn guild_step(data: &DiscordEventData) -> (r: Result<Option<GuildAuthorization>, Status>)
    ensures
        guild_step_rejected(*data) <==> r is Err,
        r is Err ==> r == Err::<Option<GuildAuthorization>, Status>(Status::BadRequest),
        r matches Ok(g) ==> guild_step_ok(*data, g),
{
    match data.integration_type {
        Some(0) => {
            let guild = match &data.guild {
                Some(g) => g,
                None => {
                    return Err(Status::BadRequest);
                },
            };
            let guild_id = parse_snowflake(guild.id.as_str())?;
            let guild_owner = match &guild.owner_id {
                Some(o) => parse_snowflake(o.as_str())?,
                None => 0,
            };
            Ok(Some(GuildAuthorization { guild_id, guild_name: guild.name.clone(), guild_owner }))
        },
        _ => Ok(None),
    }
}

/// Decides what an authorization event writes. A user whose id is not `i64` text
/// rejects the whole event as a bad request before anything is written; otherwise
/// the user is registered with their Discord account, then the guild step follows.
pub fn handle_authorized(data: &DiscordEventData) -> (r: Result<AuthorizedPlan, Status>)
    ensures
        r is Err <==> (data.user matches Some(u) && text_i64(u.id@) is None),
        r is Err ==> r == Err::<AuthorizedPlan, Status>(Status::BadRequest),
        r matches Ok(plan) ==> {
            &&& plan.user is Some <==> data.user is Some
            &&& plan.user matches Some(reg) ==> {
                let u = data.user->0;
                &&& text_i64(u.id@) == Some(reg.user_id)
                &&& reg.providers.discord matches Some(d)
                &&& d.id == reg.user_id
                &&& d.username == u.username
                &&& d.avatar@ == text_or_empty(u.avatar)
                &&& d.added_at is None
                &&& d.updated_at is None
                &&& reg.providers.fivem is None
                &&& reg.providers.steam is None
                &&& reg.providers.microsoft is None
                &&& reg.providers.network is None
            }
            &&& guild_step_rejected(*data) <==> plan.guild is Err
            &&& plan.guild is Err ==> plan.guild == Err::<Option<GuildAuthorization>, Status>(
                Status::BadRequest,
            )
            &&& plan.guild matches Ok(g) ==> guild_step_ok(*data, g)
        },
{
    let user = match &data.user {
        Some(u) => {
            let user_id = parse_snowflake(u.id.as_str())?;
            let avatar = match &u.avatar {
                Some(a) => a.clone(),
                None => String::new(),
            };
            let providers = Providers {
                discord: Some(
                    DiscordProvider {
                        id: user_id,
                        username: u.username.clone(),
                        avatar,
                        added_at: None,
                        updated_at: None,
                    },
                ),
                ..Default::default()
            };
            Some(UserRegistration { user_id, providers })
        },
        None => None,
    };
    let guild = guild_step(data);
    Ok(AuthorizedPlan { user, guild })
}

} // verus!
