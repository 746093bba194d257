//! The `APPLICATION_AUTHORIZED` event as the signed webhook endpoint handles it.

use vstd::prelude::*;

use crate::handlers::discord::authorized::{parse_snowflake, text_or_empty, GuildAuthorization};
use crate::models::discord_events::DiscordEventData;
use crate::models::user::{DiscordProvider, Providers};
use crate::status::Status;
use crate::text::text_i64;

verus! {

/// The user record to create, unless one exists already (verified, trust score 100).
#[derive(Debug)]
pub struct UserRegistration {
    pub user_id: i64,
    pub providers: Providers,
}

/// What an authorization event asks of the database: first the user, then the
/// guild, which is looked up by id and updated, or inserted when new.
#[derive(Debug)]
pub struct AuthorizedPlan {
    pub user: Option<UserRegistration>,
    pub guild: Result<Option<GuildAuthorization>, Status>,
}

/// The guild step: a guild authorization (integration type 0, which is also what
/// "absent" is not) with a guild whose id, and owner id when given, are `i64` text;
/// the owner defaults to 0. Without a guild, or for other types, nothing is written.
pub open spec fn guild_step_ok(data: DiscordEventData, g: Option<GuildAuthorization>) -> bool {
    if data.integration_type == Some(0i32) && data.guild is Some {
        let guild = data.guild->0;
        &&& g matches Some(a)
        &&& text_i64(guild.id@) == Some(a.guild_id)
        &&& a.guild_name == guild.name
        &&& a.guild_owner == (match guild.owner_id {
            Some(o) => text_i64(o@)->0,
            None => 0,
        })
    } else {
        g is None
    }
}

/// A guild authorization records the guild under the id and owner that its event
/// gives: the owner is the parsed `owner_id` whenever one is given (whatever its
/// value), and 0 only when none is.
pub proof fn guild_owner_is_the_given_owner(data: DiscordEventData, g: Option<GuildAuthorization>)
    requires
        guild_step_ok(data, g),
        data.integration_type == Some(0i32),
        data.guild is Some,
    ensures
        g matches Some(a) && text_i64(data.guild->0.id@) == Some(a.guild_id) && a.guild_name
            == data.guild->0.name,
        forall|o: String, v: i64|
            data.guild->0.owner_id == Some(o) && text_i64(o@) == Some(v) ==> (g matches Some(a)
                && a.guild_owner == v),
        data.guild->0.owner_id is None ==> (g matches Some(a) && a.guild_owner == 0),
{
}

pub open spec fn guild_step_rejected(data: DiscordEventData) -> bool {
    &&& data.integration_type == Some(0i32)
    &&& data.guild matches Some(guild)
    &&& (text_i64(guild.id@) is None || (guild.owner_id matches Some(o) && text_i64(o@) is None))
}

fn guild_step(data: &DiscordEventData) -> (r: Result<Option<GuildAuthorization>, Status>)
    ensures
        guild_step_rejected(*data) <==> r is Err,
        r is Err ==> r == Err::<Option<GuildAuthorization>, Status>(Status::BadRequest),
        r matches Ok(g) ==> guild_step_ok(*data, g),
{
    let integration_type = match data.integration_type {
        Some(t) => t,
        None => -1,
    };
    if integration_type == 0 {
        match &data.guild {
            Some(guild) => {
                let guild_id = parse_snowflake(guild.id.as_str())?;
                let guild_owner = match &guild.owner_id {
                    Some(o) => parse_snowflake(o.as_str())?,
                    None => 0,
                };
                Ok(
                    Some(
                        GuildAuthorization {
                            guild_id,
                            guild_name: guild.name.clone(),
                            guild_owner,
                        },
                    ),
                )
            },
            None => Ok(None),
        }
    } else {
        Ok(None)
    }
}

/// Decides what an authorization event writes. A user whose id is not `i64` text
/// rejects the event as a bad request before anything is written; otherwise the user
/// is registered with their Discord account (its id kept as text), then the guild
/// step follows.
pub fn handle_authorized(data: &DiscordEventData) -> (r: Result<AuthorizedPlan, Status>)
    ensures
        r is Err <==> (data.user matches Some(u) && text_i64(u.id@) is None),
        r is Err ==> r == Err::<AuthorizedPlan, Status>(Status::BadRequest),
        r matches Ok(plan) ==> {
            &&& plan.user is Some <==> data.user is Some
            &&& plan.user matches Some(reg) ==> {
                let u = data.user->0;
                &&& text_i64(u.id@) == Some(reg.user_id)
                &&& reg.providers.discord matches Some(d)
                &&& d.id == u.id
                &&& d.username == u.username
                &&& d.avatar@ == text_or_empty(u.avatar)
                &&& reg.providers.fivem is None
                &&& reg.providers.hardware_ids@.len() == 0
            }
            &&& guild_step_rejected(*data) <==> plan.guild is Err
            &&& plan.guild is Err ==> plan.guild == Err::<Option<GuildAuthorization>, Status>(
                Status::BadRequest,
            )
            &&& plan.guild matches Ok(g) ==> guild_step_ok(*data, g)
        },
{
    let user = match &data.user {
        Some(u) => {
            let user_id = parse_snowflake(u.id.as_str())?;
            let avatar = match &u.avatar {
                Some(a) => a.clone(),
                None => String::new(),
            };
            let providers = Providers {
                discord: Some(
                    DiscordProvider { username: u.username.clone(), id: u.id.clone(), avatar },
                ),
                ..Default::default()
            };
            Some(UserRegistration { user_id, providers })
        },
        None => None,
    };
    let guild = guild_step(data);
    Ok(AuthorizedPlan { user, guild })
}

} // verus!
