//! Creating users and merging their provider accounts.

use vstd::prelude::*;

use crate::models::user::{CreateUser, DiscordProvider};
use crate::status::Status;
use crate::text::{parse_i64, text_i64};
use crate::utils::discord::DiscordInfo;

verus! {

/// The id a new user gets: the one given, else the `i64` that their Discord id
/// spells. Neither is a bad request.
pub fn create_user_id(payload: &CreateUser) -> (r: Result<i64, Status>)
    ensures
        r == (match payload.user_id {
            Some(id) => Ok(id),
            None => match payload.providers.discord {
                Some(d) => match text_i64(d.id@) {
                    Some(n) => Ok(n),
                    None => Err(Status::BadRequest),
                },
                None => Err(Status::BadRequest),
            },
        }),
{
    match payload.user_id {
        Some(id) => Ok(id),
        None => match &payload.providers.discord {
            Some(d) => match parse_i64(d.id.as_str()) {
                Some(n) => Ok(n),
                None => Err(Status::BadRequest),
            },
            None => Err(Status::BadRequest),
        },
    }
}

/// The trust score a new user starts with: as given, 100 by default.
pub fn initial_trust_score(payload: &CreateUser) -> (s: i32)
    ensures
        s == (match payload.trust_score {
            Some(t) => t,
            None => 100,
        }),
{
    match payload.trust_score {
        Some(t) => t,
        None => 100,
    }
}

/// Refreshes a Discord account from what Discord reports: its name, and its avatar
/// (empty without one). The id stays.
pub fn apply_discord_info(provider: &mut DiscordProvider, info: &DiscordInfo)
    ensures
        final(provider).id == old(provider).id,
        final(provider).username == info.username,
        final(provider).avatar@ == (match info.avatar {
            Some(a) => a@,
            None => Seq::empty(),
        }),
{
    provider.avatar = match &info.avatar {
        Some(a) => a.clone(),
        None => String::new(),
    };
    provider.username = info.username.clone();
}

} // verus!
