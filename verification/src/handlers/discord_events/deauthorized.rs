//! The `APPLICATION_DEAUTHORIZED` event: the application was removed.

use vstd::prelude::*;

use crate::handlers::discord::authorized::parse_snowflake;
use crate::models::discord_events::DiscordEventData;
use crate::status::Status;
use crate::text::text_i64;

verus! {

/// The guild to mark inactive, if the event names one. A guild id that is not
/// `i64` text is a bad request; an event for a user alone deactivates nothing.
pub fn handle_deauthorized(data: &DiscordEventData) -> (r: Result<Option<i64>, Status>)
    ensures
        r == (match data.guild {
            Some(g) => match text_i64(g.id@) {
                Some(id) => Ok(Some(id)),
                None => Err(Status::BadRequest),
            },
            None => Ok(None),
        }),
{
    match &data.guild {
        Some(guild) => {
            let guild_id = parse_snowflake(guild.id.as_str())?;
            Ok(Some(guild_id))
        },
        None => Ok(None),
    }
}

} // verus!
