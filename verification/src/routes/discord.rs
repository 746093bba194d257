//! The unsigned Discord event route.

use vstd::prelude::*;

use crate::models::discord_events::DiscordEventWrapper;
use crate::status::Status;
use crate::text::str_eq;

verus! {

/// What the route does with an event envelope.
#[derive(Debug, Clone, Copy, PartialEq, Eq, Structural)]
pub enum DiscordRoute {
    /// Answer with this status.
    Respond(Status),
    /// Run the authorization handler; its status, or OK, is the answer.
    HandleAuthorized,
}

/// Discord's ping (type 0) is acknowledged; an authorization event is handled;
/// other events are acknowledged; an envelope without event is a bad request.
pub fn discord_event_route(payload: &DiscordEventWrapper) -> (r: DiscordRoute)
    ensures
        r == (if payload.event_type == 0 {
            DiscordRoute::Respond(Status::Success)
        } else {
            match payload.event {
                Some(e) => if e.event_name@ == "APPLICATION_AUTHORIZED"@ {
                    DiscordRoute::HandleAuthorized
                } else {
                    DiscordRoute::Respond(Status::Success)
                },
                None => DiscordRoute::Respond(Status::BadRequest),
            }
        }),
{
    if payload.event_type == 0 {
        return DiscordRoute::Respond(Status::Success);
    }
    match &payload.event {
        Some(e) => if str_eq(e.event_name.as_str(), "APPLICATION_AUTHORIZED") {
            DiscordRoute::HandleAuthorized
        } else {
            DiscordRoute::Respond(Status::Success)
        },
        None => DiscordRoute::Respond(Status::BadRequest),
    }
}

} // verus!
