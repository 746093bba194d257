use crate::models::time::Timestamp;
use vstd::prelude::*;

verus! {

/// A guild as the bot's own configuration stores it.
#[derive(Debug)]
pub struct Guild {
    pub id: i64,
    pub owner: i64,
    pub members: Vec<i64>,
    pub status: bool,
    pub alert_channel: i64,
    pub alert_role: i64,
    pub identifiers_showed: Vec<String>,
    pub created_at: Option<Timestamp>,
    pub updated_at: Option<Timestamp>,
}

} // verus!
