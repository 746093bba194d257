//! Guild configuration as the dashboard submits it, for creating and updating.

use vstd::prelude::*;

use crate::handlers::discord::authorized::parse_snowflake;
use crate::models::guild::UpdateGuild;
use crate::status::Status;
use crate::text::{clone_strings, text_i64};

verus! {

/// Whether every text of the list is an `i64`.
pub open spec fn ids_parse(ids: Seq<String>) -> bool {
    forall|i: int| 0 <= i < ids.len() ==> text_i64(#[trigger] ids[i]@) is Some
}

/// The numbers that the texts of the list spell.
pub open spec fn parsed_ids(ids: Seq<String>) -> Seq<i64> {
    Seq::new(ids.len(), |i: int| text_i64(ids[i]@)->0)
}

/// Whether an optional id is absent or an `i64`.
pub open spec fn opt_id_parses(id: Option<String>) -> bool {
    id matches Some(t) ==> text_i64(t@) is Some
}

pub open spec fn parsed_opt_id(id: Option<String>) -> Option<i64> {
    match id {
        Some(t) => text_i64(t@),
        None => None,
    }
}

/// Whether every id of a submitted guild is `i64` text.
pub open spec fn guild_payload_valid(p: UpdateGuild) -> bool {
    &&& text_i64(p.guild_id@) is Some
    &&& text_i64(p.guild_owner@) is Some
    &&& ids_parse(p.guild_members@)
    &&& opt_id_parses(p.alert_channel)
    &&& opt_id_parses(p.alert_role)
}

/// A submitted guild with its ids parsed: the values written to the `guilds` row.
#[derive(Debug)]
pub struct GuildWrite {
    pub guild_id: i64,
    pub guild_name: String,
    pub guild_owner: i64,
    pub guild_members: Vec<i64>,
    pub alert_channel: Option<i64>,
    pub alert_role: Option<i64>,
    pub identifiers_showed: Vec<String>,
    /// Absent: an update keeps the stored flag, an insert makes the guild active.
    pub is_active: Option<bool>,
}

fn parse_opt_snowflake(id: &Option<String>) -> (r: Result<Option<i64>, Status>)
    ensures
        r is Ok <==> opt_id_parses(*id),
        r is Err ==> r == Err::<Option<i64>, Status>(Status::BadRequest),
        r matches Ok(v) ==> v == parsed_opt_id(*id),
{
    match id {
        Some(t) => {
            let v = parse_snowflake(t.as_str())?;
            Ok(Some(v))
        },
        None => Ok(None),
    }
}

fn parse_members(ids: &Vec<String>) -> (r: Result<Vec<i64>, Status>)
    ensures
        r is Ok <==> ids_parse(ids@),
        r is Err ==> r == Err::<Vec<i64>, Status>(Status::BadRequest),
        r matches Ok(v) ==> v@ == parsed_ids(ids@),
{
    let mut out: Vec<i64> = Vec::new();
    let mut i: usize = 0;
    while i < ids.len()
        invariant
            i <= ids@.len(),
            out@ == parsed_ids(ids@).take(i as int),
            forall|j: int| 0 <= j < i ==> text_i64(#[trigger] ids@[j]@) is Some,
        decreases ids@.len() - i,
    {
        let v = parse_snowflake(ids[i].as_str())?;
        out.push(v);
        i = i + 1;
        assert(out@ =~= parsed_ids(ids@).take(i as int));
    }
    assert(parsed_ids(ids@).take(ids@.len() as int) =~= parsed_ids(ids@));
    Ok(out)
}

/// Parses the ids of a submitted guild: the guild, its owner, each member and the
/// optional alert channel and role. Any id that is not `i64` text is a bad request.
pub fn parse_guild_payload(payload: &UpdateGuild) -> (r: Result<GuildWrite, Status>)
    ensures
        r is Ok <==> guild_payload_valid(*payload),
        r is Err ==> r == Err::<GuildWrite, Status>(Status::BadRequest),
        r matches Ok(w) ==> {
            &&& Some(w.guild_id) == text_i64(payload.guild_id@)
            &&& w.guild_name == payload.guild_name
            &&& Some(w.guild_owner) == text_i64(payload.guild_owner@)
            &&& w.guild_members@ == parsed_ids(payload.guild_members@)
            &&& w.alert_channel == parsed_opt_id(payload.alert_channel)
            &&& w.alert_role == parsed_opt_id(payload.alert_role)
            &&& w.identifiers_showed@ == payload.identifiers_showed@
            &&& w.is_active == payload.is_active
        },
{
    let guild_id = parse_snowflake(payload.guild_id.as_str())?;
    let guild_owner = parse_snowflake(payload.guild_owner.as_str())?;
    let guild_members = parse_members(&payload.guild_members)?;
    let alert_channel = parse_opt_snowflake(&payload.alert_channel)?;
    let alert_role = parse_opt_snowflake(&payload.alert_role)?;
    Ok(
        GuildWrite {
            guild_id,
            guild_name: payload.guild_name.clone(),
            guild_owner,
            guild_members,
            alert_channel,
            alert_role,
            identifiers_showed: clone_strings(&payload.identifiers_showed),
            is_active: payload.is_active,
        },
    )
}

impl GuildWrite {
    /// The activity flag of a newly inserted guild: as submitted, active by default.
    pub fn insert_is_active(&self) -> (b: bool)
        ensures
            b == (match self.is_active {
                Some(v) => v,
                None => true,
            }),
    {
        match self.is_active {
            Some(v) => v,
            None => true,
        }
    }
}

} // verus!
