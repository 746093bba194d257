//! What the backend shows of a Discord user.

use vstd::prelude::*;
use vstd::string::StrSliceExecFns;

use crate::text::{push_str, str_eq};

verus! {

/// A Discord user as the backend presents them: display name, id and avatar URL.
#[derive(Debug)]
pub struct DiscordInfo {
    pub username: String,
    pub id: String,
    pub avatar: Option<String>,
}

/// Where Discord's API describes a user.
pub fn discord_user_url(discord_id: &str) -> (u: String)
    ensures
        u@ == "https://discord.com/api/v10/users/"@ + discord_id@,
{
    let mut u = String::new();
    push_str(&mut u, "https://discord.com/api/v10/users/");
    push_str(&mut u, discord_id);
    u
}

/// The `Authorization` header of a bot request.
pub fn bot_authorization(token: &str) -> (h: String)
    ensures
        h@ == "Bot "@ + token@,
{
    let mut h = String::new();
    push_str(&mut h, "Bot ");
    push_str(&mut h, token);
    h
}

/// The name Discord users are shown under: the name alone when the discriminator is
/// `0` (Discord's new names), else `name#discriminator`. A missing name is
/// `Unknown`, a missing discriminator `0000`.
pub open spec fn full_username(username: Option<Seq<char>>, discriminator: Option<Seq<char>>) -> Seq<char> {
    let name = match username {
        Some(u) => u,
        None => "Unknown"@,
    };
    let disc = match discriminator {
        Some(d) => d,
        None => "0000"@,
    };
    if disc == "0"@ {
        name
    } else {
        name + "#"@ + disc
    }
}

/// The URL of an avatar image; animated avatars (hash prefix `a_`) are GIFs.
pub open spec fn avatar_image_url(discord_id: Seq<char>, avatar_hash: Seq<char>) -> Seq<char> {
    "https://cdn.discordapp.com/avatars/"@ + discord_id + "/"@ + avatar_hash + "."@ + (
    if avatar_hash.len() >= 2 && avatar_hash[0] == 'a' && avatar_hash[1] == '_' {
        "gif"@
    } else {
        "png"@
    })
}

pub open spec fn opt_view(s: Option<&str>) -> Option<Seq<char>> {
    match s {
        Some(t) => Some(t@),
        None => None,
    }
}

fn is_animated(hash: &str) -> (r: bool)
    ensures
        r == (hash@.len() >= 2 && hash@[0] == 'a' && hash@[1] == '_'),
{
    hash.unicode_len() >= 2 && hash.get_char(0) == 'a' && hash.get_char(1) == '_'
}

/// Summarizes Discord's description of a user.
pub fn discord_info(
    discord_id: &str,
    username: Option<&str>,
    discriminator: Option<&str>,
    avatar_hash: Option<&str>,
) -> (info: DiscordInfo)
    ensures
        info.id@ == discord_id@,
        info.username@ == full_username(opt_view(username), opt_view(discriminator)),
        info.avatar matches Some(a) <==> avatar_hash is Some,
        info.avatar matches Some(a) ==> a@ == avatar_image_url(discord_id@, avatar_hash->0@),
{
    let mut name = String::new();
    match username {
        Some(u) => push_str(&mut name, u),
        None => push_str(&mut name, "Unknown"),
    }
    let disc = match discriminator {
        Some(d) => d,
        None => "0000",
    };
    if !str_eq(disc, "0") {
        push_str(&mut name, "#");
        push_str(&mut name, disc);
    }
    proof {
        assert(name@ =~= full_username(opt_view(username), opt_view(discriminator)));
    }
    let avatar = match avatar_hash {
        Some(h) => {
            let mut a = String::new();
            push_str(&mut a, "https://cdn.discordapp.com/avatars/");
            push_str(&mut a, discord_id);
            push_str(&mut a, "/");
            push_str(&mut a, h);
            push_str(&mut a, ".");
            if is_animated(h) {
                push_str(&mut a, "gif");
            } else {
                push_str(&mut a, "png");
            }
            proof {
                assert(a@ =~= avatar_image_url(discord_id@, h@));
            }
            Some(a)
        },
        None => None,
    };
    let mut id = String::new();
    push_str(&mut id, discord_id);
    proof {
        assert(id@ =~= discord_id@);
    }
    DiscordInfo { username: name, id, avatar }
}

} // verus!
