use crate::models::time::Timestamp;
use vstd::prelude::*;

verus! {

/// Every account a user is known by, each with when it was linked.
#[derive(Debug)]
pub struct Providers {
    pub discord: Option<DiscordProvider>,
    pub fivem: Option<FivemProvider>,
    pub steam: Option<SteamProvider>,
    pub microsoft: Option<MicrosoftProvider>,
    pub network: Option<NetworkProvider>,
}

impl Default for Providers {
    fn default() -> (p: Providers)
        ensures
            p.discord is None,
            p.fivem is None,
            p.steam is None,
            p.microsoft is None,
            p.network is None,
    {
        Providers { discord: None, fivem: None, steam: None, microsoft: None, network: None }
    }
}

#[derive(Debug)]
pub struct DiscordProvider {
    pub id: i64,
    pub username: String,
    pub avatar: String,
    pub added_at: Option<Timestamp>,
    pub updated_at: Option<Timestamp>,
}

#[derive(Debug)]
pub struct FivemProvider {
    pub fivem: Option<String>,
    pub license: Option<String>,
    pub license2: Option<String>,
    pub added_at: Option<Timestamp>,
    pub updated_at: Option<Timestamp>,
}

#[derive(Debug)]
pub struct SteamProvider {
    pub added_at: Option<Timestamp>,
    pub updated_at: Option<Timestamp>,
}

#[derive(Debug)]
pub struct MicrosoftProvider {
    pub xbl: Option<String>,
    pub live: Option<String>,
    pub added_at: Option<Timestamp>,
    pub updated_at: Option<Timestamp>,
}

#[derive(Debug)]
pub struct NetworkProvider {
    pub ipv4: Option<String>,
    pub country: Option<String>,
    pub asn: Option<i64>,
    pub added_at: Option<Timestamp>,
    pub updated_at: Option<Timestamp>,
}

} // verus!
