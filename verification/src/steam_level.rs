//! The level of a profile.

use crate::client::{Client, RequestError};
use crate::query::{param, params_view};
use crate::steam_id::SteamId;
use crate::text::decimal_text;
use vstd::prelude::*;
use vstd::std_specs::convert::{FromSpec, FromSpecImpl};

verus! {

/// Why the level of a profile could not be had.
#[derive(Debug, Clone, Copy, PartialEq, Eq)]
pub enum SteamLevelError {
    /// The request failed.
    Reqwest(RequestError),
}

/// The level of a profile, where the service tells it: of a deleted profile
/// it tells none.
#[derive(Debug, PartialEq, Eq, PartialOrd, Ord, Clone, Copy, Hash)]
pub struct SteamLevel(Option<u64>);

impl View for SteamLevel {
    type V = Option<u64>;

    closed spec fn view(&self) -> Option<u64> {
        self.0
    }
}

impl SteamLevel {
    /// The level, if the service told one.
    pub fn lvl(self) -> (level: Option<u64>)
        ensures
            level == self@,
    {
        self.0
    }

    /// The level, or `default` where the service told none.
    pub fn lvl_or(self, default: u64) -> (level: u64)
        ensures
            level == match self@ {
                Some(level) => level,
                None => default,
            },
    {
        match self.0 {
            Some(level) => level,
            None => default,
        }
    }

    /// The level, if the service told one.
    pub fn into_inner(self) -> (level: Option<u64>)
        ensures
            level == self@,
    {
        self.0
    }
}

impl From<Option<u64>> for SteamLevel {
    fn from(player_level: Option<u64>) -> (level: Self) {
        SteamLevel(player_level)
    }
}

impl FromSpecImpl<Option<u64>> for SteamLevel {
    open spec fn obeys_from_spec() -> bool {
        true
    }

    closed spec fn from_spec(player_level: Option<u64>) -> Self {
        SteamLevel(player_level)
    }
}

/// The value made from what the service told holds just that.
pub proof fn lemma_level_from(player_level: Option<u64>)
    ensures
        <SteamLevel as FromSpec<Option<u64>>>::from_spec(player_level)@ == player_level,
{
}

impl Client {
    /// The parameters of the request for the level of the profile `id`.
    pub fn steam_level_query(&self, id: SteamId) -> (query: Vec<(String, String)>)
        ensures
            params_view(query@) == seq![
                ("key"@, self@.api_keys[0]),
                ("steamid"@, decimal_text(id.0 as nat)),
            ],
    {
        let text = id.to_decimal_string();
        let mut query: Vec<(String, String)> = Vec::new();
        query.push(param("key", self.api_key()));
        query.push(param("steamid", text.as_str()));
        assert(params_view(query@) == seq![
            ("key"@, self@.api_keys[0]),
            ("steamid"@, decimal_text(id.0 as nat)),
        ]) by {
            assert(params_view(query@)[0] == ("key"@, self@.api_keys[0]));
            assert(params_view(query@)[1] == ("steamid"@, text@));
        }
        query
    }
}

} // verus!
