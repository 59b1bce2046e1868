//! Addresses and limits of the endpoints of the service.

use vstd::prelude::*;

verus! {

/// Resolves the chosen name of a profile.
pub const VANITY_API: &'static str = "https://api.steampowered.com/ISteamUser/ResolveVanityURL/v1/";

/// How many requests for names may be under way at once.
pub const VANITY_CONCURRENT_REQUESTS: usize = 100;

/// Tells the summaries of profiles.
pub const PLAYER_SUMMARIES_API: &'static str =
    "https://api.steampowered.com/ISteamUser/GetPlayerSummaries/v2/";

/// How many requests for summaries may be under way at once.
pub const PLAYER_SUMMARIES_CONCURRENT_REQUESTS: usize = 100;

/// How many profiles one request for summaries may name.
pub const PLAYER_SUMMARIES_IDS_PER_REQUEST: usize = 100;

/// Tells the friends of a profile.
pub const PLAYER_FRIENDS_API: &'static str = "https://api.steampowered.com/ISteamUser/GetFriendList/v1/";

/// How many requests for friends may be under way at once.
pub const PLAYER_FRIENDS_CONCURRENT_REQUESTS: usize = 100;

/// Tells the bans of profiles.
pub const PLAYER_BANS_API: &'static str = "https://api.steampowered.com/ISteamUser/GetPlayerBans/v1/";

/// How many requests for bans may be under way at once.
pub const PLAYER_BANS_CONCURRENT_REQUESTS: usize = 100;

/// How many profiles one request for bans may name.
pub const PLAYER_BANS_IDS_PER_REQUEST: usize = 100;

/// Tells the level of a profile.
pub const PLAYER_STEAM_LEVEL_API: &'static str =
    "https://api.steampowered.com/IPlayerService/GetSteamLevel/v1/";

/// How many requests for levels may be under way at once.
pub const PLAYER_STEAM_LEVEL_CONCURRENT_REQUESTS: usize = 100;

/// How many profiles one request for levels may name.
pub const PLAYER_STEAM_LEVEL_IDS_PER_REQUEST: usize = 100;

/// Searches for users by name.
pub const USER_SEARCH_API: &'static str = "https://steamcommunity.com/search/SearchCommunityAjax/";

/// How many searches may be under way at once.
pub const USER_SEARCH_CONCURRENT_REQUESTS: usize = 100;

/// Each page holds 20 results.
pub const USER_SEARCH_RESULTS_PER_PAGE: usize = 20;

/// Only the pages 1 to 500 hold results of their own.
pub const USER_SEARCH_MAX_PAGES: usize = 500;

/// 500 pages of 20 results each is all that a search gives.
pub const USER_SEARCH_MAX_RESULTS: usize = 10000;

/// What the address of a profile starts with where it ends in the
/// identifier.
pub const PROFILE_URL_FIXED_PREFIX: &'static str = "https://steamcommunity.com/profiles/";

/// What the address of a profile starts with where it ends in the chosen
/// name.
pub const PROFILE_URL_VANITY_PREFIX: &'static str = "https://steamcommunity.com/id/";

/// How often a request is repeated after an error.
pub const RETRIES: usize = 5;

/// Pause between the attempts of a request, in milliseconds.
pub const WAIT_DURATION_MS: u64 = 250;

} // verus!
