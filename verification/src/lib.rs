//! Identifiers of Steam accounts and the rules of a client of the Steam
//! web API.
//!
//! The crate has two parts. The first is the codec of the 64-bit account
//! identifier: its bit fields, its text forms and its friend code. The
//! second is what a client decides without touching the network: when a
//! failed request is sent again, how fast requests may follow each other,
//! which parameters a request carries and what its answer means. Sending
//! requests and waiting are left to the caller.

pub mod account_type;
pub mod bit_chunks;
pub mod client;
pub mod constants;
pub mod enum_error;
pub mod enums;
pub mod friend_code;
pub mod parse_response;
pub mod player_bans;
pub mod player_friends;
pub mod player_summary;
pub mod query;
pub mod rate_limit;
pub mod request_helper;
pub mod session;
pub mod sorted;
pub mod steam_id;
pub mod steam_id_ext;
pub mod steam_level;
pub mod steam_time;
pub mod text;
pub mod universe;
pub mod user_search;
pub mod vanity_url;
pub mod visibility;

pub use account_type::AccountType;
pub use bit_chunks::{BitChunks, ChunksU4, ChunksU5, ChunksU6};
pub use client::{Client, ClientOptions, Error, RequestError, RetryStep};
pub use enum_error::EnumError;
pub use enums::{CommunityVisibilityState, EconomyBan, PersonaState, ProfileState};
pub use parse_response::{ParseJsonResponse, ParseResponse};
pub use player_bans::{PlayerBan, PlayerBanError, PlayerBans};
pub use player_friends::{Friend, FriendsList, PlayerFriendsError};
pub use player_summary::{PlayerSummaries, PlayerSummary, PlayerSummaryError};
pub use rate_limit::{rate_limit, Paced, RateLimitIter};
pub use steam_id::{SteamId, SteamIdError, SteamIdStr};
pub use steam_id_ext::SteamIdExt;
pub use steam_level::{SteamLevel, SteamLevelError};
pub use steam_time::SteamTime;
pub use universe::Universe;
pub use user_search::{
    UserSearchEntry, UserSearchError, UserSearchPage, UserSearchParseError,
};
pub use vanity_url::{VanityUrl, VanityUrlError};
pub use visibility::Visibility;
