//! The summary of a profile.

use crate::client::{Client, RequestError};
use crate::constants::PLAYER_SUMMARIES_IDS_PER_REQUEST;
use crate::enums::{CommunityVisibilityState, PersonaState};
use crate::query::{ids_query, ids_text, param, params_view};
use crate::steam_id::SteamId;
use crate::steam_time::{has_date, SteamTime};
use crate::text::{parse_decimal, parse_plus_decimal, parse_plus_u64, parse_u64};
use std::collections::HashMap;
use vstd::prelude::*;
use vstd::utf8::encode_utf8;

verus! {

broadcast use vstd::std_specs::hash::group_hash_axioms;

/// Why the summaries of some profiles could not be had.
#[derive(Debug)]
pub enum PlayerSummaryError {
    /// More identifiers were given than one request can carry.
    TooManyIds,
    /// An identifier was given twice.
    NonUniqueIds(SteamId),
    /// The request failed.
    Reqwest(RequestError),
    /// The answer holds this number in place of a visibility.
    InvalidCommunityVisibilityState(i64),
    /// The answer holds this text in place of the number of a group.
    InvalidPrimaryClanId(String),
    /// The answer holds this number in place of a persona state.
    InvalidPersonaState(i64),
    /// The answer holds this text in place of an identifier.
    InvalidSteamId(String),
    /// The answer holds this number of seconds, for which the calendar has
    /// no date.
    InvalidTimestamp(i64),
}

/// The summary of one profile, as the service writes it.
#[derive(Debug)]
pub struct ResponseInnerElement {
    pub steam_id: String,
    pub community_visibility_state: i64,
    pub profile_state: Option<i64>,
    pub persona_name: String,
    pub profile_url: String,
    pub avatar: String,
    pub avatar_medium: String,
    pub avatar_full: String,
    pub avatar_hash: String,
    pub last_logoff: Option<i64>,
    pub persona_state: i64,
    pub real_name: Option<String>,
    pub primary_clan_id: Option<String>,
    pub time_created: Option<i64>,
    pub persona_state_flags: Option<u64>,
    pub local_country_code: Option<String>,
}

/// The summary of one profile.
#[derive(Debug)]
pub struct PlayerSummary {
    pub steam_id: SteamId,
    pub community_visibility_state: CommunityVisibilityState,
    pub profile_configured: bool,
    pub persona_name: String,
    pub profile_url: String,
    pub avatar: String,
    pub avatar_medium: String,
    pub avatar_full: String,
    pub avatar_hash: String,
    pub last_logoff: Option<SteamTime>,
    pub persona_state: PersonaState,
    pub real_name: Option<String>,
    pub primary_clan_id: Option<u64>,
    pub time_created: Option<SteamTime>,
    pub persona_state_flags: Option<u64>,
    pub local_country_code: Option<String>,
}

/// The point in time that an optional number of seconds tells, or the
/// number itself where the calendar has no date for it.
pub open spec fn time_of(secs: Option<i64>) -> Result<Option<SteamTime>, i64> {
    match secs {
        None => Ok(None),
        Some(unix) => if has_date(unix) {
            Ok(Some(SteamTime::at(unix)))
        } else {
            Err(unix)
        },
    }
}

/// The summary that an element of the answer tells of. What cannot be read
/// is reported in this order: the time of the last log-off, the time of
/// creation, the visibility, the persona state, the number of the primary
/// group, the identifier.
pub open spec fn summary_of(element: ResponseInnerElement) -> Result<
    PlayerSummary,
    PlayerSummaryError,
> {
    match time_of(element.last_logoff) {
        Err(unix) => Err(PlayerSummaryError::InvalidTimestamp(unix)),
        Ok(last_logoff) => match time_of(element.time_created) {
            Err(unix) => Err(PlayerSummaryError::InvalidTimestamp(unix)),
            Ok(time_created) => match CommunityVisibilityState::from_code(
                element.community_visibility_state as int,
            ) {
                None => Err(
                    PlayerSummaryError::InvalidCommunityVisibilityState(
                        element.community_visibility_state,
                    ),
                ),
                Some(visibility) => match PersonaState::from_code(element.persona_state as int) {
                    None => Err(PlayerSummaryError::InvalidPersonaState(element.persona_state)),
                    Some(persona_state) => match clan_of(element.primary_clan_id) {
                        Err(text) => Err(PlayerSummaryError::InvalidPrimaryClanId(text)),
                        Ok(primary_clan_id) => match parse_decimal(
                            encode_utf8(element.steam_id@),
                        ) {
                            None => Err(PlayerSummaryError::InvalidSteamId(element.steam_id)),
                            Some(raw) => Ok(
                                PlayerSummary {
                                    steam_id: SteamId(raw),
                                    community_visibility_state: visibility,
                                    profile_configured: element.profile_state is Some,
                                    persona_name: element.persona_name,
                                    profile_url: element.profile_url,
                                    avatar: element.avatar,
                                    avatar_medium: element.avatar_medium,
                                    avatar_full: element.avatar_full,
                                    avatar_hash: element.avatar_hash,
                                    last_logoff,
                                    persona_state,
                                    real_name: element.real_name,
                                    primary_clan_id,
                                    time_created,
                                    persona_state_flags: element.persona_state_flags,
                                    local_country_code: element.local_country_code,
                                },
                            ),
                        },
                    },
                },
            },
        },
    }
}

/// The number of the primary group that an optional text writes, with or
/// without a plus sign before it, or the text itself where it writes no
/// number.
pub open spec fn clan_of(text: Option<String>) -> Result<Option<u64>, String> {
    match text {
        None => Ok(None),
        Some(text) => match parse_plus_decimal(encode_utf8(text@)) {
            Some(id) => Ok(Some(id)),
            None => Err(text),
        },
    }
}

/// Reads an optional point in time.
fn read_time(secs: Option<i64>) -> (time: Result<Option<SteamTime>, i64>)
    ensures
        time == time_of(secs),
{
    match secs {
        None => Ok(None),
        Some(unix) => match SteamTime::from_timestamp(unix) {
            Some(time) => Ok(Some(time)),
            None => Err(unix),
        },
    }
}

impl ResponseInnerElement {
    /// Reads the summary that this element tells of.
    pub fn parse_steam_json(self) -> (summary: Result<PlayerSummary, PlayerSummaryError>)
        ensures
            summary == summary_of(self),
    {
        let last_logoff = match read_time(self.last_logoff) {
            Ok(time) => time,
            Err(unix) => {
                return Err(PlayerSummaryError::InvalidTimestamp(unix));
            },
        };
        let time_created = match read_time(self.time_created) {
            Ok(time) => time,
            Err(unix) => {
                return Err(PlayerSummaryError::InvalidTimestamp(unix));
            },
        };
        let vis_state = match CommunityVisibilityState::try_from(self.community_visibility_state) {
            Ok(state) => state,
            Err(_) => {
                return Err(
                    PlayerSummaryError::InvalidCommunityVisibilityState(
                        self.community_visibility_state,
                    ),
                );
            },
        };
        let persona_state = match PersonaState::try_from(self.persona_state) {
            Ok(state) => state,
            Err(_) => {
                return Err(PlayerSummaryError::InvalidPersonaState(self.persona_state));
            },
        };
        let clan_id = match self.primary_clan_id {
            Some(text) => match parse_plus_u64(text.as_str()) {
                Some(id) => Some(id),
                None => {
                    return Err(PlayerSummaryError::InvalidPrimaryClanId(text));
                },
            },
            None => None,
        };
        let raw = match parse_u64(self.steam_id.as_str()) {
            Some(raw) => raw,
            None => {
                return Err(PlayerSummaryError::InvalidSteamId(self.steam_id));
            },
        };
        Ok(
            PlayerSummary {
                steam_id: SteamId(raw),
                community_visibility_state: vis_state,
                profile_configured: self.profile_state.is_some(),
                persona_name: self.persona_name,
                profile_url: self.profile_url,
                avatar: self.avatar,
                avatar_medium: self.avatar_medium,
                avatar_full: self.avatar_full,
                avatar_hash: self.avatar_hash,
                last_logoff,
                persona_state,
                real_name: self.real_name,
                primary_clan_id: clan_id,
                time_created,
                persona_state_flags: self.persona_state_flags,
                local_country_code: self.local_country_code,
            },
        )
    }
}

/// The summaries of some profiles, by the raw value of their identifiers.
#[derive(Debug)]
pub struct PlayerSummaries {
    inner: HashMap<u64, PlayerSummary>,
}

impl View for PlayerSummaries {
    type V = Map<u64, PlayerSummary>;

    closed spec fn view(&self) -> Map<u64, PlayerSummary> {
        self.inner@
    }
}

/// The summaries of `players` by identifier; of two with the same
/// identifier the later one stays.
pub open spec fn summaries_by_id(players: Seq<PlayerSummary>) -> Map<u64, PlayerSummary>
    decreases players.len(),
{
    if players.len() == 0 {
        Map::empty()
    } else {
        summaries_by_id(players.drop_last()).insert(players.last().steam_id.0, players.last())
    }
}

/// Whether `read` holds, for each element in turn, the summary that it
/// tells of.
pub open spec fn all_read(elements: Seq<ResponseInnerElement>, read: Seq<PlayerSummary>) -> bool {
    &&& read.len() == elements.len()
    &&& forall|k: int|
        0 <= k < elements.len() ==> summary_of(#[trigger] elements[k]) == Ok::<
            PlayerSummary,
            PlayerSummaryError,
        >(read[k])
}

impl PlayerSummaries {
    /// Files the summaries by identifier.
    pub fn from_players(players: Vec<PlayerSummary>) -> (summaries: PlayerSummaries)
        ensures
            summaries@ == summaries_by_id(players@),
    {
        let mut inner: HashMap<u64, PlayerSummary> = HashMap::new();
        for summary in it: players
            invariant
                inner@ == summaries_by_id(it.seq().take(it.index() as int)),
        {
            proof {
                let grown = it.seq().take(it.index() + 1);
                assert(grown.drop_last() == it.seq().take(it.index() as int));
                assert(grown.last() == summary);
            }
            inner.insert(summary.steam_id.0, summary);
        }
        assert(players@.take(players@.len() as int) == players@);
        PlayerSummaries { inner }
    }

    /// The summaries by the raw value of the identifier.
    pub fn into_inner(self) -> (inner: HashMap<u64, PlayerSummary>)
        ensures
            inner@ == self@,
    {
        self.inner
    }

    /// The summary of the profile `id`, if it is among these.
    pub fn get(&self, id: SteamId) -> (summary: Option<&PlayerSummary>)
        ensures
            summary == (if self@.contains_key(id.0) {
                Some(&self@[id.0])
            } else {
                None
            }),
    {
        self.inner.get(&id.0)
    }

    /// The number of profiles whose summaries these are.
    pub fn len(&self) -> (len: usize)
        ensures
            len == self@.len(),
    {
        self.inner.len()
    }
}

/// Reads the summaries that the elements of an answer tell of and files
/// them by identifier. The first element that cannot be read makes the
/// whole answer unreadable.
pub fn parse_steam_json(players: Vec<ResponseInnerElement>) -> (summaries: Result<
    PlayerSummaries,
    PlayerSummaryError,
>)
    ensures
        summaries matches Ok(s) ==> exists|read: Seq<PlayerSummary>|
            #[trigger] all_read(players@, read) && s@ == summaries_by_id(read),
        summaries matches Err(error) ==> exists|i: int|
            0 <= i < players@.len() && #[trigger] summary_of(players@[i]) == Err::<
                PlayerSummary,
                PlayerSummaryError,
            >(error) && forall|k: int| 0 <= k < i ==> summary_of(#[trigger] players@[k]) is Ok,
{
    let mut read: Vec<PlayerSummary> = Vec::new();
    for element in it: players
        invariant
            all_read(it.seq().take(it.index() as int), read@),
    {
        let ghost seen = it.seq().take(it.index() as int);
        let ghost grown = it.seq().take(it.index() + 1);
        match element.parse_steam_json() {
            Ok(summary) => {
                proof {
                    let longer = read@.push(summary);
                    assert forall|k: int| 0 <= k < grown.len() implies summary_of(
                        #[trigger] grown[k],
                    ) == Ok::<PlayerSummary, PlayerSummaryError>(longer[k]) by {
                        if k < seen.len() {
                            assert(seen[k] == grown[k]);
                        }
                    }
                }
                read.push(summary);
            },
            Err(error) => {
                proof {
                    assert(summary_of(it.seq()[it.index() as int]) == Err::<
                        PlayerSummary,
                        PlayerSummaryError,
                    >(error));
                    assert forall|k: int| 0 <= k < it.index() implies summary_of(
                        #[trigger] it.seq()[k],
                    ) is Ok by {
                        assert(seen[k] == it.seq()[k]);
                    }
                }
                return Err(error);
            },
        }
    }
    proof {
        assert(players@.take(players@.len() as int) == players@);
    }
    Ok(PlayerSummaries::from_players(read))
}

impl Client {
    /// The parameters of the request for the summaries of the profiles
    /// `ids`: the credential in use and the list of identifiers. One
    /// request carries at most a hundred different identifiers.
    pub fn player_summaries_query(&self, ids: &[SteamId]) -> (query: Result<
        Vec<(String, String)>,
        PlayerSummaryError,
    >)
        ensures
            query is Ok <==> ids_text(ids@, PLAYER_SUMMARIES_IDS_PER_REQUEST) is Some,
            query matches Ok(q) ==> params_view(q@) == seq![
                ("key"@, self@.api_keys[0]),
                ("steamids"@, ids_text(ids@, PLAYER_SUMMARIES_IDS_PER_REQUEST).unwrap()),
            ],
            query matches Err(error) ==> error is TooManyIds,
    {
        let list = match ids_query(ids, PLAYER_SUMMARIES_IDS_PER_REQUEST) {
            Some(list) => list,
            None => {
                return Err(PlayerSummaryError::TooManyIds);
            },
        };
        let mut query: Vec<(String, String)> = Vec::new();
        query.push(param("key", self.api_key()));
        query.push(param("steamids", list.as_str()));
        assert(params_view(query@) == seq![
            ("key"@, self@.api_keys[0]),
            ("steamids"@, ids_text(ids@, PLAYER_SUMMARIES_IDS_PER_REQUEST).unwrap()),
        ]) by {
            assert(params_view(query@)[0] == ("key"@, self@.api_keys[0]));
            assert(params_view(query@)[1] == ("steamids"@, list@));
        }
        Ok(query)
    }
}

} // verus!
