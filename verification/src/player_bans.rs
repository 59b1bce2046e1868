//! The bans of a profile.

use crate::client::{Client, RequestError};
use crate::constants::PLAYER_BANS_IDS_PER_REQUEST;
use crate::enums::EconomyBan;
use crate::query::{ids_query, ids_text, param, params_view};
use crate::steam_id::SteamId;
use crate::text::{parse_decimal, parse_u64};
use std::collections::HashMap;
use vstd::prelude::*;
use vstd::string::StringSliceAdditionalSpecFns;
use vstd::utf8::encode_utf8;

verus! {

broadcast use vstd::std_specs::hash::group_hash_axioms;

/// Why the bans of some profiles could not be had.
#[derive(Debug)]
pub enum PlayerBanError {
    /// More identifiers were given than one request can carry.
    TooManyIds,
    /// An identifier was given twice.
    NonUniqueIds(SteamId),
    /// The request failed.
    Reqwest(RequestError),
    /// The answer holds this text in place of an identifier.
    InvalidSteamId(String),
    /// The answer holds this text in place of a trade ban.
    InvalidEconomyBan(String),
}

/// The bans of one profile, as the service writes them.
#[derive(Debug)]
pub struct ResponseElement {
    pub steam_id: String,
    pub community_banned: bool,
    pub vac_banned: bool,
    pub number_of_vac_bans: i32,
    pub days_since_last_ban: i32,
    pub number_of_game_bans: i32,
    pub economy_ban: String,
}

/// The bans of one profile.
#[derive(Debug)]
pub struct PlayerBan {
    pub steam_id: SteamId,
    pub community_banned: bool,
    pub vac_banned: bool,
    pub number_of_vac_bans: i32,
    pub days_since_last_ban: i32,
    pub number_of_game_bans: i32,
    pub economy_ban: EconomyBan,
}

/// The bans that an element of the answer tells of: its identifier read as
/// a decimal number and its trade ban read by name, the rest as it stands.
pub open spec fn ban_of(element: ResponseElement) -> Result<PlayerBan, PlayerBanError> {
    match parse_decimal(encode_utf8(element.steam_id@)) {
        None => Err(PlayerBanError::InvalidSteamId(element.steam_id)),
        Some(raw) => match EconomyBan::from_name(element.economy_ban@) {
            None => Err(PlayerBanError::InvalidEconomyBan(element.economy_ban)),
            Some(economy_ban) => Ok(
                PlayerBan {
                    steam_id: SteamId(raw),
                    community_banned: element.community_banned,
                    vac_banned: element.vac_banned,
                    number_of_vac_bans: element.number_of_vac_bans,
                    days_since_last_ban: element.days_since_last_ban,
                    number_of_game_bans: element.number_of_game_bans,
                    economy_ban,
                },
            ),
        },
    }
}

impl ResponseElement {
    /// Reads the bans that this element tells of.
    pub fn parse_steam_json(self) -> (ban: Result<PlayerBan, PlayerBanError>)
        ensures
            ban == ban_of(self),
    {
        let raw = match parse_u64(self.steam_id.as_str()) {
            Some(raw) => raw,
            None => {
                return Err(PlayerBanError::InvalidSteamId(self.steam_id));
            },
        };
        let economy_ban = match EconomyBan::try_from(self.economy_ban.as_str()) {
            Ok(economy_ban) => economy_ban,
            Err(_) => {
                return Err(PlayerBanError::InvalidEconomyBan(self.economy_ban));
            },
        };
        Ok(
            PlayerBan {
                steam_id: SteamId(raw),
                community_banned: self.community_banned,
                vac_banned: self.vac_banned,
                number_of_vac_bans: self.number_of_vac_bans,
                days_since_last_ban: self.days_since_last_ban,
                number_of_game_bans: self.number_of_game_bans,
                economy_ban,
            },
        )
    }
}

/// The bans of some profiles, by the raw value of their identifiers.
#[derive(Debug)]
pub struct PlayerBans {
    inner: HashMap<u64, PlayerBan>,
}

impl View for PlayerBans {
    type V = Map<u64, PlayerBan>;

    closed spec fn view(&self) -> Map<u64, PlayerBan> {
        self.inner@
    }
}

/// The bans of `players` by identifier; of two with the same identifier
/// the later one stays.
pub open spec fn bans_by_id(players: Seq<PlayerBan>) -> Map<u64, PlayerBan>
    decreases players.len(),
{
    if players.len() == 0 {
        Map::empty()
    } else {
        bans_by_id(players.drop_last()).insert(players.last().steam_id.0, players.last())
    }
}

impl PlayerBans {
    /// Files the bans by identifier.
    pub fn from_players(players: Vec<PlayerBan>) -> (bans: PlayerBans)
        ensures
            bans@ == bans_by_id(players@),
    {
        let mut inner: HashMap<u64, PlayerBan> = HashMap::new();
        for ban in it: players
            invariant
                inner@ == bans_by_id(it.seq().take(it.index() as int)),
        {
            proof {
                let grown = it.seq().take(it.index() + 1);
                assert(grown.drop_last() == it.seq().take(it.index() as int));
                assert(grown.last() == ban);
            }
            inner.insert(ban.steam_id.0, ban);
        }
        assert(players@.take(players@.len() as int) == players@);
        PlayerBans { inner }
    }

    /// The bans by the raw value of the identifier.
    pub fn into_inner(self) -> (inner: HashMap<u64, PlayerBan>)
        ensures
            inner@ == self@,
    {
        self.inner
    }

    /// The bans of the profile `id`, if they are among these.
    pub fn get(&self, id: SteamId) -> (ban: Option<&PlayerBan>)
        ensures
            ban == (if self@.contains_key(id.0) {
                Some(&self@[id.0])
            } else {
                None
            }),
    {
        self.inner.get(&id.0)
    }

    /// The number of profiles whose bans these are.
    pub fn len(&self) -> (len: usize)
        ensures
            len == self@.len(),
    {
        self.inner.len()
    }
}

/// Reads the bans that the elements of an answer tell of and files them by
/// identifier. The first element that cannot be read makes the whole
/// answer unreadable.
pub fn parse_steam_json(players: Vec<ResponseElement>) -> (bans: Result<PlayerBans, PlayerBanError>)
    ensures
        bans matches Ok(b) ==> exists|read: Seq<PlayerBan>|
            #[trigger] all_read(players@, read) && b@ == bans_by_id(read),
        bans matches Err(error) ==> exists|i: int|
            0 <= i < players@.len() && #[trigger] ban_of(players@[i]) == Err::<
                PlayerBan,
                PlayerBanError,
            >(error) && forall|k: int| 0 <= k < i ==> ban_of(#[trigger] players@[k]) is Ok,
{
    let mut read: Vec<PlayerBan> = Vec::new();
    for element in it: players
        invariant
            all_read(it.seq().take(it.index() as int), read@),
    {
        let ghost seen = it.seq().take(it.index() as int);
        let ghost grown = it.seq().take(it.index() + 1);
        match element.parse_steam_json() {
            Ok(ban) => {
                proof {
                    let longer = read@.push(ban);
                    assert forall|k: int| 0 <= k < grown.len() implies ban_of(#[trigger] grown[k])
                        == Ok::<PlayerBan, PlayerBanError>(longer[k]) by {
                        if k < seen.len() {
                            assert(seen[k] == grown[k]);
                        }
                    }
                }
                read.push(ban);
            },
            Err(error) => {
                proof {
                    assert(ban_of(it.seq()[it.index() as int]) == Err::<PlayerBan, PlayerBanError>(
                        error,
                    ));
                    assert forall|k: int| 0 <= k < it.index() implies ban_of(
                        #[trigger] it.seq()[k],
                    ) is Ok by {
                        assert(seen[k] == it.seq()[k]);
                    }
                }
                return Err(error);
            },
        }
    }
    proof {
        assert(players@.take(players@.len() as int) == players@);
    }
    Ok(PlayerBans::from_players(read))
}

/// Whether `read` holds, for each element in turn, the bans that it tells
/// of.
pub open spec fn all_read(elements: Seq<ResponseElement>, read: Seq<PlayerBan>) -> bool {
    &&& read.len() == elements.len()
    &&& forall|k: int|
        0 <= k < elements.len() ==> ban_of(#[trigger] elements[k]) == Ok::<
            PlayerBan,
            PlayerBanError,
        >(read[k])
}

impl Client {
    /// The parameters of the request for the bans of the profiles `ids`:
    /// the credential in use and the list of identifiers. One request
    /// carries at most a hundred different identifiers.
    pub fn player_bans_query(&self, ids: &[SteamId]) -> (query: Result<
        Vec<(String, String)>,
        PlayerBanError,
    >)
        ensures
            query is Ok <==> ids_text(ids@, PLAYER_BANS_IDS_PER_REQUEST) is Some,
            query matches Ok(q) ==> params_view(q@) == seq![
                ("key"@, self@.api_keys[0]),
                ("steamids"@, ids_text(ids@, PLAYER_BANS_IDS_PER_REQUEST).unwrap()),
            ],
            query matches Err(error) ==> error is TooManyIds,
    {
        let list = match ids_query(ids, PLAYER_BANS_IDS_PER_REQUEST) {
            Some(list) => list,
            None => {
                return Err(PlayerBanError::TooManyIds);
            },
        };
        let mut query: Vec<(String, String)> = Vec::new();
        query.push(param("key", self.api_key()));
        query.push(param("steamids", list.as_str()));
        assert(params_view(query@) == seq![
            ("key"@, self@.api_keys[0]),
            ("steamids"@, ids_text(ids@, PLAYER_BANS_IDS_PER_REQUEST).unwrap()),
        ]) by {
            assert(params_view(query@)[0] == ("key"@, self@.api_keys[0]));
            assert(params_view(query@)[1] == ("steamids"@, list@));
        }
        Ok(query)
    }
}

} // verus!
