//! The friends of a profile.

use crate::client::{Client, RequestError, UNAUTHORIZED};
use crate::query::{param, params_view};
use crate::steam_id::SteamId;
use crate::steam_time::{has_date, SteamTime};
use crate::text::{decimal_text, parse_decimal, parse_u64};
use std::collections::HashMap;
use vstd::prelude::*;
use vstd::utf8::encode_utf8;

verus! {

broadcast use vstd::std_specs::hash::group_hash_axioms;

/// Why the friends of a profile could not be had.
#[derive(Debug)]
pub enum PlayerFriendsError {
    /// The request failed.
    Reqwest(RequestError),
    /// The answer holds this text in place of an identifier.
    InvalidSteamId(String),
    /// The answer holds this number of seconds, for which the calendar has
    /// no date.
    InvalidTimestamp(i64),
}

/// One friend, as the service writes it.
#[derive(Debug)]
pub struct ResponseInnerElement {
    pub steam_id: String,
    pub relationship: String,
    pub friends_since: i64,
}

/// One friend of a profile.
#[derive(Debug)]
pub struct Friend {
    pub steam_id: SteamId,
    pub friends_since: SteamTime,
}

/// The friend that an element of the answer tells of.
pub open spec fn friend_of(element: ResponseInnerElement) -> Result<Friend, PlayerFriendsError> {
    match parse_decimal(encode_utf8(element.steam_id@)) {
        None => Err(PlayerFriendsError::InvalidSteamId(element.steam_id)),
        Some(raw) => if has_date(element.friends_since) {
            Ok(Friend { steam_id: SteamId(raw), friends_since: SteamTime::at(element.friends_since) })
        } else {
            Err(PlayerFriendsError::InvalidTimestamp(element.friends_since))
        },
    }
}

/// Whether `read` holds, for each element in turn, the friend that it
/// tells of.
pub open spec fn all_read(elements: Seq<ResponseInnerElement>, read: Seq<Friend>) -> bool {
    &&& read.len() == elements.len()
    &&& forall|k: int|
        0 <= k < elements.len() ==> friend_of(#[trigger] elements[k]) == Ok::<
            Friend,
            PlayerFriendsError,
        >(read[k])
}

impl Friend {
    /// Reads the friend that an element of the answer tells of.
    pub fn parse_response(value: ResponseInnerElement) -> (friend: Result<Friend, PlayerFriendsError>)
        ensures
            friend == friend_of(value),
    {
        let raw = match parse_u64(value.steam_id.as_str()) {
            Some(raw) => raw,
            None => {
                return Err(PlayerFriendsError::InvalidSteamId(value.steam_id));
            },
        };
        match SteamTime::from_timestamp(value.friends_since) {
            Some(time) => Ok(Friend { steam_id: SteamId(raw), friends_since: time }),
            None => Err(PlayerFriendsError::InvalidTimestamp(value.friends_since)),
        }
    }
}

/// What reading `elements` gives: all friends in order, or the error of the
/// first element that cannot be read.
pub open spec fn read_as(elements: Seq<ResponseInnerElement>, friends: Result<
    Vec<Friend>,
    PlayerFriendsError,
>) -> bool {
    match friends {
        Ok(list) => all_read(elements, list@),
        Err(error) => exists|i: int|
            0 <= i < elements.len() && #[trigger] friend_of(elements[i]) == Err::<
                Friend,
                PlayerFriendsError,
            >(error) && forall|k: int| 0 <= k < i ==> friend_of(#[trigger] elements[k]) is Ok,
    }
}

/// Reads the friends that the elements of an answer tell of. The first
/// element that cannot be read makes the whole answer unreadable.
pub fn read_friends(elements: Vec<ResponseInnerElement>) -> (friends: Result<
    Vec<Friend>,
    PlayerFriendsError,
>)
    ensures
        read_as(elements@, friends),
{
    let mut read: Vec<Friend> = Vec::with_capacity(elements.len());
    for element in it: elements
        invariant
            all_read(it.seq().take(it.index() as int), read@),
    {
        let ghost seen = it.seq().take(it.index() as int);
        let ghost grown = it.seq().take(it.index() + 1);
        match Friend::parse_response(element) {
            Ok(friend) => {
                proof {
                    let longer = read@.push(friend);
                    assert forall|k: int| 0 <= k < grown.len() implies friend_of(
                        #[trigger] grown[k],
                    ) == Ok::<Friend, PlayerFriendsError>(longer[k]) by {
                        if k < seen.len() {
                            assert(seen[k] == grown[k]);
                        }
                    }
                }
                read.push(friend);
            },
            Err(error) => {
                proof {
                    assert(friend_of(it.seq()[it.index() as int]) == Err::<
                        Friend,
                        PlayerFriendsError,
                    >(error));
                    assert forall|k: int| 0 <= k < it.index() implies friend_of(
                        #[trigger] it.seq()[k],
                    ) is Ok by {
                        assert(seen[k] == it.seq()[k]);
                    }
                }
                return Err(error);
            },
        }
    }
    proof {
        assert(elements@.take(elements@.len() as int) == elements@);
    }
    Ok(read)
}

/// Reads the friends that an answer tells of. An answer with the status
/// "unauthorized" tells that the friends are private: there is no list
/// then, and no error either.
pub fn friend_list(answer: Result<Vec<ResponseInnerElement>, RequestError>) -> (friends: Result<
    Option<Vec<Friend>>,
    PlayerFriendsError,
>)
    ensures
        answer matches Err(error) ==> friends == (if error == RequestError::Status(UNAUTHORIZED) {
            Ok::<Option<Vec<Friend>>, PlayerFriendsError>(None)
        } else {
            Err(PlayerFriendsError::Reqwest(error))
        }),
        answer matches Ok(elements) ==> match friends {
            Ok(Some(list)) => read_as(elements@, Ok(list)),
            Ok(None) => false,
            Err(error) => read_as(elements@, Err(error)),
        },
{
    match answer {
        Ok(elements) => match read_friends(elements) {
            Ok(list) => Ok(Some(list)),
            Err(error) => Err(error),
        },
        Err(error) => match error {
            RequestError::Status(code) => if code == UNAUTHORIZED {
                Ok(None)
            } else {
                Err(PlayerFriendsError::Reqwest(error))
            },
            _ => Err(PlayerFriendsError::Reqwest(error)),
        },
    }
}

/// The friends of a profile by the raw value of their identifiers, or
/// nothing where the owner keeps them private.
#[derive(Debug)]
pub struct FriendsList {
    inner: Option<HashMap<u64, Friend>>,
}

/// The friends by identifier; of two with the same identifier the later
/// one stays.
pub open spec fn friends_by_id(friends: Seq<Friend>) -> Map<u64, Friend>
    decreases friends.len(),
{
    if friends.len() == 0 {
        Map::empty()
    } else {
        friends_by_id(friends.drop_last()).insert(friends.last().steam_id.0, friends.last())
    }
}

impl View for FriendsList {
    type V = Option<Map<u64, Friend>>;

    closed spec fn view(&self) -> Option<Map<u64, Friend>> {
        match self.inner {
            Some(map) => Some(map@),
            None => None,
        }
    }
}

impl FriendsList {
    /// Files the friends by identifier, where there is a list of them.
    pub fn from_friends(friends: Option<Vec<Friend>>) -> (list: FriendsList)
        ensures
            list@ == match friends {
                Some(friends) => Some(friends_by_id(friends@)),
                None => None,
            },
    {
        let friends = match friends {
            Some(friends) => friends,
            None => {
                return FriendsList { inner: None };
            },
        };
        let mut inner: HashMap<u64, Friend> = HashMap::new();
        for friend in it: friends
            invariant
                inner@ == friends_by_id(it.seq().take(it.index() as int)),
        {
            proof {
                let grown = it.seq().take(it.index() + 1);
                assert(grown.drop_last() == it.seq().take(it.index() as int));
                assert(grown.last() == friend);
            }
            inner.insert(friend.steam_id.0, friend);
        }
        assert(friends@.take(friends@.len() as int) == friends@);
        FriendsList { inner: Some(inner) }
    }

    /// The friends by identifier, where they are not private.
    pub fn into_inner(self) -> (inner: Option<HashMap<u64, Friend>>)
        ensures
            inner is Some <==> self@ is Some,
            inner matches Some(map) ==> Some(map@) == self@,
    {
        self.inner
    }

    /// The friends by identifier, where they are not private.
    pub fn as_inner_ref(&self) -> (inner: Option<&HashMap<u64, Friend>>)
        ensures
            inner is Some <==> self@ is Some,
            inner matches Some(map) ==> Some(map@) == self@,
    {
        self.inner.as_ref()
    }
}

impl Client {
    /// The parameters of the request for the friends of the profile `id`.
    pub fn player_friends_query(&self, id: SteamId) -> (query: Vec<(String, String)>)
        ensures
            params_view(query@) == seq![
                ("key"@, self@.api_keys[0]),
                ("relationship"@, "friend"@),
                ("steamid"@, decimal_text(id.0 as nat)),
            ],
    {
        let text = id.to_decimal_string();
        let mut query: Vec<(String, String)> = Vec::new();
        query.push(param("key", self.api_key()));
        query.push(param("relationship", "friend"));
        query.push(param("steamid", text.as_str()));
        assert(params_view(query@) == seq![
            ("key"@, self@.api_keys[0]),
            ("relationship"@, "friend"@),
            ("steamid"@, decimal_text(id.0 as nat)),
        ]) by {
            assert(params_view(query@)[0] == ("key"@, self@.api_keys[0]));
            assert(params_view(query@)[1] == ("relationship"@, "friend"@));
            assert(params_view(query@)[2] == ("steamid"@, text@));
        }
        query
    }
}

} // verus!
