//! The enumerations with which the service describes a profile.

use crate::enum_error::EnumError;
use crate::text::str_eq;
use vstd::prelude::*;
use vstd::std_specs::convert::TryFromSpecImpl;

verus! {

/// What a user is doing right now.
#[derive(Debug, Clone, Copy, PartialEq, Eq, PartialOrd, Ord, Hash, Structural)]
pub enum PersonaState {
    Offline,
    Online,
    Busy,
    Away,
    Snooze,
    LookingToTrade,
    LookingToPlay,
    Invisible,
}

impl PersonaState {
    /// The variant that the service numbers `code`, if there is one.
    pub open spec fn from_code(code: int) -> Option<PersonaState> {
        if code == 0 {
            Some(PersonaState::Offline)
        } else if code == 1 {
            Some(PersonaState::Online)
        } else if code == 2 {
            Some(PersonaState::Busy)
        } else if code == 3 {
            Some(PersonaState::Away)
        } else if code == 4 {
            Some(PersonaState::Snooze)
        } else if code == 5 {
            Some(PersonaState::LookingToTrade)
        } else if code == 6 {
            Some(PersonaState::LookingToPlay)
        } else if code == 7 {
            Some(PersonaState::Invisible)
        } else {
            None
        }
    }
}

impl TryFrom<i64> for PersonaState {
    type Error = EnumError<i64>;

    fn try_from(value: i64) -> (res: Result<Self, Self::Error>) {
        match value {
            0 => Ok(PersonaState::Offline),
            1 => Ok(PersonaState::Online),
            2 => Ok(PersonaState::Busy),
            3 => Ok(PersonaState::Away),
            4 => Ok(PersonaState::Snooze),
            5 => Ok(PersonaState::LookingToTrade),
            6 => Ok(PersonaState::LookingToPlay),
            7 => Ok(PersonaState::Invisible),
            _ => Err(EnumError::Unknown(value)),
        }
    }
}

impl TryFromSpecImpl<i64> for PersonaState {
    open spec fn obeys_try_from_spec() -> bool {
        true
    }

    open spec fn try_from_spec(value: i64) -> Result<Self, Self::Error> {
        match PersonaState::from_code(value as int) {
            Some(variant) => Ok(variant),
            None => Err(EnumError::Unknown(value)),
        }
    }
}

impl TryFrom<u64> for PersonaState {
    type Error = EnumError<u64>;

    fn try_from(value: u64) -> (res: Result<Self, Self::Error>) {
        if value > i64::MAX as u64 {
            return Err(EnumError::Unknown(value));
        }
        match PersonaState::try_from(value as i64) {
            Ok(variant) => Ok(variant),
            Err(_) => Err(EnumError::Unknown(value)),
        }
    }
}

impl TryFromSpecImpl<u64> for PersonaState {
    open spec fn obeys_try_from_spec() -> bool {
        true
    }

    open spec fn try_from_spec(value: u64) -> Result<Self, Self::Error> {
        match PersonaState::from_code(value as int) {
            Some(variant) => Ok(variant),
            None => Err(EnumError::Unknown(value)),
        }
    }
}

/// Who may see a profile.
#[derive(Debug, Clone, Copy, PartialEq, Eq, PartialOrd, Ord, Hash, Structural)]
pub enum CommunityVisibilityState {
    Private,
    FriendsOnly,
    Public,
}

impl CommunityVisibilityState {
    /// The variant that the service numbers `code`, if there is one.
    pub open spec fn from_code(code: int) -> Option<CommunityVisibilityState> {
        if code == 1 {
            Some(CommunityVisibilityState::Private)
        } else if code == 2 {
            Some(CommunityVisibilityState::FriendsOnly)
        } else if code == 3 {
            Some(CommunityVisibilityState::Public)
        } else {
            None
        }
    }
}

impl TryFrom<i64> for CommunityVisibilityState {
    type Error = EnumError<i64>;

    fn try_from(value: i64) -> (res: Result<Self, Self::Error>) {
        match value {
            1 => Ok(CommunityVisibilityState::Private),
            2 => Ok(CommunityVisibilityState::FriendsOnly),
            3 => Ok(CommunityVisibilityState::Public),
            _ => Err(EnumError::Unknown(value)),
        }
    }
}

impl TryFromSpecImpl<i64> for CommunityVisibilityState {
    open spec fn obeys_try_from_spec() -> bool {
        true
    }

    open spec fn try_from_spec(value: i64) -> Result<Self, Self::Error> {
        match CommunityVisibilityState::from_code(value as int) {
            Some(variant) => Ok(variant),
            None => Err(EnumError::Unknown(value)),
        }
    }
}

impl TryFrom<u64> for CommunityVisibilityState {
    type Error = EnumError<u64>;

    fn try_from(value: u64) -> (res: Result<Self, Self::Error>) {
        if value > i64::MAX as u64 {
            return Err(EnumError::Unknown(value));
        }
        match CommunityVisibilityState::try_from(value as i64) {
            Ok(variant) => Ok(variant),
            Err(_) => Err(EnumError::Unknown(value)),
        }
    }
}

impl TryFromSpecImpl<u64> for CommunityVisibilityState {
    open spec fn obeys_try_from_spec() -> bool {
        true
    }

    open spec fn try_from_spec(value: u64) -> Result<Self, Self::Error> {
        match CommunityVisibilityState::from_code(value as int) {
            Some(variant) => Ok(variant),
            None => Err(EnumError::Unknown(value)),
        }
    }
}

/// Whether an account is barred from trading.
#[derive(Debug, Clone, Copy, PartialEq, Eq, PartialOrd, Ord, Hash, Structural)]
pub enum EconomyBan {
    NotBanned,
    Probation,
    Banned,
}

impl EconomyBan {
    /// The variant that the service names `name`, if there is one.
    pub open spec fn from_name(name: Seq<char>) -> Option<EconomyBan> {
        if name == "none"@ {
            Some(EconomyBan::NotBanned)
        } else if name == "probation"@ {
            Some(EconomyBan::Probation)
        } else if name == "banned"@ {
            Some(EconomyBan::Banned)
        } else {
            None
        }
    }
}

impl<'a> TryFrom<&'a str> for EconomyBan {
    type Error = EnumError<&'a str>;

    fn try_from(value: &'a str) -> (res: Result<Self, Self::Error>) {
        if str_eq(value, "none") {
            Ok(EconomyBan::NotBanned)
        } else if str_eq(value, "probation") {
            Ok(EconomyBan::Probation)
        } else if str_eq(value, "banned") {
            Ok(EconomyBan::Banned)
        } else {
            Err(EnumError::Unknown(value))
        }
    }
}

impl<'a> TryFromSpecImpl<&'a str> for EconomyBan {
    open spec fn obeys_try_from_spec() -> bool {
        true
    }

    open spec fn try_from_spec(value: &'a str) -> Result<Self, Self::Error> {
        match EconomyBan::from_name(value@) {
            Some(variant) => Ok(variant),
            None => Err(EnumError::Unknown(value)),
        }
    }
}

/// Whether a user has set up a community profile.
#[derive(Debug, Clone, Copy, PartialEq, Eq, PartialOrd, Ord, Hash, Structural)]
pub enum ProfileState {
    Configured,
    NotConfigured,
}

impl ProfileState {
    /// The state that the service reports with `flag`: a missing flag says
    /// that no profile was set up, the flag 1 that one was; no other flag
    /// has a meaning.
    pub open spec fn from_flag(flag: Option<i64>) -> Option<ProfileState> {
        match flag {
            None => Some(ProfileState::NotConfigured),
            Some(value) => if value == 1 {
                Some(ProfileState::Configured)
            } else {
                None
            },
        }
    }
}

impl TryFrom<Option<i64>> for ProfileState {
    type Error = EnumError<i64>;

    fn try_from(flag: Option<i64>) -> (res: Result<Self, Self::Error>) {
        match flag {
            None => Ok(ProfileState::NotConfigured),
            Some(1) => Ok(ProfileState::Configured),
            Some(value) => Err(EnumError::Unknown(value)),
        }
    }
}

impl TryFromSpecImpl<Option<i64>> for ProfileState {
    open spec fn obeys_try_from_spec() -> bool {
        true
    }

    open spec fn try_from_spec(flag: Option<i64>) -> Result<Self, Self::Error> {
        match ProfileState::from_flag(flag) {
            Some(state) => Ok(state),
            None => Err(EnumError::Unknown(flag.unwrap())),
        }
    }
}

} // verus!
