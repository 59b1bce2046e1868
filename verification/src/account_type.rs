//! The account category that is packed into bits 52 to 55 of an identifier.

use crate::enum_error::EnumError;
use vstd::prelude::*;
use vstd::std_specs::convert::TryFromSpecImpl;

verus! {

/// Category of an account.
#[derive(Debug, Clone, Copy, PartialEq, Eq, Structural)]
pub enum AccountType {
    Invalid,
    Individual,
    Multiseat,
    GameServer,
    AnonGameServer,
    Pending,
    ContentServer,
    Clan,
    Chat,
    SuperSeeder,
    AnonUser,
}

impl AccountType {
    /// The variant that the protocol numbers `code`, if there is one.
    pub open spec fn from_code(code: u64) -> Option<AccountType> {
        if code == 0 {
            Some(AccountType::Invalid)
        } else if code == 1 {
            Some(AccountType::Individual)
        } else if code == 2 {
            Some(AccountType::Multiseat)
        } else if code == 3 {
            Some(AccountType::GameServer)
        } else if code == 4 {
            Some(AccountType::AnonGameServer)
        } else if code == 5 {
            Some(AccountType::Pending)
        } else if code == 6 {
            Some(AccountType::ContentServer)
        } else if code == 7 {
            Some(AccountType::Clan)
        } else if code == 8 {
            Some(AccountType::Chat)
        } else if code == 9 {
            Some(AccountType::SuperSeeder)
        } else if code == 10 {
            Some(AccountType::AnonUser)
        } else {
            None
        }
    }

    /// The number that the protocol gives this variant.
    pub open spec fn code(self) -> u64 {
        match self {
            AccountType::Invalid => 0,
            AccountType::Individual => 1,
            AccountType::Multiseat => 2,
            AccountType::GameServer => 3,
            AccountType::AnonGameServer => 4,
            AccountType::Pending => 5,
            AccountType::ContentServer => 6,
            AccountType::Clan => 7,
            AccountType::Chat => 8,
            AccountType::SuperSeeder => 9,
            AccountType::AnonUser => 10,
        }
    }

    /// The letter that stands for this variant in the bracketed text form.
    /// Chat and super seeder accounts have none.
    pub open spec fn letter(self) -> Option<char> {
        match self {
            AccountType::Invalid => Some('I'),
            AccountType::Individual => Some('U'),
            AccountType::Multiseat => Some('M'),
            AccountType::GameServer => Some('G'),
            AccountType::AnonGameServer => Some('A'),
            AccountType::Pending => Some('P'),
            AccountType::ContentServer => Some('C'),
            AccountType::Clan => Some('g'),
            AccountType::Chat => None,
            AccountType::SuperSeeder => None,
            AccountType::AnonUser => Some('a'),
        }
    }

    /// The letter of this variant in the bracketed text form.
    #[verifier::when_used_as_spec(letter)]
    pub fn to_letter(self) -> (l: Option<char>)
        ensures
            l == self.letter(),
    {
        match self {
            AccountType::Invalid => Some('I'),
            AccountType::Individual => Some('U'),
            AccountType::Multiseat => Some('M'),
            AccountType::GameServer => Some('G'),
            AccountType::AnonGameServer => Some('A'),
            AccountType::Pending => Some('P'),
            AccountType::ContentServer => Some('C'),
            AccountType::Clan => Some('g'),
            AccountType::Chat | AccountType::SuperSeeder => None,
            AccountType::AnonUser => Some('a'),
        }
    }

    /// The number of this variant.
    #[verifier::when_used_as_spec(code)]
    pub fn as_u64(self) -> (code: u64)
        ensures
            code == self.code(),
    {
        match self {
            AccountType::Invalid => 0,
            AccountType::Individual => 1,
            AccountType::Multiseat => 2,
            AccountType::GameServer => 3,
            AccountType::AnonGameServer => 4,
            AccountType::Pending => 5,
            AccountType::ContentServer => 6,
            AccountType::Clan => 7,
            AccountType::Chat => 8,
            AccountType::SuperSeeder => 9,
            AccountType::AnonUser => 10,
        }
    }

    /// Numbering a variant and reading the number back gives the variant;
    /// a number that reads as a variant is that variant's number.
    pub proof fn lemma_code_round_trip(variant: AccountType, code: u64)
        ensures
            AccountType::from_code(variant.code()) == Some(variant),
            AccountType::from_code(code) matches Some(v) ==> v.code() == code,
            AccountType::from_code(code) is Some <==> code <= 10,
    {
    }
}

impl TryFrom<u64> for AccountType {
    type Error = EnumError<u64>;

    fn try_from(value: u64) -> (res: Result<Self, Self::Error>) {
        match value {
            0 => Ok(AccountType::Invalid),
            1 => Ok(AccountType::Individual),
            2 => Ok(AccountType::Multiseat),
            3 => Ok(AccountType::GameServer),
            4 => Ok(AccountType::AnonGameServer),
            5 => Ok(AccountType::Pending),
            6 => Ok(AccountType::ContentServer),
            7 => Ok(AccountType::Clan),
            8 => Ok(AccountType::Chat),
            9 => Ok(AccountType::SuperSeeder),
            10 => Ok(AccountType::AnonUser),
            _ => Err(EnumError::Unknown(value)),
        }
    }
}

impl TryFromSpecImpl<u64> for AccountType {
    open spec fn obeys_try_from_spec() -> bool {
        true
    }

    open spec fn try_from_spec(value: u64) -> Result<Self, Self::Error> {
        match AccountType::from_code(value) {
            Some(variant) => Ok(variant),
            None => Err(EnumError::Unknown(value)),
        }
    }
}

} // verus!
