//! The deployment realm that is packed into the top byte of an identifier.

use crate::enum_error::EnumError;
use vstd::prelude::*;
use vstd::std_specs::convert::TryFromSpecImpl;

verus! {

/// Realm in which an account lives.
#[derive(Debug, Clone, Copy, PartialEq, Eq, Structural)]
pub enum Universe {
    Invalid,
    Public,
    Beta,
    Internal,
    Dev,
    Rc,
}

impl Universe {
    /// The variant that the protocol numbers `code`, if there is one.
    pub open spec fn from_code(code: u64) -> Option<Universe> {
        if code == 0 {
            Some(Universe::Invalid)
        } else if code == 1 {
            Some(Universe::Public)
        } else if code == 2 {
            Some(Universe::Beta)
        } else if code == 3 {
            Some(Universe::Internal)
        } else if code == 4 {
            Some(Universe::Dev)
        } else if code == 5 {
            Some(Universe::Rc)
        } else {
            None
        }
    }

    /// The number that the protocol gives this variant.
    pub open spec fn code(self) -> u64 {
        match self {
            Universe::Invalid => 0,
            Universe::Public => 1,
            Universe::Beta => 2,
            Universe::Internal => 3,
            Universe::Dev => 4,
            Universe::Rc => 5,
        }
    }

    /// The number of this variant.
    #[verifier::when_used_as_spec(code)]
    pub fn as_u64(self) -> (code: u64)
        ensures
            code == self.code(),
    {
        match self {
            Universe::Invalid => 0,
            Universe::Public => 1,
            Universe::Beta => 2,
            Universe::Internal => 3,
            Universe::Dev => 4,
            Universe::Rc => 5,
        }
    }

    /// Numbering a variant and reading the number back gives the variant;
    /// a number that reads as a variant is that variant's number.
    pub proof fn lemma_code_round_trip(variant: Universe, code: u64)
        ensures
            Universe::from_code(variant.code()) == Some(variant),
            Universe::from_code(code) matches Some(v) ==> v.code() == code,
            Universe::from_code(code) is Some <==> code <= 5,
    {
    }
}

impl TryFrom<u64> for Universe {
    type Error = EnumError<u64>;

    fn try_from(value: u64) -> (res: Result<Self, Self::Error>) {
        match value {
            0 => Ok(Universe::Invalid),
            1 => Ok(Universe::Public),
            2 => Ok(Universe::Beta),
            3 => Ok(Universe::Internal),
            4 => Ok(Universe::Dev),
            5 => Ok(Universe::Rc),
            _ => Err(EnumError::Unknown(value)),
        }
    }
}

impl TryFromSpecImpl<u64> for Universe {
    open spec fn obeys_try_from_spec() -> bool {
        true
    }

    open spec fn try_from_spec(value: u64) -> Result<Self, Self::Error> {
        match Universe::from_code(value) {
            Some(variant) => Ok(variant),
            None => Err(EnumError::Unknown(value)),
        }
    }
}

} // verus!
