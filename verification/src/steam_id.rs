//! The packed 64-bit account identifier and its text forms.
//!
//! From the lowest bit up, an identifier holds: one bit `Y`, 31 bits of
//! account number, 20 bits of instance, 4 bits of account type and 8 bits
//! of universe.

use crate::account_type::AccountType;
use crate::text::{decimal_text, parse_decimal, parse_u64, push_char, push_decimal};
use crate::universe::Universe;
use std::str::FromStr;
use vstd::prelude::*;
use vstd::std_specs::convert::FromSpecImpl;
use vstd::string::{StringExecFns, StringSliceAdditionalSpecFns};

verus! {

/// A 64-bit account identifier.
#[derive(Debug, Clone, Copy, PartialEq, Eq, PartialOrd, Ord, Hash, Structural)]
pub struct SteamId(pub u64);

/// The same identifier, for places where it travels as decimal text rather
/// than as a number.
#[derive(Debug, Clone, Copy, PartialEq, Eq, PartialOrd, Ord, Hash, Structural)]
pub struct SteamIdStr(pub u64);

/// Why a text was not accepted as an identifier.
#[derive(Debug, Clone, Copy, PartialEq, Eq, Structural)]
pub enum SteamIdError {
    /// The text is not made of decimal digits alone, or the number it
    /// writes does not fit in 64 bits.
    InvalidString,
    /// The friend code does not have the length of a friend code.
    InvalidFormat,
    /// The friend code holds a character outside the friend-code alphabet.
    InvalidSymbol,
}

impl SteamId {
    /// Largest number of decimal digits that a 64-bit number needs.
    pub const MAX_DIGITS_FOR_U64: usize = 20;

    /// Bit 0: the low bit of the account's sequence number.
    pub open spec fn spec_y(&self) -> u64 {
        self.0 & 0x1
    }

    /// Bits 1 to 31: the account number.
    pub open spec fn spec_acc_nr(&self) -> u64 {
        (self.0 >> 1u64) & 0x7fff_ffff
    }

    /// Bits 32 to 51: the instance of the account.
    pub open spec fn spec_instance(&self) -> u64 {
        (self.0 >> 32u64) & 0xf_ffff
    }

    /// Bits 52 to 55: the number of the account type.
    pub open spec fn type_code(&self) -> u64 {
        (self.0 >> 52u64) & 0xf
    }

    /// Bits 56 to 63: the number of the universe.
    pub open spec fn universe_code(&self) -> u64 {
        (self.0 >> 56u64) & 0xff
    }

    /// The account type, where bits 52 to 55 number one.
    pub open spec fn spec_acc_type(&self) -> Option<AccountType> {
        AccountType::from_code(self.type_code())
    }

    /// The universe, where bits 56 to 63 number one.
    pub open spec fn spec_universe(&self) -> Option<Universe> {
        Universe::from_code(self.universe_code())
    }

    /// Twice the account number plus `Y`.
    pub open spec fn spec_w(&self) -> u64 {
        (2 * self.spec_acc_nr() + self.spec_y()) as u64
    }

    /// The text `STEAM_X:Y:Z` of an identifier in universe `universe`.
    pub open spec fn steam2_text(&self, universe: Universe) -> Seq<char> {
        "STEAM_"@ + decimal_text(universe.code() as nat) + ":"@ + decimal_text(
            self.spec_y() as nat,
        ) + ":"@ + decimal_text(self.spec_acc_nr() as nat)
    }

    /// The text `[L:1:W]` of an identifier whose account type has the
    /// letter `letter`.
    pub open spec fn steam3_text(&self, letter: char) -> Seq<char> {
        "["@.push(letter) + ":1:"@ + decimal_text(self.spec_w() as nat) + "]"@
    }

    /// Twice the account number plus `Y`: the low 32 bits.
    #[verifier::when_used_as_spec(spec_w)]
    pub fn w(&self) -> (w: u64)
        ensures
            w == self.spec_w(),
            w == self.0 & 0xffff_ffff,
    {
        proof {
            lemma_low_word(self.0);
        }
        2 * self.acc_nr() + self.y()
    }

    /// The low bit of the account's sequence number.
    #[verifier::when_used_as_spec(spec_y)]
    pub fn y(&self) -> (y: u64)
        ensures
            y == self.spec_y(),
    {
        self.0 & 0x1
    }

    /// The account number.
    #[verifier::when_used_as_spec(spec_acc_nr)]
    pub fn acc_nr(&self) -> (z: u64)
        ensures
            z == self.spec_acc_nr(),
    {
        (self.0 >> 1) & 0x7fff_ffff
    }

    /// The instance of the account.
    #[verifier::when_used_as_spec(spec_instance)]
    pub fn instance(&self) -> (instance: u64)
        ensures
            instance == self.spec_instance(),
    {
        (self.0 >> 32) & 0xf_ffff
    }

    /// The account type, where the type bits number one.
    #[verifier::when_used_as_spec(spec_acc_type)]
    pub fn acc_type(&self) -> (acc_type: Option<AccountType>)
        ensures
            acc_type == self.spec_acc_type(),
    {
        match AccountType::try_from((self.0 >> 52) & 0xf) {
            Ok(acc_type) => Some(acc_type),
            Err(_) => None,
        }
    }

    /// The universe, where the universe bits number one.
    #[verifier::when_used_as_spec(spec_universe)]
    pub fn universe(&self) -> (universe: Option<Universe>)
        ensures
            universe == self.spec_universe(),
    {
        match Universe::try_from((self.0 >> 56) & 0xff) {
            Ok(universe) => Some(universe),
            Err(_) => None,
        }
    }

    /// The identifier as a number.
    pub fn as_u64(self) -> (raw: u64)
        ensures
            raw == self.0,
    {
        self.0
    }

    /// The text form `STEAM_X:Y:Z`, where `X` numbers the universe and `Z`
    /// is the account number. There is none where the universe bits number
    /// no universe.
    pub fn to_steam_id(&self) -> (text: Option<String>)
        ensures
            text is Some <==> self.spec_universe() is Some,
            text matches Some(t) ==> t@ == self.steam2_text(self.spec_universe().unwrap()),
    {
        let x = match self.universe() {
            Some(universe) => universe.as_u64(),
            None => {
                return None;
            },
        };
        let mut buf = String::new();
        buf.append("STEAM_");
        push_decimal(&mut buf, x);
        buf.append(":");
        push_decimal(&mut buf, self.y());
        buf.append(":");
        push_decimal(&mut buf, self.acc_nr());
        Some(buf)
    }

    /// The text form `[L:1:W]`, where `L` is the letter of the account type.
    /// There is none where the type bits number no account type, or one
    /// that has no letter.
    pub fn to_steam_id_3(&self) -> (text: Option<String>)
        ensures
            text is Some <==> (self.spec_acc_type() matches Some(t) && t.letter() is Some),
            text matches Some(t) ==> t@ == self.steam3_text(
                self.spec_acc_type().unwrap().letter().unwrap(),
            ),
    {
        let letter = match self.acc_type() {
            Some(acc_type) => match acc_type.to_letter() {
                Some(letter) => letter,
                None => {
                    return None;
                },
            },
            None => {
                return None;
            },
        };
        let mut buf = String::new();
        buf.append("[");
        push_char(&mut buf, letter);
        buf.append(":1:");
        push_decimal(&mut buf, self.w());
        buf.append("]");
        Some(buf)
    }

    /// The identifier as decimal text.
    pub fn to_decimal_string(&self) -> (text: String)
        ensures
            text@ == decimal_text(self.0 as nat),
    {
        let mut buf = String::new();
        push_decimal(&mut buf, self.0);
        buf
    }

    /// The identifier that `text` writes in decimal. The text is digits and
    /// nothing else: no sign, no blank.
    pub fn from_decimal_string(text: &str) -> (id: Result<SteamId, SteamIdError>)
        ensures
            id == match parse_decimal(text.spec_bytes()) {
                Some(raw) => Ok::<SteamId, SteamIdError>(SteamId(raw)),
                None => Err(SteamIdError::InvalidString),
            },
    {
        match parse_u64(text) {
            Some(raw) => Ok(SteamId(raw)),
            None => Err(SteamIdError::InvalidString),
        }
    }

    /// The five fields fill the identifier without gap or overlap, and each
    /// stays within its width.
    pub proof fn lemma_fields(id: SteamId)
        ensures
            id.0 == id.spec_y() | (id.spec_acc_nr() << 1u64) | (id.spec_instance() << 32u64) | (
            id.type_code() << 52u64) | (id.universe_code() << 56u64),
            id.spec_y() <= 1,
            id.spec_acc_nr() <= 0x7fff_ffff,
            id.spec_instance() <= 0xf_ffff,
            id.type_code() <= 0xf,
            id.universe_code() <= 0xff,
    {
        lemma_fields_of(id.0);
    }
}

proof fn lemma_fields_of(raw: u64)
    by (bit_vector)
    ensures
        raw == (raw & 0x1) | (((raw >> 1u64) & 0x7fff_ffff) << 1u64) | (((raw >> 32u64) & 0xf_ffff)
            << 32u64) | (((raw >> 52u64) & 0xf) << 52u64) | (((raw >> 56u64) & 0xff) << 56u64),
        raw & 0x1 <= 1,
        (raw >> 1u64) & 0x7fff_ffff <= 0x7fff_ffff,
        (raw >> 32u64) & 0xf_ffff <= 0xf_ffff,
        (raw >> 52u64) & 0xf <= 0xf,
        (raw >> 56u64) & 0xff <= 0xff,
{
}

proof fn lemma_low_word(raw: u64)
    by (bit_vector)
    ensures
        raw & 0x1 <= 1,
        (raw >> 1u64) & 0x7fff_ffff <= 0x7fff_ffff,
        2 * ((raw >> 1u64) & 0x7fff_ffff) + (raw & 0x1) == raw & 0xffff_ffff,
{
}

impl SteamIdStr {
    /// The identifier.
    pub fn steam_id(self) -> (id: SteamId)
        ensures
            id.0 == self.0,
    {
        SteamId(self.0)
    }
}

impl From<SteamIdStr> for SteamId {
    fn from(value: SteamIdStr) -> (id: Self) {
        SteamId(value.0)
    }
}

impl FromSpecImpl<SteamIdStr> for SteamId {
    open spec fn obeys_from_spec() -> bool {
        true
    }

    open spec fn from_spec(value: SteamIdStr) -> Self {
        SteamId(value.0)
    }
}

impl From<SteamId> for SteamIdStr {
    fn from(value: SteamId) -> (id: Self) {
        SteamIdStr(value.0)
    }
}

impl FromSpecImpl<SteamId> for SteamIdStr {
    open spec fn obeys_from_spec() -> bool {
        true
    }

    open spec fn from_spec(value: SteamId) -> Self {
        SteamIdStr(value.0)
    }
}

impl From<u64> for SteamId {
    fn from(id: u64) -> (res: Self) {
        SteamId(id)
    }
}

impl FromSpecImpl<u64> for SteamId {
    open spec fn obeys_from_spec() -> bool {
        true
    }

    open spec fn from_spec(id: u64) -> Self {
        SteamId(id)
    }
}

impl From<i64> for SteamId {
    /// A negative number gives the identifier zero.
    fn from(id: i64) -> (res: Self) {
        if id < 0 {
            SteamId(0)
        } else {
            SteamId(id as u64)
        }
    }
}

impl FromSpecImpl<i64> for SteamId {
    open spec fn obeys_from_spec() -> bool {
        true
    }

    open spec fn from_spec(id: i64) -> Self {
        if id < 0 {
            SteamId(0)
        } else {
            SteamId(id as u64)
        }
    }
}

impl FromStr for SteamId {
    type Err = SteamIdError;

    fn from_str(s: &str) -> (res: Result<Self, Self::Err>)
        ensures
            res == match parse_decimal(s.spec_bytes()) {
                Some(raw) => Ok::<SteamId, SteamIdError>(SteamId(raw)),
                None => Err(SteamIdError::InvalidString),
            },
    {
        SteamId::from_decimal_string(s)
    }
}

} // verus!
