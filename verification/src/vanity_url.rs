//! The name that a user chose for the address of a profile.

use crate::client::{Client, RequestError};
use crate::query::{param, params_view};
use crate::steam_id::{SteamId, SteamIdStr};
use crate::text::{parse_decimal, parse_u64};
use vstd::prelude::*;
use vstd::string::StringExecFns;
use vstd::utf8::encode_utf8;

verus! {

/// Why a name could not be resolved.
#[derive(Debug)]
pub enum VanityUrlError {
    /// The request failed.
    Reqwest(RequestError),
    /// The answer holds this text in place of an identifier.
    InvalidSteamId(String),
    /// No profile goes by this name.
    NotFound(String),
}

/// The answer to the question which profile goes by a name.
#[derive(Debug, Clone, Copy)]
pub struct VanityUrl {
    /// The identifier of the profile, where there is one.
    pub steam_id: Option<SteamIdStr>,
}

/// The identifier that the answer tells of: none where it holds none, the
/// decimal number that it holds otherwise.
pub open spec fn identifier_of(steam_id: Option<String>) -> Result<Option<SteamId>, VanityUrlError> {
    match steam_id {
        None => Ok(None),
        Some(text) => match parse_decimal(encode_utf8(text@)) {
            Some(raw) => Ok(Some(SteamId(raw))),
            None => Err(VanityUrlError::InvalidSteamId(text)),
        },
    }
}

/// Reads the identifier that the answer tells of.
pub fn parse_steam_json(steam_id: Option<String>) -> (id: Result<Option<SteamId>, VanityUrlError>)
    ensures
        id == identifier_of(steam_id),
{
    let text = match steam_id {
        Some(text) => text,
        None => {
            return Ok(None);
        },
    };
    match parse_u64(text.as_str()) {
        Some(raw) => Ok(Some(SteamId(raw))),
        None => Err(VanityUrlError::InvalidSteamId(text)),
    }
}

impl VanityUrl {
    /// The identifier of the profile that goes by `vanity_url`, or the
    /// name itself as what was not found.
    pub fn resolve(self, vanity_url: &str) -> (id: Result<SteamId, VanityUrlError>)
        ensures
            self.steam_id matches Some(found) ==> (id matches Ok(i) && i.0 == found.0),
            self.steam_id is None ==> (id matches Err(VanityUrlError::NotFound(name)) && name@
                == vanity_url@),
    {
        match self.steam_id {
            Some(found) => Ok(found.steam_id()),
            None => Err(VanityUrlError::NotFound(String::from_str(vanity_url))),
        }
    }
}

impl Client {
    /// The parameters of the request that resolves `vanity_url`.
    pub fn vanity_url_query(&self, vanity_url: &str) -> (query: Vec<(String, String)>)
        ensures
            params_view(query@) == seq![
                ("key"@, self@.api_keys[0]),
                ("vanityurl"@, vanity_url@),
            ],
    {
        let mut query: Vec<(String, String)> = Vec::new();
        query.push(param("key", self.api_key()));
        query.push(param("vanityurl", vanity_url));
        assert(params_view(query@) == seq![
            ("key"@, self@.api_keys[0]),
            ("vanityurl"@, vanity_url@),
        ]) by {
            assert(params_view(query@)[0] == ("key"@, self@.api_keys[0]));
            assert(params_view(query@)[1] == ("vanityurl"@, vanity_url@));
        }
        query
    }
}

} // verus!
