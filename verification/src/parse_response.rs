//! What the answers of the service have in common: they can be read.

use crate::player_bans::{ban_of, PlayerBan, PlayerBanError};
use crate::player_friends::{friend_of, Friend, PlayerFriendsError};
use crate::player_summary::{summary_of, PlayerSummary, PlayerSummaryError};
use crate::user_search::{answer_cuts, is_page_of, Response, UserSearchError, UserSearchPage};
use vstd::prelude::*;

verus! {

/// Values that are read from a part of an answer.
pub trait ParseResponse<T>: Sized {
    type Error;

    /// Whether `value` is one that can be handed to `parse_response`.
    spec fn readable(value: T) -> bool;

    fn parse_response(value: T) -> (read: Result<Self, Self::Error>)
        requires
            Self::readable(value),
    ;
}

/// Parts of an answer that are read into a value.
pub trait ParseJsonResponse: Sized {
    type Error;

    type Output;

    fn parse_steam_json(self) -> (read: Result<Self::Output, Self::Error>);
}

impl ParseJsonResponse for crate::player_bans::ResponseElement {
    type Error = PlayerBanError;

    type Output = PlayerBan;

    fn parse_steam_json(self) -> (read: Result<PlayerBan, PlayerBanError>)
        ensures
            read == ban_of(self),
    {
        crate::player_bans::ResponseElement::parse_steam_json(self)
    }
}

impl ParseJsonResponse for crate::player_summary::ResponseInnerElement {
    type Error = PlayerSummaryError;

    type Output = PlayerSummary;

    fn parse_steam_json(self) -> (read: Result<PlayerSummary, PlayerSummaryError>)
        ensures
            read == summary_of(self),
    {
        crate::player_summary::ResponseInnerElement::parse_steam_json(self)
    }
}

impl ParseResponse<crate::player_friends::ResponseInnerElement> for Friend {
    type Error = PlayerFriendsError;

    open spec fn readable(value: crate::player_friends::ResponseInnerElement) -> bool {
        true
    }

    fn parse_response(value: crate::player_friends::ResponseInnerElement) -> (read: Result<
        Friend,
        PlayerFriendsError,
    >)
        ensures
            read == friend_of(value),
    {
        Friend::parse_response(value)
    }
}

impl ParseResponse<Response> for UserSearchPage {
    type Error = UserSearchError;

    open spec fn readable(value: Response) -> bool {
        answer_cuts(value)
    }

    fn parse_response(value: Response) -> (read: Result<UserSearchPage, UserSearchError>)
        ensures
            is_page_of(read, value),
    {
        UserSearchPage::parse_response(value)
    }
}

} // verus!
