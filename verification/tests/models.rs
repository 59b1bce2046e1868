use std::collections::HashMap;

use chrono::{TimeZone, Utc};
use steam_api::client::{Client, RequestError};
use steam_api::enums::{CommunityVisibilityState, EconomyBan, PersonaState, ProfileState};
use steam_api::parse_response::{ParseJsonResponse, ParseResponse};
use steam_api::player_bans::{PlayerBan, PlayerBanError, PlayerBans};
use steam_api::player_friends::{friend_list, Friend, FriendsList, PlayerFriendsError};
use steam_api::player_summary::{PlayerSummaries, PlayerSummaryError};
use steam_api::steam_id::{SteamId, SteamIdStr};
use steam_api::steam_level::SteamLevel;
use steam_api::steam_time::SteamTime;
use steam_api::vanity_url::{VanityUrl, VanityUrlError};
use steam_api::visibility::Visibility;
use steam_api::EnumError;

fn client() -> Client {
    Client::options()
        .api_key("KEY".to_string())
        .api_key("SPARE".to_string())
        .build("SESSION".to_string())
        .unwrap()
}

fn pairs(query: &[(String, String)]) -> Vec<(&str, &str)> {
    query.iter().map(|(name, value)| (name.as_str(), value.as_str())).collect()
}

#[test]
fn steam_level_parses() {
    let lvl: SteamLevel = SteamLevel::from(Some(135));
    assert_eq!(lvl.lvl(), Some(135));
    assert_eq!(lvl.into_inner(), Some(135));
    assert_eq!(lvl.lvl_or(1), 135);
    assert_eq!(lvl, SteamLevel::from(Some(135)));
}

#[test]
fn steam_level_parses_deleted() {
    let lvl: SteamLevel = SteamLevel::from(None);
    assert_eq!(lvl.lvl(), None);
    assert_eq!(lvl.into_inner(), None);
    assert_eq!(lvl.lvl_or(7), 7);
    assert_eq!(lvl, SteamLevel::from(None));
}

#[test]
fn vanity_url_parses() {
    let url = steam_api::vanity_url::parse_steam_json(Some("76561197960287930".to_string()))
        .unwrap();
    assert_eq!(url, Some(SteamId(76561197960287930)));

    let url = VanityUrl { steam_id: Some(SteamIdStr(76561197960287930)) };
    assert_eq!(url.steam_id, Some(SteamIdStr(76561197960287930)));
}

#[test]
fn vanity_url_without_or_with_malformed_identifier() {
    assert!(matches!(steam_api::vanity_url::parse_steam_json(None), Ok(None)));
    match steam_api::vanity_url::parse_steam_json(Some("7656x".to_string())) {
        Err(VanityUrlError::InvalidSteamId(text)) => assert_eq!(text, "7656x"),
        other => panic!("{:?}", other),
    }
    let found = VanityUrl { steam_id: Some(SteamIdStr(5)) };
    assert!(matches!(found.resolve("gabe"), Ok(SteamId(5))));
    let missing = VanityUrl { steam_id: None };
    match missing.resolve("gabe") {
        Err(VanityUrlError::NotFound(name)) => assert_eq!(name, "gabe"),
        other => panic!("{:?}", other),
    }
}

#[test]
fn deserialize_some() {
    let option = Visibility::from_option(Some(1u64)).into_option();
    assert_eq!(option, Some(1));
}

#[test]
fn deserialize_none() {
    let option = Visibility::<u64>::from_option(None).into_option();
    assert_eq!(option, None);
}

#[test]
fn visibility_is_an_option_under_another_name() {
    let visible = Visibility::Visible("data".to_string());
    assert_eq!(visible.as_option_ref(), Some(&"data".to_string()));
    assert_eq!(visible.into_option(), Some("data".to_string()));
    let hidden: Visibility<String> = Visibility::Hidden;
    assert_eq!(hidden.as_option_ref(), None);
    assert_eq!(hidden.into_option(), None);
    assert!(matches!(Visibility::from_option(Some(3)), Visibility::Visible(3)));
    assert!(matches!(Visibility::<u8>::from_option(None), Visibility::Hidden));
}

#[test]
fn deserialize() {
    let expected = Utc.with_ymd_and_hms(2023, 04, 20, 04, 06, 09).unwrap();
    let time = SteamTime::from_timestamp(1681963569).unwrap();
    assert_eq!(Utc.timestamp_opt(time.timestamp(), 0).unwrap(), expected);
    assert_eq!(SteamTime::from_unsigned(1681963569), Some(time));
}

#[test]
fn times_outside_the_calendar_are_rejected() {
    assert_eq!(SteamTime::from_timestamp(i64::MAX), None);
    assert_eq!(SteamTime::from_timestamp(i64::MIN), None);
    assert_eq!(SteamTime::from_unsigned(u64::MAX), None);
    assert_eq!(SteamTime::from_unsigned(i64::MAX as u64 + 1), None);
    assert_eq!(SteamTime::from_timestamp(0).map(|time| time.timestamp()), Some(0));
    assert_eq!(SteamTime::from_timestamp(-1).map(|time| time.timestamp()), Some(-1));
    for secs in [i64::MAX, i64::MIN, 0, -1, 1681963569, 1 << 40, 1 << 50] {
        assert_eq!(
            SteamTime::from_timestamp(secs).is_some(),
            Utc.timestamp_opt(secs, 0).single().is_some(),
            "{}",
            secs
        );
    }
}

#[test]
fn enums_deserialize_persona_state() {
    let expected = [
        PersonaState::Offline,
        PersonaState::Online,
        PersonaState::Busy,
        PersonaState::Away,
        PersonaState::Snooze,
        PersonaState::LookingToTrade,
        PersonaState::LookingToPlay,
        PersonaState::Invisible,
    ];
    for (code, state) in expected.iter().enumerate() {
        assert_eq!(PersonaState::try_from(code as i64).ok(), Some(*state));
        assert_eq!(PersonaState::try_from(code as u64).ok(), Some(*state));
    }
    assert!(matches!(PersonaState::try_from(8i64), Err(EnumError::Unknown(8))));
    assert!(matches!(PersonaState::try_from(-1i64), Err(EnumError::Unknown(-1))));
    assert!(matches!(PersonaState::try_from(8u64), Err(EnumError::Unknown(8))));
    assert!(matches!(PersonaState::try_from(u64::MAX), Err(EnumError::Unknown(u64::MAX))));
}

#[test]
fn enums_deserialize_community_vis_state() {
    assert_eq!(
        CommunityVisibilityState::try_from(1i64).ok(),
        Some(CommunityVisibilityState::Private)
    );
    assert_eq!(
        CommunityVisibilityState::try_from(2i64).ok(),
        Some(CommunityVisibilityState::FriendsOnly)
    );
    assert_eq!(
        CommunityVisibilityState::try_from(3u64).ok(),
        Some(CommunityVisibilityState::Public)
    );
    assert!(matches!(CommunityVisibilityState::try_from(0i64), Err(EnumError::Unknown(0))));
    assert!(matches!(CommunityVisibilityState::try_from(4i64), Err(EnumError::Unknown(4))));
    assert!(matches!(CommunityVisibilityState::try_from(0u64), Err(EnumError::Unknown(0))));
    assert!(matches!(
        CommunityVisibilityState::try_from(1u64 << 63),
        Err(EnumError::Unknown(0x8000_0000_0000_0000))
    ));
}

#[test]
fn enums_deserialize_economy_ban() {
    assert_eq!(EconomyBan::try_from("none").ok(), Some(EconomyBan::NotBanned));
    assert_eq!(EconomyBan::try_from("probation").ok(), Some(EconomyBan::Probation));
    assert_eq!(EconomyBan::try_from("banned").ok(), Some(EconomyBan::Banned));
    for name in ["", "None", "none ", "non", "nonee", "ban", "BANNED"] {
        assert!(matches!(EconomyBan::try_from(name), Err(EnumError::Unknown(n)) if n == name));
    }
}

#[test]
fn enums_deserialize_profile_state_some() {
    assert_eq!(ProfileState::try_from(Some(1)).ok(), Some(ProfileState::Configured));
    assert!(matches!(ProfileState::try_from(Some(0)), Err(EnumError::Unknown(0))));
    assert!(matches!(ProfileState::try_from(Some(2)), Err(EnumError::Unknown(2))));
}

#[test]
fn enums_deserialize_profile_state_none() {
    assert_eq!(ProfileState::try_from(None).ok(), Some(ProfileState::NotConfigured));
}

fn ban(steam_id: &str, economy_ban: &str, vac: i32) -> steam_api::player_bans::ResponseElement {
    steam_api::player_bans::ResponseElement {
        steam_id: steam_id.to_string(),
        community_banned: vac > 1,
        vac_banned: vac > 0,
        number_of_vac_bans: vac,
        days_since_last_ban: 10 * vac,
        number_of_game_bans: vac + 1,
        economy_ban: economy_ban.to_string(),
    }
}

#[test]
fn player_bans_parses() {
    let players = vec![
        ban("76561197960287930", "none", 0),
        ban("76561197985607672", "banned", 2),
        ban("76561197960287930", "probation", 1),
    ];
    let bans = steam_api::player_bans::parse_steam_json(players).unwrap();
    assert_eq!(bans.len(), 2);
    let first = bans.get(SteamId(76561197960287930)).unwrap();
    // Of two entries for one profile the later one stays.
    assert_eq!(first.economy_ban, EconomyBan::Probation);
    assert_eq!(first.number_of_vac_bans, 1);
    assert_eq!(first.days_since_last_ban, 10);
    assert_eq!(first.number_of_game_bans, 2);
    assert!(first.vac_banned);
    assert!(!first.community_banned);
    let second = bans.get(SteamId(76561197985607672)).unwrap();
    assert_eq!(second.steam_id, SteamId(76561197985607672));
    assert_eq!(second.economy_ban, EconomyBan::Banned);
    assert!(second.community_banned);
    assert!(bans.get(SteamId(1)).is_none());
    let inner: HashMap<u64, PlayerBan> = bans.into_inner();
    assert_eq!(inner.len(), 2);
    assert!(inner.contains_key(&76561197985607672));
}

#[test]
fn player_bans_report_the_first_unreadable_element() {
    let players = vec![
        ban("1", "none", 0),
        ban("2", "maybe", 0),
        ban("x", "none", 0),
    ];
    match steam_api::player_bans::parse_steam_json(players) {
        Err(PlayerBanError::InvalidEconomyBan(text)) => assert_eq!(text, "maybe"),
        other => panic!("{:?}", other),
    }
    // The identifier is read before the trade ban.
    match ban("x", "maybe", 0).parse_steam_json() {
        Err(PlayerBanError::InvalidSteamId(text)) => assert_eq!(text, "x"),
        other => panic!("{:?}", other),
    }
    let empty = steam_api::player_bans::parse_steam_json(vec![]).unwrap();
    assert_eq!(empty.len(), 0);
    assert_eq!(PlayerBans::from_players(vec![]).len(), 0);
}

#[test]
fn test() {
    let read = ParseJsonResponse::parse_steam_json(ban("42", "banned", 3)).unwrap();
    assert_eq!(read.steam_id, SteamId(42));
    assert_eq!(read.economy_ban, EconomyBan::Banned);
    assert_eq!(read.number_of_vac_bans, 3);
    let friend: Result<Friend, PlayerFriendsError> =
        ParseResponse::parse_response(friend("43", 1681963569));
    assert_eq!(friend.unwrap().steam_id, SteamId(43));
}

fn friend(steam_id: &str, since: i64) -> steam_api::player_friends::ResponseInnerElement {
    steam_api::player_friends::ResponseInnerElement {
        steam_id: steam_id.to_string(),
        relationship: "friend".to_string(),
        friends_since: since,
    }
}

#[test]
fn player_friends_parses_public() {
    let answer = Ok(vec![friend("76561197960287930", 1681963569), friend("5", 0)]);
    let friends = friend_list(answer).unwrap().unwrap();
    assert_eq!(friends.len(), 2);
    assert_eq!(friends[0].steam_id, SteamId(76561197960287930));
    assert_eq!(friends[0].friends_since.timestamp(), 1681963569);
    assert_eq!(friends[1].steam_id, SteamId(5));
    assert_eq!(friends[1].friends_since.timestamp(), 0);

    let list = FriendsList::from_friends(Some(friends));
    let by_id = list.as_inner_ref().unwrap();
    assert_eq!(by_id.len(), 2);
    assert_eq!(by_id[&5].friends_since.timestamp(), 0);
    assert!(list.into_inner().unwrap().contains_key(&76561197960287930));

    let nobody = friend_list(Ok(vec![])).unwrap().unwrap();
    assert!(nobody.is_empty());
    assert_eq!(FriendsList::from_friends(Some(nobody)).into_inner().map(|m| m.len()), Some(0));
}

#[test]
fn player_friends_parses_private() {
    let friends = friend_list(Err(RequestError::Status(401))).unwrap();
    assert!(friends.is_none());
    let list = FriendsList::from_friends(friends);
    assert!(list.as_inner_ref().is_none());
    assert!(list.into_inner().is_none());
}

#[test]
fn player_friends_errors() {
    for error in [RequestError::Status(403), RequestError::Status(500), RequestError::Transport, RequestError::Decode] {
        match friend_list(Err(error)) {
            Err(PlayerFriendsError::Reqwest(inner)) => assert_eq!(inner, error),
            other => panic!("{:?}", other),
        }
    }
    match friend_list(Ok(vec![friend("1", 0), friend("+", 0), friend("3", i64::MAX)])) {
        Err(PlayerFriendsError::InvalidSteamId(text)) => assert_eq!(text, "+"),
        other => panic!("{:?}", other),
    }
    match friend_list(Ok(vec![friend("1", 0), friend("3", i64::MAX), friend("+", 0)])) {
        Err(PlayerFriendsError::InvalidTimestamp(secs)) => assert_eq!(secs, i64::MAX),
        other => panic!("{:?}", other),
    }
}

fn summary(steam_id: &str) -> steam_api::player_summary::ResponseInnerElement {
    steam_api::player_summary::ResponseInnerElement {
        steam_id: steam_id.to_string(),
        community_visibility_state: 3,
        profile_state: Some(1),
        persona_name: "name".to_string(),
        profile_url: "https://steamcommunity.com/id/name/".to_string(),
        avatar: "a.jpg".to_string(),
        avatar_medium: "a_medium.jpg".to_string(),
        avatar_full: "a_full.jpg".to_string(),
        avatar_hash: "a".to_string(),
        last_logoff: Some(1681963569),
        persona_state: 1,
        real_name: Some("Real Name".to_string()),
        primary_clan_id: Some("103582791429521408".to_string()),
        time_created: Some(1063407589),
        persona_state_flags: Some(0),
        local_country_code: Some("DE".to_string()),
    }
}

#[test]
fn player_summary_parses() {
    let mut private = summary("76561197985607672");
    private.community_visibility_state = 1;
    private.profile_state = None;
    private.last_logoff = None;
    private.real_name = None;
    private.primary_clan_id = None;
    private.time_created = None;
    private.persona_state_flags = None;
    private.local_country_code = None;
    private.persona_state = 0;
    let summaries =
        steam_api::player_summary::parse_steam_json(vec![summary("76561197960287930"), private])
            .unwrap();
    assert_eq!(summaries.len(), 2);
    let full = summaries.get(SteamId(76561197960287930)).unwrap();
    assert_eq!(full.steam_id, SteamId(76561197960287930));
    assert_eq!(full.community_visibility_state, CommunityVisibilityState::Public);
    assert!(full.profile_configured);
    assert_eq!(full.persona_name, "name");
    assert_eq!(full.profile_url, "https://steamcommunity.com/id/name/");
    assert_eq!(full.avatar, "a.jpg");
    assert_eq!(full.avatar_medium, "a_medium.jpg");
    assert_eq!(full.avatar_full, "a_full.jpg");
    assert_eq!(full.avatar_hash, "a");
    assert_eq!(full.last_logoff.map(|t| t.timestamp()), Some(1681963569));
    assert_eq!(full.persona_state, PersonaState::Online);
    assert_eq!(full.real_name.as_deref(), Some("Real Name"));
    assert_eq!(full.primary_clan_id, Some(103582791429521408));
    assert_eq!(full.time_created.map(|t| t.timestamp()), Some(1063407589));
    assert_eq!(full.persona_state_flags, Some(0));
    assert_eq!(full.local_country_code.as_deref(), Some("DE"));
    let bare = summaries.get(SteamId(76561197985607672)).unwrap();
    assert_eq!(bare.community_visibility_state, CommunityVisibilityState::Private);
    assert!(!bare.profile_configured);
    assert_eq!(bare.persona_state, PersonaState::Offline);
    assert_eq!(bare.last_logoff, None);
    assert_eq!(bare.primary_clan_id, None);
    let inner = summaries.into_inner();
    assert_eq!(inner.len(), 2);
    assert_eq!(PlayerSummaries::from_players(vec![]).len(), 0);
}

#[test]
fn player_summary_reports_what_it_cannot_read_in_order() {
    let mut all_wrong = summary("id");
    all_wrong.last_logoff = Some(i64::MAX);
    all_wrong.time_created = Some(i64::MIN);
    all_wrong.community_visibility_state = 0;
    all_wrong.persona_state = 8;
    all_wrong.primary_clan_id = Some("clan".to_string());
    let step = |element: steam_api::player_summary::ResponseInnerElement| {
        element.parse_steam_json().err().unwrap()
    };
    let copy = |from: &steam_api::player_summary::ResponseInnerElement| {
        steam_api::player_summary::ResponseInnerElement {
            steam_id: from.steam_id.clone(),
            community_visibility_state: from.community_visibility_state,
            profile_state: from.profile_state,
            persona_name: from.persona_name.clone(),
            profile_url: from.profile_url.clone(),
            avatar: from.avatar.clone(),
            avatar_medium: from.avatar_medium.clone(),
            avatar_full: from.avatar_full.clone(),
            avatar_hash: from.avatar_hash.clone(),
            last_logoff: from.last_logoff,
            persona_state: from.persona_state,
            real_name: from.real_name.clone(),
            primary_clan_id: from.primary_clan_id.clone(),
            time_created: from.time_created,
            persona_state_flags: from.persona_state_flags,
            local_country_code: from.local_country_code.clone(),
        }
    };
    assert!(matches!(step(copy(&all_wrong)), PlayerSummaryError::InvalidTimestamp(i64::MAX)));
    all_wrong.last_logoff = None;
    assert!(matches!(step(copy(&all_wrong)), PlayerSummaryError::InvalidTimestamp(i64::MIN)));
    all_wrong.time_created = Some(0);
    assert!(matches!(
        step(copy(&all_wrong)),
        PlayerSummaryError::InvalidCommunityVisibilityState(0)
    ));
    all_wrong.community_visibility_state = 2;
    assert!(matches!(step(copy(&all_wrong)), PlayerSummaryError::InvalidPersonaState(8)));
    all_wrong.persona_state = 7;
    assert!(matches!(
        step(copy(&all_wrong)),
        PlayerSummaryError::InvalidPrimaryClanId(text) if text == "clan"
    ));
    all_wrong.primary_clan_id = None;
    assert!(matches!(
        step(copy(&all_wrong)),
        PlayerSummaryError::InvalidSteamId(text) if text == "id"
    ));
    all_wrong.steam_id = "+9".to_string();
    assert!(matches!(
        step(copy(&all_wrong)),
        PlayerSummaryError::InvalidSteamId(text) if text == "+9"
    ));
    all_wrong.primary_clan_id = Some("+103582791429521408".to_string());
    all_wrong.steam_id = "9".to_string();
    assert_eq!(
        copy(&all_wrong).parse_steam_json().unwrap().primary_clan_id,
        Some(103582791429521408)
    );
    all_wrong.primary_clan_id = None;
    let read = all_wrong.parse_steam_json().unwrap();
    assert_eq!(read.steam_id, SteamId(9));
    assert_eq!(read.community_visibility_state, CommunityVisibilityState::FriendsOnly);
    assert_eq!(read.persona_state, PersonaState::Invisible);
}

#[test]
fn queries_carry_the_credential_in_use() {
    let client = client();
    let ids = [SteamId(3), SteamId(1), SteamId(3), SteamId(2)];
    let bans = client.player_bans_query(&ids).unwrap();
    assert_eq!(pairs(&bans), vec![("key", "KEY"), ("steamids", "1,2,3")]);
    let summaries = client.player_summaries_query(&ids).unwrap();
    assert_eq!(pairs(&summaries), vec![("key", "KEY"), ("steamids", "1,2,3")]);
    let friends = client.player_friends_query(SteamId(76561197960287930));
    assert_eq!(
        pairs(&friends),
        vec![("key", "KEY"), ("relationship", "friend"), ("steamid", "76561197960287930")]
    );
    let level = client.steam_level_query(SteamId(0));
    assert_eq!(pairs(&level), vec![("key", "KEY"), ("steamid", "0")]);
    let vanity = client.vanity_url_query("Gabe Newell&x=1");
    assert_eq!(pairs(&vanity), vec![("key", "KEY"), ("vanityurl", "Gabe Newell&x=1")]);
    let search = client.search_page_query("sauce", 12);
    assert_eq!(
        pairs(&search),
        vec![("filter", "users"), ("text", "sauce"), ("sessionid", "SESSION"), ("page", "12")]
    );
}

#[test]
fn a_request_carries_at_most_a_hundred_different_identifiers() {
    let client = client();
    let hundred: Vec<SteamId> = (0..100).rev().map(SteamId).collect();
    let mut doubled = hundred.clone();
    doubled.extend(hundred.iter().copied());
    let query = client.player_bans_query(&doubled).unwrap();
    let expected = (0..100).map(|n| n.to_string()).collect::<Vec<_>>().join(",");
    assert_eq!(query[1].1, expected);
    assert_eq!(client.player_summaries_query(&doubled).unwrap()[1].1, expected);

    doubled.push(SteamId(100));
    assert!(matches!(client.player_bans_query(&doubled), Err(PlayerBanError::TooManyIds)));
    assert!(matches!(
        client.player_summaries_query(&doubled),
        Err(PlayerSummaryError::TooManyIds)
    ));
    assert_eq!(pairs(&client.player_bans_query(&[]).unwrap()), vec![("key", "KEY"), ("steamids", "")]);
}
