use steam_api::steam_id::SteamId;
use steam_api::steam_id_ext::SteamIdExt;

#[test]
fn to_steam_id_string_works() {
    let vec = vec![SteamId(76561197960287930), SteamId(76561197985607672)];
    assert_eq!(
        vec.to_steam_id_string(", "),
        "76561197960287930, 76561197985607672"
    );
    assert_eq!(
        vec.as_slice().to_steam_id_string(", "),
        "76561197960287930, 76561197985607672"
    );

    let slice = &[SteamId(76561197960287930), SteamId(76561197985607672)];
    assert_eq!(
        slice.to_steam_id_string(", "),
        "76561197960287930, 76561197985607672"
    );
    assert_eq!(
        slice[..].to_steam_id_string(", "),
        "76561197960287930, 76561197985607672"
    );
}

#[test]
fn to_steam_id_string_capacity_works() {
    let slice = &[SteamId(76561197960287930), SteamId(76561197985607672)];
    let result = slice.to_steam_id_string(", ");
    assert_eq!(
        result.capacity(),
        SteamId::MAX_DIGITS_FOR_U64 * 2 + ", ".len()
    );
}

#[test]
fn to_steam_id_string_with_works() {
    // 76561197960287930 => ([U:1:22202], STEAM_1:0:11101)
    // 76561197985607672 => ([U:1:25341944], STEAM_1:0:12670972)
    let slice = &[SteamId(76561197960287930), SteamId(76561197985607672)];
    assert_eq!(
        slice.to_steam_id_string_with(", ", |id| id.to_steam_id().unwrap()),
        "STEAM_1:0:11101, STEAM_1:0:12670972"
    );
    assert_eq!(
        slice.to_steam_id_string_with(", ", |id| id.to_steam_id_3().unwrap()),
        "[U:1:22202], [U:1:25341944]"
    );
}

#[test]
fn joining_nothing_or_one_writes_no_separator() {
    let none: [SteamId; 0] = [];
    assert_eq!(none.to_steam_id_string(","), "");
    assert_eq!(none.to_steam_id_string_with(",", |id| id.to_decimal_string()), "");
    let one = [SteamId(7)];
    assert_eq!(one.to_steam_id_string(","), "7");
    assert_eq!(one.to_steam_id_string_with(",", |id| id.to_decimal_string()), "7");
}

#[test]
fn joining_keeps_order_and_repeats() {
    let ids = [SteamId(3), SteamId(1), SteamId(3), SteamId(u64::MAX)];
    assert_eq!(ids.to_steam_id_string(""), "31318446744073709551615");
    assert_eq!(ids.to_steam_id_string("--"), "3--1--3--18446744073709551615");
    assert_eq!(
        ids.to_steam_id_string_with("/", |id| format!("<{}>", id.as_u64() % 10)),
        "<3>/<1>/<3>/<5>"
    );
}
