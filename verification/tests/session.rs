use steam_api::client::Error;
use steam_api::session::{find_cookie, session_id_from_answer};

#[test]
fn finds_the_session_id_in_a_cookie() {
    assert_eq!(
        find_cookie("sessionid=a0a0a0a0a0a0a0a0a0a0a0a0; Path=/; Secure; SameSite=None"),
        Some("a0a0a0a0a0a0a0a0a0a0a0a0".to_string())
    );
    assert_eq!(find_cookie("sessionid=;"), Some(String::new()));
    assert_eq!(find_cookie("sessionid=x;y;z"), Some("x".to_string()));
    assert_eq!(find_cookie("sessionid==;"), Some("=".to_string()));
}

#[test]
fn other_cookies_carry_no_session_id() {
    for cookie in [
        "",
        "sessionid",
        "sessionid=",
        "sessionid=abc",
        "sessionid=abc Path=/",
        "Sessionid=abc;",
        " sessionid=abc;",
        "steamCountry=DE; Path=/",
        "sessionid:abc;",
        "session=abc;",
        "sessionid=ab\u{e9};",
        "sessionid=abc\u{ff1b}",
    ] {
        assert_eq!(find_cookie(cookie), None, "{:?}", cookie);
    }
}

fn cookies(list: &[&str]) -> Vec<String> {
    list.iter().map(|cookie| cookie.to_string()).collect()
}

#[test]
fn unauthorized_is_the_expected_status() {
    let list = cookies(&["steamCountry=DE; Path=/", "sessionid=abc; Path=/", "sessionid=def;"]);
    assert_eq!(session_id_from_answer(401, &list), Ok("abc".to_string()));
    assert_eq!(session_id_from_answer(200, &list), Ok("abc".to_string()));
    assert_eq!(session_id_from_answer(302, &list), Ok("abc".to_string()));
    assert_eq!(session_id_from_answer(399, &list), Ok("abc".to_string()));
    assert_eq!(session_id_from_answer(600, &list), Ok("abc".to_string()));
}

#[test]
fn other_error_statuses_fail_the_bootstrap() {
    let list = cookies(&["sessionid=abc; Path=/"]);
    for status in [400u16, 402, 403, 404, 429, 499, 500, 503, 599] {
        assert_eq!(session_id_from_answer(status, &list), Err(Error::Status(status)));
    }
}

#[test]
fn a_missing_cookie_fails_the_bootstrap() {
    assert_eq!(session_id_from_answer(401, &cookies(&[])), Err(Error::SetCookieMissing));
    assert_eq!(
        session_id_from_answer(401, &cookies(&["steamCountry=DE;", "sessionid=abc"])),
        Err(Error::SetCookieMissing)
    );
    // The status is looked at first.
    assert_eq!(session_id_from_answer(500, &cookies(&[])), Err(Error::Status(500)));
}
