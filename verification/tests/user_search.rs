use steam_api::steam_id::SteamId;
use steam_api::user_search::{
    avatar_cuts, avatars_cut, parse, parse_row, response_cuts, row_reads,
    starts_with_also_known_as, AliasBlock, Response, Row, RowInfo, SearchPageField,
    UserSearchEntry, UserSearchError, UserSearchPage, UserSearchParseError,
};

fn row(name: &str, url: &str) -> Row {
    Row {
        info: Some(RowInfo { href: Some(url.to_string()), inner_html: name.to_string() }),
        avatar: Some(Some(
            "https://avatars.akamai.steamstatic.com/fef49e7fa7e1997310d705b2a6158ff8dc1cdfeb_medium.jpg"
                .to_string(),
        )),
        alias_blocks: vec![],
    }
}

fn rows() -> Vec<Row> {
    let mut rows = vec![
        row("Sauce", "https://steamcommunity.com/id/sauce"),
        row("The Sauce", "https://steamcommunity.com/profiles/76561197971683832"),
    ];
    for n in 0..18 {
        rows.push(row("sauce", &format!("https://steamcommunity.com/profiles/7656119796028{:04}", n)));
    }
    rows
}

fn response(page: SearchPageField) -> Response {
    Response {
        success: 1,
        search_text: "sauce".to_string(),
        search_result_count: 47813,
        search_filter: "users".to_string(),
        search_page: page,
        rows: Some(rows()),
    }
}

#[test]
fn user_search_parses() {
    let search = UserSearchPage::parse_response(response(SearchPageField::Number(Some(1)))).unwrap();

    assert_eq!(search.search_string, "sauce");
    assert_eq!(search.total_result_count, 47813);
    assert_eq!(search.search_page, 1);

    let results = search.results;
    assert_eq!(results.len(), 20);

    let snd = results.iter().nth(1).unwrap();
    assert_eq!(snd.persona_name, "The Sauce");
    assert_eq!(snd.aliases.len(), 0);
    assert_eq!(snd.steam_id(), Some(SteamId(76561197971683832)));
}

#[test]
fn the_page_number_may_be_written_as_text() {
    let page = UserSearchPage::parse_response(response(SearchPageField::Text("17".to_string())))
        .unwrap();
    assert_eq!(page.search_page, 17);
    let page = UserSearchPage::parse_response(response(SearchPageField::Text("+18".to_string())))
        .unwrap();
    assert_eq!(page.search_page, 18);
    assert_eq!(page.search_filter, "users");
    for field in [
        SearchPageField::Text("one".to_string()),
        SearchPageField::Text(String::new()),
        SearchPageField::Text("-1".to_string()),
        SearchPageField::Number(None),
        SearchPageField::Other,
    ] {
        assert_eq!(
            UserSearchPage::parse_response(response(field)).err(),
            Some(UserSearchError::InvalidSearchPage)
        );
    }
}

#[test]
fn what_is_wrong_with_an_answer_is_reported_in_order() {
    let mut answer = response(SearchPageField::Other);
    answer.success = 0;
    answer.rows = None;
    assert_eq!(UserSearchPage::parse_response(answer).err(), Some(UserSearchError::NoSuccess));

    let mut answer = response(SearchPageField::Other);
    answer.success = 2;
    assert_eq!(UserSearchPage::parse_response(answer).err(), Some(UserSearchError::NoSuccess));

    let mut answer = response(SearchPageField::Other);
    answer.rows = None;
    assert_eq!(
        UserSearchPage::parse_response(answer).err(),
        Some(UserSearchError::InvalidSelector)
    );

    let mut answer = response(SearchPageField::Other);
    answer.rows.as_mut().unwrap()[3].info = None;
    assert_eq!(
        UserSearchPage::parse_response(answer).err(),
        Some(UserSearchError::InvalidSearchPage)
    );

    let mut answer = response(SearchPageField::Number(Some(2)));
    answer.rows.as_mut().unwrap()[5].avatar = None;
    answer.rows.as_mut().unwrap()[3].info = None;
    assert_eq!(
        UserSearchPage::parse_response(answer).err(),
        Some(UserSearchError::InvalidHtmlPayload(UserSearchParseError::NoProfileInfo))
    );

    let mut answer = response(SearchPageField::Number(Some(2)));
    answer.rows.as_mut().unwrap()[5].avatar = Some(None);
    answer.rows.as_mut().unwrap()[7].info = None;
    assert_eq!(
        UserSearchPage::parse_response(answer).err(),
        Some(UserSearchError::InvalidHtmlPayload(UserSearchParseError::NoProfileAvatar))
    );

    let mut answer = response(SearchPageField::Number(Some(2)));
    answer.rows = Some(vec![]);
    assert_eq!(UserSearchPage::parse_response(answer).unwrap().results.len(), 0);
}

#[test]
fn a_row_needs_a_link_and_a_picture() {
    let mut no_info = row("a", "b");
    no_info.info = None;
    no_info.avatar = None;
    assert_eq!(parse_row(no_info).err(), Some(UserSearchParseError::NoProfileInfo));

    let mut no_href = row("a", "b");
    no_href.info = Some(RowInfo { href: None, inner_html: "a".to_string() });
    assert_eq!(parse_row(no_href).err(), Some(UserSearchParseError::NoProfileInfo));

    let mut no_avatar = row("a", "b");
    no_avatar.avatar = None;
    assert_eq!(parse_row(no_avatar).err(), Some(UserSearchParseError::NoProfileAvatar));

    let mut no_src = row("a", "b");
    no_src.avatar = Some(None);
    assert_eq!(parse_row(no_src).err(), Some(UserSearchParseError::NoProfileAvatar));
}

#[test]
fn the_full_picture_replaces_the_medium_one() {
    let entry = parse_row(row("name", "url")).unwrap();
    assert_eq!(entry.persona_name, "name");
    assert_eq!(entry.profile_url, "url");
    assert_eq!(
        entry.avatar_full,
        "https://avatars.akamai.steamstatic.com/fef49e7fa7e1997310d705b2a6158ff8dc1cdfeb_full.jpg"
    );

    let mut short = row("name", "url");
    short.avatar = Some(Some("_medium.jpg".to_string()));
    assert!(avatar_cuts(&short));
    assert_eq!(parse_row(short).unwrap().avatar_full, "_full.jpg");

    // Eleven bytes are cut, whatever they are.
    let mut other = row("name", "url");
    other.avatar = Some(Some("picture-0123456789".to_string()));
    assert!(avatar_cuts(&other));
    assert_eq!(parse_row(other).unwrap().avatar_full, "picture_full.jpg");
}

#[test]
fn an_address_that_cannot_be_cut_is_told_apart() {
    let mut too_short = row("name", "url");
    too_short.avatar = Some(Some("medium.jpg".to_string()));
    assert!(!avatar_cuts(&too_short));

    let mut split = row("name", "url");
    split.avatar = Some(Some("\u{e9}0123456789".to_string()));
    assert!(!avatar_cuts(&split));

    let mut whole = row("name", "url");
    whole.avatar = Some(Some("\u{e9}_medium.jpg".to_string()));
    assert!(avatar_cuts(&whole));
    assert_eq!(parse_row(whole).unwrap().avatar_full, "\u{e9}_full.jpg");

    let mut none = row("name", "url");
    none.avatar = None;
    assert!(avatar_cuts(&none));
    none.avatar = Some(None);
    assert!(avatar_cuts(&none));
}

fn block(inner: &str, spans: &[&str]) -> AliasBlock {
    AliasBlock {
        inner_html: inner.to_string(),
        spans: spans.iter().map(|span| span.to_string()).collect(),
    }
}

#[test]
fn earlier_names_come_from_the_blocks_that_list_them() {
    let mut listed = row("name", "url");
    listed.alias_blocks = vec![
        block("Germany", &["not a name"]),
        block("\n\t    Also known as: <span>one</span>, <span>two</span>", &["one", "two"]),
        block("also known as", &["lower case"]),
        block("Also known as", &[]),
        block("  \u{a0}\u{2003}Also known as<span>three</span>", &["three"]),
        block("x Also known as <span>four</span>", &["four"]),
        block("", &["empty"]),
        block("Also known a", &["short"]),
    ];
    let entry = parse_row(listed).unwrap();
    assert_eq!(entry.aliases, vec!["one", "two", "three"]);
    assert_eq!(parse_row(row("name", "url")).unwrap().aliases.len(), 0);
}

#[test]
fn rows_are_read_in_order() {
    let entries = parse(vec![row("a", "1"), row("b", "2"), row("c", "3")]).unwrap();
    let names: Vec<&str> = entries.iter().map(|entry| entry.persona_name.as_str()).collect();
    assert_eq!(names, vec!["a", "b", "c"]);
    let urls: Vec<&str> = entries.iter().map(|entry| entry.profile_url.as_str()).collect();
    assert_eq!(urls, vec!["1", "2", "3"]);
    assert!(parse(vec![]).unwrap().is_empty());
}

fn entry(url: &str) -> UserSearchEntry {
    UserSearchEntry {
        persona_name: String::new(),
        profile_url: url.to_string(),
        avatar_full: String::new(),
        aliases: vec![],
    }
}

#[test]
fn the_identifier_follows_profiles() {
    assert_eq!(
        entry("http://steamcommunity.com/profiles/76561197960287930").steam_id(),
        Some(SteamId(76561197960287930))
    );
    assert_eq!(
        entry("https://steamcommunity.com/profiles/76561197960287930").steam_id(),
        Some(SteamId(76561197960287930))
    );
    assert_eq!(entry("/profiles/0").steam_id(), Some(SteamId(0)));
    assert_eq!(entry("/profiles//profiles/7").steam_id(), None);
    assert_eq!(entry("x/profiles/7/profiles/8").steam_id(), None);
    assert_eq!(entry("https://steamcommunity.com/profiles/76561197960287930/").steam_id(), None);
    assert_eq!(entry("https://steamcommunity.com/profiles/").steam_id(), None);
    assert_eq!(entry("https://steamcommunity.com/id/GabeLoganNewell").steam_id(), None);
    assert_eq!(entry("").steam_id(), None);
    assert_eq!(entry("/profiles").steam_id(), None);
    assert_eq!(entry("\u{e9}/profiles/12").steam_id(), Some(SteamId(12)));
}

#[test]
fn the_chosen_name_follows_id() {
    assert_eq!(
        entry("https://steamcommunity.com/id/GabeLoganNewell").vanity_url(),
        Some("GabeLoganNewell")
    );
    assert_eq!(entry("/id/").vanity_url(), Some(""));
    assert_eq!(entry("/id/a/id/b").vanity_url(), Some("a/id/b"));
    assert_eq!(entry("https://steamcommunity.com/id/\u{fc}ber").vanity_url(), Some("\u{fc}ber"));
    assert_eq!(entry("\u{fc}/id/x\u{1f600}").vanity_url(), Some("x\u{1f600}"));
    assert_eq!(entry("https://steamcommunity.com/profiles/7").vanity_url(), None);
    assert_eq!(entry("/id").vanity_url(), None);
    assert_eq!(entry("").vanity_url(), None);
}

#[test]
fn a_list_of_earlier_names_is_known_by_its_first_words() {
    assert!(starts_with_also_known_as("Also known as"));
    assert!(starts_with_also_known_as("Also known as: <span>x</span>"));
    assert!(starts_with_also_known_as("Also known as\u{e9}"));
    assert!(!starts_with_also_known_as(" Also known as"));
    assert!(!starts_with_also_known_as("Also known a"));
    assert!(!starts_with_also_known_as("also known as"));
    assert!(!starts_with_also_known_as("Also  known as"));
    assert!(!starts_with_also_known_as(""));
}

#[test]
fn only_rows_that_are_read_need_an_address_that_can_be_cut() {
    let short = |name: &str| {
        let mut row = row(name, "url");
        row.avatar = Some(Some("short".to_string()));
        row
    };
    assert!(!avatar_cuts(&short("a")));
    assert!(row_reads(&short("a")));

    // A row without a link is never cut.
    let mut unlinked = short("b");
    unlinked.info = None;
    assert!(!row_reads(&unlinked));
    assert!(avatar_cuts(&unlinked));
    assert_eq!(parse_row(unlinked).err(), Some(UserSearchParseError::NoProfileInfo));

    let mut no_href = short("c");
    no_href.info = Some(RowInfo { href: None, inner_html: "c".to_string() });
    assert!(avatar_cuts(&no_href));
    assert_eq!(parse_row(no_href).err(), Some(UserSearchParseError::NoProfileInfo));

    // Nor are the rows after the first that cannot be read.
    let mut unreadable = row("d", "url");
    unreadable.avatar = None;
    let rows = vec![row("a", "1"), unreadable, short("e")];
    assert!(avatars_cut(&rows));
    assert_eq!(parse(rows).err(), Some(UserSearchParseError::NoProfileAvatar));

    assert!(!avatars_cut(&vec![row("a", "1"), short("e")]));
    assert!(!avatars_cut(&vec![short("e"), row("a", "1")]));
    assert!(avatars_cut(&vec![]));
    assert!(avatars_cut(&vec![row("a", "1"), row("b", "2")]));
}

#[test]
fn no_row_of_an_answer_that_is_no_page_is_cut() {
    let spoil = |answer: &mut Response| {
        answer.rows.as_mut().unwrap()[0].avatar = Some(Some("short".to_string()));
    };
    let mut page = response(SearchPageField::Number(Some(1)));
    assert!(response_cuts(&page));
    spoil(&mut page);
    assert!(!response_cuts(&page));

    let mut failed = response(SearchPageField::Number(Some(1)));
    spoil(&mut failed);
    failed.success = 0;
    assert!(response_cuts(&failed));
    assert_eq!(UserSearchPage::parse_response(failed).err(), Some(UserSearchError::NoSuccess));

    let mut unnumbered = response(SearchPageField::Text("first".to_string()));
    spoil(&mut unnumbered);
    assert!(response_cuts(&unnumbered));
    assert_eq!(
        UserSearchPage::parse_response(unnumbered).err(),
        Some(UserSearchError::InvalidSearchPage)
    );

    let mut rowless = response(SearchPageField::Number(Some(1)));
    rowless.rows = None;
    assert!(response_cuts(&rowless));
}
