//! The pages of a search for users.
//!
//! The service answers a search with some numbers and a piece of HTML that
//! holds one row per user found. Taking the HTML apart is left to the
//! caller; what is decided here is what the parts of a row mean.

use crate::client::{Client, RequestError};
use crate::query::{param, params_view};
use crate::steam_id::SteamId;
use crate::text::{
    decimal_text, occurs_at, parse_decimal, parse_plus_decimal, parse_plus_u64, parse_u64,
    push_decimal, str_tail_after, tail_after,
};
use vstd::prelude::*;
use vstd::string::{is_ascii_spec_bytes, StringExecFns, StringSliceAdditionalSpecFns};
use vstd::utf8::{encode_utf8, is_char_boundary};

verus! {

/// Why a row of the answer could not be read.
#[derive(Debug, Clone, Copy, PartialEq, Eq, Structural)]
pub enum UserSearchParseError {
    /// The row does not link to a profile.
    NoProfileInfo,
    /// The row does not show an avatar.
    NoProfileAvatar,
}

/// Why a page of a search could not be had.
#[derive(Debug, Clone, Copy, PartialEq, Eq, Structural)]
pub enum UserSearchError {
    /// The request failed.
    Reqwest(RequestError),
    /// The answer does not say that the search succeeded.
    NoSuccess,
    /// The rows could not be looked for.
    InvalidSelector,
    /// The answer does not tell the number of its page.
    InvalidSearchPage,
    /// A row of the answer could not be read.
    InvalidHtmlPayload(UserSearchParseError),
}

/// One user that a search found.
#[derive(Debug)]
pub struct UserSearchEntry {
    pub persona_name: String,
    pub profile_url: String,
    pub avatar_full: String,
    pub aliases: Vec<String>,
}

/// One page of a search.
#[derive(Debug)]
pub struct UserSearchPage {
    pub search_string: String,
    pub total_result_count: usize,
    pub search_filter: String,
    pub search_page: usize,
    pub results: Vec<UserSearchEntry>,
}

/// The link of a row to a profile.
#[derive(Debug)]
pub struct RowInfo {
    /// Where the link points, if it says so.
    pub href: Option<String>,
    /// What the link shows: the name of the user.
    pub inner_html: String,
}

/// One block of a row that may list earlier names of the user.
#[derive(Debug)]
pub struct AliasBlock {
    /// What the block holds.
    pub inner_html: String,
    /// What each of the spans in the block holds.
    pub spans: Vec<String>,
}

/// What a row of the answer holds.
#[derive(Debug)]
pub struct Row {
    /// The first link to a profile, if there is one.
    pub info: Option<RowInfo>,
    /// The first avatar image, if there is one, and where it says its
    /// picture lies, if it says so.
    pub avatar: Option<Option<String>>,
    /// The blocks that may list earlier names.
    pub alias_blocks: Vec<AliasBlock>,
}

/// The number of the page, as the service writes it: sometimes as a number
/// and sometimes as text.
#[derive(Debug)]
pub enum SearchPageField {
    /// A number, with its value where that is an unsigned whole number.
    Number(Option<u64>),
    /// A text.
    Text(String),
    /// Anything else.
    Other,
}

/// The answer to a search, its HTML taken apart into rows. There are no
/// rows where the means to look for them could not be set up.
#[derive(Debug)]
pub struct Response {
    pub success: i32,
    pub search_text: String,
    pub search_result_count: usize,
    pub search_filter: String,
    pub search_page: SearchPageField,
    pub rows: Option<Vec<Row>>,
}

/// `text` without the white space that it starts with.
pub uninterp spec fn trimmed_start(text: Seq<char>) -> Seq<char>;

/// Cuts the leading white space off `text`.
///
/// Calls `str::trim_start`, which the standard library documents as
/// returning the text with leading white space removed, white space being
/// what Unicode calls so. The result depends on the text alone.
#[verifier::external_body]
fn trim_start(text: &str) -> (rest: &str)
    ensures
        rest@ == trimmed_start(text@),
{
    text.trim_start()
}

/// The length in bytes of the ending `_medium.jpg`.
pub const AVATAR_MEDIUM_SUFFIX_LEN: usize = 11;

/// Whether the last eleven bytes can be cut off the address of a picture.
pub open spec fn can_cut(src: Seq<char>) -> bool {
    encode_utf8(src).len() >= AVATAR_MEDIUM_SUFFIX_LEN && is_char_boundary(
        encode_utf8(src),
        encode_utf8(src).len() - AVATAR_MEDIUM_SUFFIX_LEN,
    )
}

/// The address of the full-size picture: that of the medium-size one with
/// its last eleven bytes, the ending `_medium.jpg`, replaced by
/// `_full.jpg`.
pub open spec fn full_avatar(src: Seq<char>) -> Seq<u8> {
    encode_utf8(src).subrange(0, encode_utf8(src).len() - AVATAR_MEDIUM_SUFFIX_LEN) + encode_utf8(
        "_full.jpg"@,
    )
}

/// Whether a block lists earlier names: after leading white space it
/// starts with `Also known as`.
pub open spec fn lists_aliases(block: AliasBlock) -> bool {
    occurs_at(encode_utf8(trimmed_start(block.inner_html@)), encode_utf8("Also known as"@), 0)
}

/// The earlier names that the blocks list, in order.
pub open spec fn aliases_of(blocks: Seq<AliasBlock>) -> Seq<String>
    decreases blocks.len(),
{
    if blocks.len() == 0 {
        Seq::empty()
    } else {
        aliases_of(blocks.drop_last()) + (if lists_aliases(blocks.last()) {
            blocks.last().spans@
        } else {
            Seq::empty()
        })
    }
}

/// Why a row cannot be read, if it cannot.
pub open spec fn row_error(row: Row) -> Option<UserSearchParseError> {
    if !(row.info matches Some(info) && info.href is Some) {
        Some(UserSearchParseError::NoProfileInfo)
    } else if !(row.avatar matches Some(src) && src is Some) {
        Some(UserSearchParseError::NoProfileAvatar)
    } else {
        None
    }
}

/// Whether a row that can be read has a picture whose address the ending
/// can be cut off. A row that cannot be read is not cut at all.
pub open spec fn row_cuts(row: Row) -> bool {
    row_error(row) is None ==> (row.avatar matches Some(Some(src)) ==> can_cut(src@))
}

/// Whether every row that is cut when `rows` are read in turn can be cut:
/// all rows up to the first that cannot be read.
pub open spec fn rows_cut(rows: Seq<Row>) -> bool
    decreases rows.len(),
{
    if rows.len() == 0 {
        true
    } else {
        row_cuts(rows[0]) && (row_error(rows[0]) is None ==> rows_cut(rows.skip(1)))
    }
}

/// Whether `entry` is what `row` tells of.
pub open spec fn is_entry_of(entry: UserSearchEntry, row: Row) -> bool {
    &&& row.info matches Some(info)
    &&& info.href == Some(entry.profile_url)
    &&& info.inner_html == entry.persona_name
    &&& row.avatar matches Some(Some(src))
    &&& encode_utf8(entry.avatar_full@) == full_avatar(src@)
    &&& entry.aliases@ == aliases_of(row.alias_blocks@)
}

/// Whether the text starts with `Also known as`.
pub fn starts_with_also_known_as(text: &str) -> (found: bool)
    ensures
        found == occurs_at(text.spec_bytes(), encode_utf8("Also known as"@), 0),
{
    let pattern = "Also known as";
    let bytes = text.as_bytes();
    let needle = pattern.as_bytes();
    if needle.len() > bytes.len() {
        return false;
    }
    let mut k: usize = 0;
    while k < needle.len()
        invariant
            k <= needle.len(),
            needle.len() <= bytes.len(),
            bytes@ == text.spec_bytes(),
            needle@ == encode_utf8("Also known as"@),
            forall|j: int| 0 <= j < k ==> bytes@[j] == needle@[j],
        decreases needle.len() - k,
    {
        if bytes[k] != needle[k] {
            proof {
                assert(bytes@.subrange(0, needle@.len() as int)[k as int] == bytes@[k as int]);
            }
            return false;
        }
        k = k + 1;
    }
    assert(bytes@.subrange(0, needle@.len() as int) == needle@);
    true
}

/// Whether `row` can be read: it links to a profile and shows a picture.
pub fn row_reads(row: &Row) -> (reads: bool)
    ensures
        reads == (row_error(*row) is None),
{
    let linked = match &row.info {
        Some(info) => info.href.is_some(),
        None => false,
    };
    let shown = match &row.avatar {
        Some(src) => src.is_some(),
        None => false,
    };
    linked && shown
}

/// Whether `row`, where it can be read, has a picture whose address the
/// ending can be cut off.
pub fn avatar_cuts(row: &Row) -> (cuts: bool)
    ensures
        cuts == row_cuts(*row),
{
    if !row_reads(row) {
        return true;
    }
    match &row.avatar {
        Some(Some(src)) => {
            let text = src.as_str();
            let len = text.as_bytes().len();
            len >= AVATAR_MEDIUM_SUFFIX_LEN && text.is_char_boundary(len - AVATAR_MEDIUM_SUFFIX_LEN)
        },
        _ => true,
    }
}

/// Whether every row that is cut when `rows` are read in turn can be cut.
pub fn avatars_cut(rows: &Vec<Row>) -> (cut: bool)
    ensures
        cut == rows_cut(rows@),
{
    let mut i: usize = 0;
    proof {
        assert(rows@.skip(0) == rows@);
    }
    while i < rows.len()
        invariant
            i <= rows.len(),
            rows_cut(rows@) == rows_cut(rows@.skip(i as int)),
        decreases rows.len() - i,
    {
        proof {
            let left = rows@.skip(i as int);
            assert(left[0] == rows@[i as int]);
            assert(left.skip(1) == rows@.skip(i + 1));
        }
        if !avatar_cuts(&rows[i]) {
            return false;
        }
        if !row_reads(&rows[i]) {
            return true;
        }
        i = i + 1;
    }
    true
}

/// Reads the user that a row tells of.
pub fn parse_row(row: Row) -> (entry: Result<UserSearchEntry, UserSearchParseError>)
    requires
        row_cuts(row),
    ensures
        entry matches Ok(e) ==> row_error(row) is None && is_entry_of(e, row),
        entry matches Err(error) ==> row_error(row) == Some(error),
{
    let info = match row.info {
        Some(info) => info,
        None => {
            return Err(UserSearchParseError::NoProfileInfo);
        },
    };
    let profile_url = match info.href {
        Some(href) => href,
        None => {
            return Err(UserSearchParseError::NoProfileInfo);
        },
    };
    let persona_name = info.inner_html;
    let src = match row.avatar {
        Some(Some(src)) => src,
        _ => {
            return Err(UserSearchParseError::NoProfileAvatar);
        },
    };
    let text = src.as_str();
    let len = text.as_bytes().len();
    let (head, _) = text.split_at(len - AVATAR_MEDIUM_SUFFIX_LEN);
    let mut avatar_full = String::from_str(head);
    let ghost cut = avatar_full@;
    avatar_full.append("_full.jpg");
    proof {
        lemma_encode_concat(cut, "_full.jpg"@);
    }
    let ghost blocks = row.alias_blocks@;
    let mut aliases: Vec<String> = Vec::new();
    for block in it: row.alias_blocks
        invariant
            aliases@ == aliases_of(it.seq().take(it.index() as int)),
    {
        proof {
            let grown = it.seq().take(it.index() + 1);
            assert(grown.drop_last() == it.seq().take(it.index() as int));
            assert(grown.last() == block);
        }
        let inner = trim_start(block.inner_html.as_str());
        if starts_with_also_known_as(inner) {
            let mut spans = block.spans;
            aliases.append(&mut spans);
        } else {
            assert(aliases@ + Seq::<String>::empty() == aliases@);
        }
    }
    proof {
        assert(blocks.take(blocks.len() as int) == blocks);
    }
    Ok(UserSearchEntry { persona_name, profile_url, avatar_full, aliases })
}

/// The bytes of two texts in a row are the bytes of the first followed by
/// those of the second.
pub proof fn lemma_encode_concat(first: Seq<char>, second: Seq<char>)
    ensures
        encode_utf8(first + second) == encode_utf8(first) + encode_utf8(second),
    decreases first.len(),
{
    if first.len() == 0 {
        assert(first + second == second);
        assert(encode_utf8(first) + encode_utf8(second) == encode_utf8(second));
    } else {
        let whole = first + second;
        assert(whole.drop_first() == first.drop_first() + second);
        assert(whole[0] == first[0]);
        lemma_encode_concat(first.drop_first(), second);
        assert(encode_utf8(whole) == vstd::utf8::encode_scalar(first[0] as u32) + encode_utf8(
            whole.drop_first(),
        ));
        assert(encode_utf8(first) == vstd::utf8::encode_scalar(first[0] as u32) + encode_utf8(
            first.drop_first(),
        ));
        assert(vstd::utf8::encode_scalar(first[0] as u32) + (encode_utf8(first.drop_first())
            + encode_utf8(second)) == (vstd::utf8::encode_scalar(first[0] as u32) + encode_utf8(
            first.drop_first(),
        )) + encode_utf8(second));
    }
}

/// Whether `entries` holds, for each row in turn, the user that it tells
/// of.
pub open spec fn all_read(rows: Seq<Row>, entries: Seq<UserSearchEntry>) -> bool {
    &&& entries.len() == rows.len()
    &&& forall|k: int|
        0 <= k < rows.len() ==> row_error(#[trigger] rows[k]) is None && is_entry_of(
            entries[k],
            rows[k],
        )
}

/// What reading `rows` gives: all users in order, or the error of the
/// first row that cannot be read.
pub open spec fn read_as(rows: Seq<Row>, entries: Result<
    Vec<UserSearchEntry>,
    UserSearchParseError,
>) -> bool {
    match entries {
        Ok(list) => all_read(rows, list@),
        Err(error) => exists|i: int|
            0 <= i < rows.len() && #[trigger] row_error(rows[i]) == Some(error) && forall|k: int|
                0 <= k < i ==> row_error(#[trigger] rows[k]) is None,
    }
}

/// Reads the users that the rows of an answer tell of. The first row that
/// cannot be read makes the whole answer unreadable.
pub fn parse(rows: Vec<Row>) -> (entries: Result<Vec<UserSearchEntry>, UserSearchParseError>)
    requires
        rows_cut(rows@),
    ensures
        read_as(rows@, entries),
{
    let mut read: Vec<UserSearchEntry> = Vec::new();
    proof {
        assert(rows@.skip(0) == rows@);
    }
    for row in it: rows
        invariant
            rows_cut(it.seq().skip(it.index() as int)),
            all_read(it.seq().take(it.index() as int), read@),
    {
        let ghost seen = it.seq().take(it.index() as int);
        let ghost grown = it.seq().take(it.index() + 1);
        proof {
            let left = it.seq().skip(it.index() as int);
            assert(left[0] == row);
            assert(left.skip(1) == it.seq().skip(it.index() + 1));
        }
        match parse_row(row) {
            Ok(entry) => {
                proof {
                    let longer = read@.push(entry);
                    assert forall|k: int| 0 <= k < grown.len() implies row_error(
                        #[trigger] grown[k],
                    ) is None && is_entry_of(longer[k], grown[k]) by {
                        if k < seen.len() {
                            assert(seen[k] == grown[k]);
                        }
                    }
                }
                read.push(entry);
            },
            Err(error) => {
                proof {
                    assert(row_error(it.seq()[it.index() as int]) == Some(error));
                    assert forall|k: int| 0 <= k < it.index() implies row_error(
                        #[trigger] it.seq()[k],
                    ) is None by {
                        assert(seen[k] == it.seq()[k]);
                    }
                }
                return Err(error);
            },
        }
    }
    proof {
        assert(rows@.take(rows@.len() as int) == rows@);
    }
    Ok(read)
}

/// The number of the page that the answer tells: the number where it is
/// written as an unsigned whole number, the number that the text writes,
/// with or without a plus sign before it, where it is written as text.
pub open spec fn page_number(field: SearchPageField) -> Option<u64> {
    match field {
        SearchPageField::Number(number) => number,
        SearchPageField::Text(text) => parse_plus_decimal(encode_utf8(text@)),
        SearchPageField::Other => None,
    }
}

/// Why an answer is no page of a search, its rows left aside: it does not
/// report success, the rows could not be looked for, or it does not tell
/// its number, in this order.
pub open spec fn page_error(value: Response) -> Option<UserSearchError> {
    if value.success != 1 {
        Some(UserSearchError::NoSuccess)
    } else if value.rows is None {
        Some(UserSearchError::InvalidSelector)
    } else if page_number(value.search_page) is None {
        Some(UserSearchError::InvalidSearchPage)
    } else {
        None
    }
}

/// Whether `page` is what reading `value` gives: the error of the answer
/// where it has one, else the error of the first row that cannot be read,
/// else the page with its numbers, its texts and its users.
pub open spec fn is_page_of(page: Result<UserSearchPage, UserSearchError>, value: Response) -> bool {
    match page_error(value) {
        Some(error) => page == Err::<UserSearchPage, UserSearchError>(error),
        None => match page {
            Ok(p) => {
                &&& p.search_string == value.search_text
                &&& p.total_result_count == value.search_result_count
                &&& p.search_filter == value.search_filter
                &&& p.search_page == page_number(value.search_page).unwrap() as usize
                &&& read_as(value.rows.unwrap()@, Ok(p.results))
            },
            Err(UserSearchError::InvalidHtmlPayload(error)) => read_as(
                value.rows.unwrap()@,
                Err(error),
            ),
            Err(_) => false,
        },
    }
}

/// Whether every row that is cut when `value` is read can be cut. No row
/// of an answer that is no page of a search is cut.
pub open spec fn answer_cuts(value: Response) -> bool {
    page_error(value) is None ==> rows_cut(value.rows.unwrap()@)
}

/// Whether every row that is cut when `value` is read can be cut.
pub fn response_cuts(value: &Response) -> (cuts: bool)
    ensures
        cuts == answer_cuts(*value),
{
    if value.success != 1 {
        return true;
    }
    let rows = match &value.rows {
        Some(rows) => rows,
        None => {
            return true;
        },
    };
    let number = match &value.search_page {
        SearchPageField::Number(number) => *number,
        SearchPageField::Text(text) => parse_plus_u64(text.as_str()),
        SearchPageField::Other => None,
    };
    if number.is_none() {
        return true;
    }
    avatars_cut(rows)
}

impl UserSearchPage {
    /// Reads the page that an answer tells of.
    pub fn parse_response(value: Response) -> (page: Result<UserSearchPage, UserSearchError>)
        requires
            answer_cuts(value),
        ensures
            is_page_of(page, value),
    {
        if value.success != 1 {
            return Err(UserSearchError::NoSuccess);
        }
        let rows = match value.rows {
            Some(rows) => rows,
            None => {
                return Err(UserSearchError::InvalidSelector);
            },
        };
        let number = match value.search_page {
            SearchPageField::Number(number) => number,
            SearchPageField::Text(text) => parse_plus_u64(text.as_str()),
            SearchPageField::Other => None,
        };
        let search_page = match number {
            Some(search_page) => search_page,
            None => {
                return Err(UserSearchError::InvalidSearchPage);
            },
        };
        let results = match parse(rows) {
            Ok(results) => results,
            Err(error) => {
                return Err(UserSearchError::InvalidHtmlPayload(error));
            },
        };
        Ok(
            UserSearchPage {
                search_string: value.search_text,
                total_result_count: value.search_result_count,
                search_filter: value.search_filter,
                search_page: search_page as usize,
                results,
            },
        )
    }
}

/// The identifier in the address of a profile: the decimal number that
/// follows the first `/profiles/`.
pub open spec fn profile_id(url: Seq<char>) -> Option<SteamId> {
    match tail_after(encode_utf8(url), encode_utf8("/profiles/"@)) {
        Some(tail) => match parse_decimal(tail) {
            Some(raw) => Some(SteamId(raw)),
            None => None,
        },
        None => None,
    }
}

/// The chosen name in the address of a profile: what follows the first
/// `/id/`.
pub open spec fn profile_name(url: Seq<char>) -> Option<Seq<u8>> {
    tail_after(encode_utf8(url), encode_utf8("/id/"@))
}

impl UserSearchEntry {
    /// The identifier of the user, where the address of the profile holds
    /// it: `http://steamcommunity.com/profiles/76561197960287930` holds
    /// `76561197960287930`.
    pub fn steam_id(&self) -> (id: Option<SteamId>)
        ensures
            id == profile_id(self.profile_url@),
    {
        proof {
            reveal_strlit("/profiles/");
            is_ascii_spec_bytes("/profiles/");
        }
        match str_tail_after(self.profile_url.as_str(), "/profiles/") {
            Some(tail) => match parse_u64(tail) {
                Some(raw) => Some(SteamId(raw)),
                None => None,
            },
            None => None,
        }
    }

    /// The name that the user chose, where the address of the profile
    /// holds it: `https://steamcommunity.com/id/GabeLoganNewell` holds
    /// `GabeLoganNewell`.
    pub fn vanity_url(&self) -> (name: Option<&str>)
        ensures
            name is Some <==> profile_name(self.profile_url@) is Some,
            name matches Some(n) ==> Some(n.spec_bytes()) == profile_name(self.profile_url@),
    {
        proof {
            reveal_strlit("/id/");
            is_ascii_spec_bytes("/id/");
        }
        str_tail_after(self.profile_url.as_str(), "/id/")
    }
}

impl Client {
    /// The parameters of the request for page `page` of the search for
    /// `query`. The session id goes with them.
    pub fn search_page_query(&self, query: &str, page: usize) -> (params: Vec<(String, String)>)
        ensures
            params_view(params@) == seq![
                ("filter"@, "users"@),
                ("text"@, query@),
                ("sessionid"@, self@.session_id),
                ("page"@, decimal_text(page as nat)),
            ],
    {
        let mut number = String::new();
        push_decimal(&mut number, page as u64);
        let mut params: Vec<(String, String)> = Vec::new();
        params.push(param("filter", "users"));
        params.push(param("text", query));
        params.push(param("sessionid", self.session_id()));
        params.push(param("page", number.as_str()));
        assert(params_view(params@) == seq![
            ("filter"@, "users"@),
            ("text"@, query@),
            ("sessionid"@, self@.session_id),
            ("page"@, decimal_text(page as nat)),
        ]) by {
            assert(params_view(params@)[0] == ("filter"@, "users"@));
            assert(params_view(params@)[1] == ("text"@, query@));
            assert(params_view(params@)[2] == ("sessionid"@, self@.session_id));
            assert(params_view(params@)[3] == ("page"@, number@));
        }
        params
    }
}

} // verus!
