//! Reading the session id out of the answer to the first request.
//!
//! A client starts by asking the service for a session. The service answers
//! with the status "unauthorized" and a cookie of the form
//! `sessionid=a0a0a0a0a0a0a0a0a0a0a0a0; Path=/; Secure; SameSite=None`.

use crate::client::{Error, UNAUTHORIZED};
use vstd::prelude::*;
use vstd::string::{is_ascii_spec_bytes, StrSliceExecFns, StringExecFns};
use vstd::utf8::is_ascii_chars;

verus! {

/// The first place at which `c` stands in `text`, if it stands anywhere.
pub open spec fn first_index(text: Seq<char>, c: char) -> Option<int>
    decreases text.len(),
{
    if text.len() == 0 {
        None
    } else if text[0] == c {
        Some(0)
    } else {
        match first_index(text.skip(1), c) {
            Some(rest) => Some(rest + 1),
            None => None,
        }
    }
}

/// The session id that a cookie carries: what stands between the leading
/// `sessionid=` and the first semicolon after it. A cookie that does not
/// start so, that has no semicolon after it, or that holds a character
/// outside ASCII carries none.
pub open spec fn cookie_session_id(cookie: Seq<char>) -> Option<Seq<char>> {
    if is_ascii_chars(cookie) && cookie.len() >= 10 && cookie.take(10) == "sessionid="@ {
        match first_index(cookie.skip(10), ';') {
            Some(end) => Some(cookie.skip(10).take(end)),
            None => None,
        }
    } else {
        None
    }
}

/// The session id of the first cookie that carries one.
pub open spec fn first_session_id(cookies: Seq<Seq<char>>) -> Option<Seq<char>>
    decreases cookies.len(),
{
    if cookies.len() == 0 {
        None
    } else {
        match cookie_session_id(cookies[0]) {
            Some(id) => Some(id),
            None => first_session_id(cookies.skip(1)),
        }
    }
}

/// Whether `status` tells of a failure on the side of the client or of the
/// service.
pub open spec fn is_error_status(status: u16) -> bool {
    400 <= status < 600
}

/// The session that an answer with `status` and `cookies` grants: none
/// where the status is an error other than "unauthorized", else the session
/// id of the first cookie that carries one.
pub open spec fn session_of_answer(status: u16, cookies: Seq<Seq<char>>) -> Result<
    Seq<char>,
    Error,
> {
    if status != UNAUTHORIZED && is_error_status(status) {
        Err(Error::Status(status))
    } else {
        match first_session_id(cookies) {
            Some(id) => Ok(id),
            None => Err(Error::SetCookieMissing),
        }
    }
}

/// Where `c` is not among the first `end` characters, the first place of
/// `c` is at or after `end`; where it stands at `end`, that is the place.
proof fn lemma_first_index(text: Seq<char>, c: char, end: int)
    requires
        0 <= end <= text.len(),
        forall|k: int| 0 <= k < end ==> text[k] != c,
    ensures
        end < text.len() && text[end] == c ==> first_index(text, c) == Some(end),
        end == text.len() ==> first_index(text, c) is None,
    decreases end,
{
    if end > 0 {
        let rest = text.skip(1);
        assert forall|k: int| 0 <= k < end - 1 implies rest[k] != c by {
            assert(rest[k] == text[k + 1]);
        }
        lemma_first_index(rest, c, end - 1);
        if end < text.len() {
            assert(rest[end - 1] == text[end]);
        }
    }
}

/// Reads the session id that a cookie carries.
pub fn find_cookie(cookie: &str) -> (id: Option<String>)
    ensures
        id is Some <==> cookie_session_id(cookie@) is Some,
        id matches Some(text) ==> text@ == cookie_session_id(cookie@).unwrap(),
{
    if !cookie.is_ascii() {
        return None;
    }
    proof {
        is_ascii_spec_bytes(cookie);
        reveal_strlit("sessionid=");
    }
    let bytes = cookie.as_bytes();
    let len = bytes.len();
    if len < 10 {
        return None;
    }
    if bytes[0] != 0x73 || bytes[1] != 0x65 || bytes[2] != 0x73 || bytes[3] != 0x73 || bytes[4]
        != 0x69 || bytes[5] != 0x6f || bytes[6] != 0x6e || bytes[7] != 0x69 || bytes[8] != 0x64
        || bytes[9] != 0x3d {
        proof {
            let head = cookie@.take(10);
            let prefix = "sessionid="@;
            if head == prefix {
                assert(head[0] == prefix[0] && head[1] == prefix[1] && head[2] == prefix[2]
                    && head[3] == prefix[3] && head[4] == prefix[4] && head[5] == prefix[5]
                    && head[6] == prefix[6] && head[7] == prefix[7] && head[8] == prefix[8]
                    && head[9] == prefix[9]);
            }
        }
        return None;
    }
    assert(cookie@.take(10) == "sessionid="@) by {
        let head = cookie@.take(10);
        assert(head[0] == 's' && head[1] == 'e' && head[2] == 's' && head[3] == 's' && head[4]
            == 'i' && head[5] == 'o' && head[6] == 'n' && head[7] == 'i' && head[8] == 'd'
            && head[9] == '=');
    }
    let ghost rest = cookie@.skip(10);
    let mut end: usize = 10;
    while end < len
        invariant
            10 <= end <= len,
            len == cookie@.len(),
            is_ascii_chars(cookie@),
            bytes@ == Seq::new(cookie@.len(), |i: int| cookie@[i] as u8),
            cookie@.take(10) == "sessionid="@,
            rest == cookie@.skip(10),
            forall|k: int| 0 <= k < end - 10 ==> rest[k] != ';',
        decreases len - end,
    {
        if bytes[end] == 0x3b {
            proof {
                assert(rest[end - 10] == cookie@[end as int]);
                lemma_first_index(rest, ';', end - 10);
                assert(cookie@.subrange(10, end as int) == rest.take(end - 10));
            }
            let id = cookie.substring_ascii(10, end);
            return Some(String::from_str(id));
        }
        proof {
            assert(rest[end - 10] == cookie@[end as int]);
        }
        end = end + 1;
    }
    proof {
        lemma_first_index(rest, ';', rest.len() as int);
    }
    None
}

/// Reads the session that the answer to the first request grants, from its
/// status and from those of its cookies that are text.
pub fn session_id_from_answer(status: u16, cookies: &Vec<String>) -> (session: Result<
    String,
    Error,
>)
    ensures
        session is Ok <==> session_of_answer(status, cookies.deep_view()) is Ok,
        session matches Ok(id) ==> Ok::<Seq<char>, Error>(id@) == session_of_answer(
            status,
            cookies.deep_view(),
        ),
        session matches Err(error) ==> Err::<Seq<char>, Error>(error) == session_of_answer(
            status,
            cookies.deep_view(),
        ),
{
    if status != UNAUTHORIZED && 400 <= status && status < 600 {
        return Err(Error::Status(status));
    }
    let ghost all = cookies.deep_view();
    let mut i: usize = 0;
    proof {
        assert(all.skip(0) == all);
    }
    while i < cookies.len()
        invariant
            i <= cookies.len(),
            !(status != UNAUTHORIZED && is_error_status(status)),
            all == cookies.deep_view(),
            first_session_id(all) == first_session_id(all.skip(i as int)),
        decreases cookies.len() - i,
    {
        let ghost left = all.skip(i as int);
        proof {
            assert(left[0] == cookies[i as int]@);
            assert(left.skip(1) == all.skip(i + 1));
        }
        match find_cookie(cookies[i].as_str()) {
            Some(id) => {
                return Ok(id);
            },
            None => {},
        }
        i = i + 1;
    }
    Err(Error::SetCookieMissing)
}

} // verus!
