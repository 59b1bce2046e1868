//! The parameters of a request, and the list of identifiers among them.

use crate::sorted::{ascending, lemma_ascending_is_unique, sorted_unique};
use crate::steam_id::SteamId;
use crate::steam_id_ext::{decimal_texts, joined, SteamIdExt};
use vstd::prelude::*;
use vstd::string::StringExecFns;

verus! {

/// Whether `list` holds the identifiers of `ids` in ascending order, each
/// once.
pub open spec fn is_sorted_form(list: Seq<SteamId>, ids: Seq<SteamId>) -> bool {
    ascending(list) && forall|id: SteamId| list.contains(id) <==> ids.contains(id)
}

/// The identifiers of `ids` in ascending order, each once.
pub open spec fn sorted_ids(ids: Seq<SteamId>) -> Seq<SteamId> {
    choose|list: Seq<SteamId>| is_sorted_form(list, ids)
}

/// The list of identifiers of a request: the different identifiers among
/// `ids` in ascending order, as decimal texts with commas between them.
/// There is none where more than `limit` different identifiers are given.
pub open spec fn ids_text(ids: Seq<SteamId>, limit: usize) -> Option<Seq<char>> {
    if sorted_ids(ids).len() > limit {
        None
    } else {
        Some(joined(decimal_texts(sorted_ids(ids)), ","@))
    }
}

/// Puts `ids` in ascending order, each once.
pub fn unique_ids(ids: &[SteamId]) -> (list: Vec<SteamId>)
    ensures
        list@ == sorted_ids(ids@),
        is_sorted_form(list@, ids@),
{
    let list = sorted_unique(ids);
    proof {
        assert(is_sorted_form(list@, ids@));
        lemma_ascending_is_unique(list@, sorted_ids(ids@));
    }
    list
}

/// Writes the list of identifiers of a request.
pub fn ids_query(ids: &[SteamId], limit: usize) -> (text: Option<String>)
    ensures
        text is Some <==> ids_text(ids@, limit) is Some,
        text matches Some(t) ==> Some(t@) == ids_text(ids@, limit),
{
    let list = unique_ids(ids);
    if list.len() > limit {
        return None;
    }
    Some(list.as_slice().to_steam_id_string(","))
}

/// One parameter of a request.
pub fn param(name: &str, value: &str) -> (pair: (String, String))
    ensures
        pair.0@ == name@,
        pair.1@ == value@,
{
    (String::from_str(name), String::from_str(value))
}

/// The parameters as they are written: name and value of each in turn.
pub open spec fn params_view(query: Seq<(String, String)>) -> Seq<(Seq<char>, Seq<char>)> {
    Seq::new(query.len(), |i: int| (query[i].0@, query[i].1@))
}

} // verus!
