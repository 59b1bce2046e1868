//! Writing a list of identifiers as one text, for the query of a request.

use crate::steam_id::SteamId;
use crate::text::{decimal_text, push_decimal, string_with_capacity};
use vstd::prelude::*;
use vstd::string::StringExecFns;

verus! {

/// The texts `parts` in a row, with `sep` between each two neighbours.
pub open spec fn joined(parts: Seq<Seq<char>>, sep: Seq<char>) -> Seq<char>
    decreases parts.len(),
{
    if parts.len() == 0 {
        Seq::empty()
    } else if parts.len() == 1 {
        parts[0]
    } else {
        joined(parts.drop_last(), sep) + sep + parts.last()
    }
}

/// The decimal text of each identifier.
pub open spec fn decimal_texts(ids: Seq<SteamId>) -> Seq<Seq<char>> {
    Seq::new(ids.len(), |i: int| decimal_text(ids[i].0 as nat))
}

/// Whether `render` can answer `text` for `id`.
pub open spec fn renders<F: Fn(&SteamId) -> String>(render: F, id: SteamId, text: Seq<char>) -> bool {
    exists|answer: String| #[trigger] call_ensures(render, (&id,), answer) && answer@ == text
}

/// Whether `parts` holds, for each identifier in turn, a text that
/// `render` can answer for it.
pub open spec fn rendered<F: Fn(&SteamId) -> String>(
    render: F,
    ids: Seq<SteamId>,
    parts: Seq<Seq<char>>,
) -> bool {
    &&& parts.len() == ids.len()
    &&& forall|i: int| 0 <= i < ids.len() ==> renders(render, ids[i], #[trigger] parts[i])
}

/// Lists of identifiers that can be written as one text.
pub trait SteamIdExt {
    /// The identifiers of the list, in order.
    spec fn ids(&self) -> Seq<SteamId>;

    /// The decimal texts of the identifiers with `sep` between them.
    fn to_steam_id_string(&self, sep: &str) -> (text: String)
        ensures
            text@ == joined(decimal_texts(self.ids()), sep@),
    ;

    /// What `f` answers for each identifier of the list, with `sep`
    /// between the answers. `f` need not take any other identifier.
    fn to_steam_id_string_with<F: Fn(&SteamId) -> String>(&self, sep: &str, f: F) -> (text: String)
        requires
            forall|i: int|
                0 <= i < self.ids().len() ==> #[trigger] call_requires(f, (&self.ids()[i],)),
        ensures
            exists|parts: Seq<Seq<char>>|
                #[trigger] rendered(f, self.ids(), parts) && text@ == joined(parts, sep@),
    ;
}

impl SteamIdExt for [SteamId] {
    open spec fn ids(&self) -> Seq<SteamId> {
        self@
    }

    fn to_steam_id_string(&self, sep: &str) -> (text: String) {
        let count = self.len();
        let room = match count.checked_mul(SteamId::MAX_DIGITS_FOR_U64) {
            Some(digits) => match count.saturating_sub(1).checked_mul(sep.len()) {
                Some(seps) => digits.checked_add(seps),
                None => None,
            },
            None => None,
        };
        let mut buf = match room {
            Some(room) => if room <= isize::MAX as usize {
                string_with_capacity(room)
            } else {
                String::new()
            },
            None => String::new(),
        };
        let ghost parts = decimal_texts(self@);
        let mut i: usize = 0;
        while i < count
            invariant
                i <= count,
                count == self@.len(),
                parts == decimal_texts(self@),
                buf@ == joined(parts.take(i as int), sep@),
            decreases count - i,
        {
            proof {
                assert(parts.take(i + 1).drop_last() == parts.take(i as int));
                assert(parts.take(i + 1).last() == decimal_text(self@[i as int].0 as nat));
            }
            if i > 0 {
                buf.append(sep);
            }
            push_decimal(&mut buf, self[i].0);
            i = i + 1;
        }
        proof {
            assert(parts.take(count as int) == parts);
        }
        buf
    }

    fn to_steam_id_string_with<F: Fn(&SteamId) -> String>(&self, sep: &str, f: F) -> (text: String) {
        let count = self.len();
        let mut buf = String::new();
        let ghost mut parts: Seq<Seq<char>> = Seq::empty();
        let mut i: usize = 0;
        while i < count
            invariant
                i <= count,
                count == self@.len(),
                forall|k: int|
                    0 <= k < self.ids().len() ==> #[trigger] call_requires(f, (&self.ids()[k],)),
                rendered(f, self@.take(i as int), parts),
                buf@ == joined(parts, sep@),
            decreases count - i,
        {
            assert(call_requires(f, (&self.ids()[i as int],)));
            let part = f(&self[i]);
            proof {
                let grown = parts.push(part@);
                assert(grown.drop_last() == parts);
                assert(renders(f, self@[i as int], part@));
                assert forall|k: int| 0 <= k < i + 1 implies renders(
                    f,
                    self@.take(i + 1)[k],
                    #[trigger] grown[k],
                ) by {
                    if k < i {
                        assert(self@.take(i as int)[k] == self@.take(i + 1)[k]);
                        assert(renders(f, self@.take(i as int)[k], parts[k]));
                    }
                }
                parts = grown;
            }
            if i > 0 {
                buf.append(sep);
            }
            buf.append(part.as_str());
            i = i + 1;
        }
        proof {
            assert(self@.take(count as int) == self@);
            assert(rendered(f, self.ids(), parts));
        }
        buf
    }
}

} // verus!
