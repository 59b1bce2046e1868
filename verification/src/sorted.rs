//! Lists kept in ascending order without repeats.

use crate::steam_id::SteamId;
use vstd::prelude::*;

verus! {

/// Values that are ordered by a number of their own.
pub trait Ranked: Copy {
    /// The number by which the value is ordered.
    spec fn rank(self) -> int;

    /// Whether `self` comes before `other`.
    fn before(self, other: Self) -> (before: bool)
        ensures
            before == (self.rank() < other.rank()),
    ;

    /// Values of the same rank are the same value.
    proof fn lemma_rank_is_exact(a: Self, b: Self)
        ensures
            a.rank() == b.rank() ==> a == b,
    ;
}

impl Ranked for u16 {
    open spec fn rank(self) -> int {
        self as int
    }

    fn before(self, other: Self) -> (before: bool) {
        self < other
    }

    proof fn lemma_rank_is_exact(a: Self, b: Self) {
    }
}

impl Ranked for SteamId {
    open spec fn rank(self) -> int {
        self.0 as int
    }

    fn before(self, other: Self) -> (before: bool) {
        self.0 < other.0
    }

    proof fn lemma_rank_is_exact(a: Self, b: Self) {
    }
}

/// Whether each element comes before all that follow it.
pub open spec fn ascending<T: Ranked>(list: Seq<T>) -> bool {
    forall|i: int, j: int| 0 <= i < j < list.len() ==> list[i].rank() < list[j].rank()
}

/// Puts `item` at its place in the ascending list, unless it is there.
pub fn insert_sorted<T: Ranked>(list: &mut Vec<T>, item: T)
    requires
        ascending(old(list)@),
    ensures
        ascending(final(list)@),
        forall|x: T| final(list)@.contains(x) <==> (old(list)@.contains(x) || x == item),
        final(list)@.len() == old(list)@.len() + (if old(list)@.contains(item) {
            0int
        } else {
            1int
        }),
{
    let mut i: usize = 0;
    while i < list.len() && list[i].before(item)
        invariant
            i <= list.len(),
            *list == *old(list),
            forall|k: int| 0 <= k < i ==> list@[k].rank() < item.rank(),
        decreases list.len() - i,
    {
        i = i + 1;
    }
    let ghost before = list@;
    if i < list.len() && !item.before(list[i]) {
        proof {
            T::lemma_rank_is_exact(before[i as int], item);
            assert(before.contains(item));
        }
        return;
    }
    proof {
        if before.contains(item) {
            let k = choose|k: int| 0 <= k < before.len() && before[k] == item;
            if k > i {
                assert(before[i as int].rank() < before[k].rank());
            }
        }
    }
    list.insert(i, item);
    proof {
        let after = list@;
        assert forall|a: int, b: int| 0 <= a < b < after.len() implies after[a].rank()
            < after[b].rank() by {
            if a < i && b > i {
                assert(after[b] == before[b - 1]);
                if a < b - 1 {
                    assert(before[a].rank() < before[b - 1].rank());
                }
            } else if a > i {
                assert(after[a] == before[a - 1] && after[b] == before[b - 1]);
            } else if a == i {
                assert(after[b] == before[b - 1]);
                if i < b - 1 {
                    assert(before[i as int].rank() < before[b - 1].rank());
                }
            }
        }
        assert forall|x: T| after.contains(x) <==> (before.contains(x) || x == item) by {
            assert(after[i as int] == item);
            if after.contains(x) {
                let k = choose|k: int| 0 <= k < after.len() && after[k] == x;
                if k < i {
                    assert(before[k] == x);
                } else if k > i {
                    assert(before[k - 1] == x);
                }
            }
            if before.contains(x) {
                let k = choose|k: int| 0 <= k < before.len() && before[k] == x;
                if k < i {
                    assert(after[k] == x);
                } else {
                    assert(after[k + 1] == x);
                }
            }
        }
    }
}

/// The elements of `items` in ascending order, each once.
pub fn sorted_unique<T: Ranked>(items: &[T]) -> (list: Vec<T>)
    ensures
        ascending(list@),
        forall|x: T| list@.contains(x) <==> items@.contains(x),
        list@.len() <= items@.len(),
{
    let mut list: Vec<T> = Vec::new();
    let mut i: usize = 0;
    while i < items.len()
        invariant
            i <= items.len(),
            ascending(list@),
            list@.len() <= i,
            forall|x: T| list@.contains(x) <==> items@.subrange(0, i as int).contains(x),
        decreases items.len() - i,
    {
        let ghost seen = items@.subrange(0, i as int);
        let ghost grown = items@.subrange(0, i + 1);
        let item = items[i];
        insert_sorted(&mut list, item);
        proof {
            assert(grown == seen.push(item));
            assert forall|x: T| list@.contains(x) <==> grown.contains(x) by {
                assert(grown[seen.len() as int] == item);
                if grown.contains(x) {
                    let k = choose|k: int| 0 <= k < grown.len() && grown[k] == x;
                    if k < seen.len() {
                        assert(seen[k] == x);
                    }
                }
                if seen.contains(x) {
                    let k = choose|k: int| 0 <= k < seen.len() && seen[k] == x;
                    assert(grown[k] == x);
                }
            }
        }
        i = i + 1;
    }
    proof {
        assert(items@.subrange(0, i as int) == items@);
    }
    list
}

/// Whether `item` is in the list.
pub fn contains_item<T: Ranked>(list: &Vec<T>, item: T) -> (found: bool)
    ensures
        found == list@.contains(item),
{
    let mut i: usize = 0;
    while i < list.len()
        invariant
            i <= list.len(),
            forall|k: int| 0 <= k < i ==> list@[k] != item,
        decreases list.len() - i,
    {
        if !list[i].before(item) && !item.before(list[i]) {
            proof {
                T::lemma_rank_is_exact(list@[i as int], item);
            }
            return true;
        }
        proof {
            assert(list@[i as int] != item);
        }
        i = i + 1;
    }
    false
}

/// An ascending list holds each of its elements once, and two ascending
/// lists of the same elements are the same list.
pub proof fn lemma_ascending_is_unique<T: Ranked>(a: Seq<T>, b: Seq<T>)
    requires
        ascending(a),
        ascending(b),
        forall|x: T| a.contains(x) <==> b.contains(x),
    ensures
        a == b,
    decreases a.len(),
{
    if a.len() == 0 {
        if b.len() > 0 {
            assert(b.contains(b[0]));
        }
        assert(a == b);
    } else {
        let last = a.last();
        assert(a.contains(last));
        assert(b.contains(last));
        let k = choose|k: int| 0 <= k < b.len() && b[k] == last;
        if k < b.len() - 1 {
            let more = b.last();
            assert(b.contains(more));
            assert(a.contains(more));
            let j = choose|j: int| 0 <= j < a.len() && a[j] == more;
            assert(b[k].rank() < b[b.len() - 1].rank());
            if j < a.len() - 1 {
                assert(a[j].rank() < a[a.len() - 1].rank());
            }
        }
        let a0 = a.drop_last();
        let b0 = b.drop_last();
        assert forall|x: T| a0.contains(x) <==> b0.contains(x) by {
            if a0.contains(x) {
                let i = choose|i: int| 0 <= i < a0.len() && a0[i] == x;
                assert(a[i] == x);
                assert(a[i].rank() < a[a.len() - 1].rank());
                assert(a.contains(x));
                assert(b.contains(x));
                let m = choose|m: int| 0 <= m < b.len() && b[m] == x;
                assert(b0[m] == x);
            }
            if b0.contains(x) {
                let i = choose|i: int| 0 <= i < b0.len() && b0[i] == x;
                assert(b[i] == x);
                assert(b[i].rank() < b[b.len() - 1].rank());
                assert(b.contains(x));
                assert(a.contains(x));
                let m = choose|m: int| 0 <= m < a.len() && a[m] == x;
                assert(a0[m] == x);
            }
        }
        lemma_ascending_is_unique(a0, b0);
        assert(a == a0.push(last));
        assert(b == b0.push(last));
    }
}

} // verus!
