//! Moving an addon or a collection one place up or down: the new order and
//! the sort keys (`0, 10, 20, …` by position) that must be sent to the
//! server, only for the items whose key changes.

use vstd::prelude::*;

verus! {

/// Which neighbour an item swaps with.
#[derive(Clone, Copy, PartialEq, Eq, Structural, Debug)]
pub enum MoveDirection {
    Up,
    Down,
}

/// The position an item at `idx` moves to, if the move is possible in a list
/// of `n` items.
pub open spec fn move_target(n: int, idx: int, dir: MoveDirection) -> Option<int> {
    match dir {
        MoveDirection::Up => if 0 < idx < n {
            Some(idx - 1)
        } else {
            None
        },
        MoveDirection::Down => if 0 <= idx && idx + 1 < n {
            Some(idx + 1)
        } else {
            None
        },
    }
}

/// The item shown at position `i` after swapping positions `a` and `b`.
pub open spec fn swapped(i: int, a: int, b: int) -> int {
    if i == a {
        b
    } else if i == b {
        a
    } else {
        i
    }
}

/// The key updates for the first `k` positions of the new order: the item at
/// position `i` gets `10 * i` unless it already has that key.
pub open spec fn updates_upto(keys: Seq<Option<i64>>, a: int, b: int, k: int) -> Seq<(usize, i64)>
    decreases k,
{
    if k <= 0 {
        Seq::empty()
    } else {
        let prev = updates_upto(keys, a, b, k - 1);
        let item = swapped(k - 1, a, b);
        if keys[item] == Some(((k - 1) * 10) as i64) {
            prev
        } else {
            prev.push((item as usize, ((k - 1) * 10) as i64))
        }
    }
}

/// The key updates for moving the item at `idx` one place in direction
/// `dir`, or `None` when it cannot move that way.
pub open spec fn reorder_updates_spec(keys: Seq<Option<i64>>, idx: int, dir: MoveDirection) -> Option<Seq<(usize, i64)>> {
    match move_target(keys.len() as int, idx, dir) {
        Some(t) => Some(updates_upto(keys, idx, t, keys.len() as int)),
        None => None,
    }
}

/// The key of `item` once the updates are applied (the last update of it
/// wins).
pub open spec fn key_after(keys: Seq<Option<i64>>, ups: Seq<(usize, i64)>, item: int) -> Option<i64>
    decreases ups.len(),
{
    if ups.len() == 0 {
        keys[item]
    } else if ups.last().0 == item {
        Some(ups.last().1)
    } else {
        key_after(keys, ups.drop_last(), item)
    }
}

/// Computes the key updates of a one-place move of the item at `idx`.
pub fn reorder_updates(keys: &Vec<Option<i64>>, idx: usize, dir: MoveDirection) -> (r: Option<Vec<(usize, i64)>>)
    requires
        keys@.len() * 10 <= i64::MAX,
    ensures
        match (r, reorder_updates_spec(keys@, idx as int, dir)) {
            (Some(v), Some(u)) => v@ == u,
            (None, None) => true,
            _ => false,
        },
{
    let n = keys.len();
    let target: usize = match dir {
        MoveDirection::Up => {
            if idx == 0 || idx >= n {
                return None;
            }
            idx - 1
        },
        MoveDirection::Down => {
            if idx >= n || idx + 1 >= n {
                return None;
            }
            idx + 1
        },
    };
    let mut ups: Vec<(usize, i64)> = Vec::new();
    let mut i: usize = 0;
    while i < n
        invariant
            i <= n == keys@.len(),
            n * 10 <= i64::MAX,
            idx < n,
            target < n,
            ups@ == updates_upto(keys@, idx as int, target as int, i as int),
        decreases n - i,
    {
        let item: usize = if i == idx {
            target
        } else if i == target {
            idx
        } else {
            i
        };
        let key: i64 = (i as i64) * 10;
        if keys[item] != Some(key) {
            ups.push((item, key));
        }
        i = i + 1;
    }
    Some(ups)
}

proof fn lemma_updates_items(keys: Seq<Option<i64>>, a: int, b: int, k: int, item: int)
    requires
        0 <= a < keys.len(),
        0 <= b < keys.len(),
        0 <= k <= keys.len(),
        0 <= item < keys.len(),
        keys.len() <= usize::MAX,
        keys.len() * 10 <= i64::MAX,
        forall|j: int| 0 <= j < k ==> swapped(j, a, b) != item,
    ensures
        key_after(keys, updates_upto(keys, a, b, k), item) == keys[item],
    decreases k,
{
    if k > 0 {
        lemma_updates_items(keys, a, b, k - 1, item);
        let prev = updates_upto(keys, a, b, k - 1);
        let it = swapped(k - 1, a, b);
        if keys[it] != Some(((k - 1) * 10) as i64) {
            let ups = prev.push((it as usize, ((k - 1) * 10) as i64));
            assert(ups.drop_last() == prev);
            assert(ups.last().0 as int == it);
        }
    }
}

/// After a one-place move, applying the updates leaves every item keyed by
/// ten times its new position, whatever keys the items had before.
pub proof fn law_reorder_keys(keys: Seq<Option<i64>>, idx: int, dir: MoveDirection)
    requires
        keys.len() <= usize::MAX,
        keys.len() * 10 <= i64::MAX,
        move_target(keys.len() as int, idx, dir) is Some,
    ensures
        ({
            let t = move_target(keys.len() as int, idx, dir).unwrap();
            let ups = reorder_updates_spec(keys, idx, dir).unwrap();
            forall|i: int| 0 <= i < keys.len() ==> key_after(keys, ups, #[trigger] swapped(i, idx, t))
                == Some((i * 10) as i64)
        }),
{
    let t = move_target(keys.len() as int, idx, dir).unwrap();
    let n = keys.len() as int;
    assert forall|i: int| 0 <= i < n implies key_after(keys, updates_upto(keys, idx, t, n), #[trigger] swapped(i, idx, t))
        == Some((i * 10) as i64) by {
        lemma_key_at_position(keys, idx, t, n, i);
    }
}

proof fn lemma_key_at_position(keys: Seq<Option<i64>>, a: int, b: int, k: int, i: int)
    requires
        0 <= a < keys.len(),
        0 <= b < keys.len(),
        0 <= i < k <= keys.len(),
        keys.len() <= usize::MAX,
        keys.len() * 10 <= i64::MAX,
    ensures
        key_after(keys, updates_upto(keys, a, b, k), swapped(i, a, b)) == Some((i * 10) as i64),
    decreases k,
{
    let item = swapped(i, a, b);
    let prev = updates_upto(keys, a, b, k - 1);
    let it = swapped(k - 1, a, b);
    if i == k - 1 {
        if keys[it] != Some(((k - 1) * 10) as i64) {
            let ups = prev.push((it as usize, ((k - 1) * 10) as i64));
            assert(ups.last().0 as int == item);
        } else {
            assert forall|j: int| 0 <= j < k - 1 implies swapped(j, a, b) != item by {}
            lemma_updates_items(keys, a, b, k - 1, item);
        }
    } else {
        lemma_key_at_position(keys, a, b, k - 1, i);
        if keys[it] != Some(((k - 1) * 10) as i64) {
            let ups = prev.push((it as usize, ((k - 1) * 10) as i64));
            assert(ups.drop_last() == prev);
            assert(it != item);
        }
    }
}

} // verus!
