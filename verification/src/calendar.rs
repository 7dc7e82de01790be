//! Calendar feed links: which users can still get one, the user picked in
//! the generate dialog, and the copy button's state.

use vstd::prelude::*;
use crate::ids::{parse_uuid, uuid_parse, uuid_text_spec};

verus! {

/// Positions of the users that have no calendar link yet, in list order.
pub fn linkable_users(user_ids: &Vec<u128>, linked: &Vec<u128>) -> (r: Vec<usize>)
    ensures
        r@.map_values(|i: usize| i as int) == crate::catalogs::positions_where(
            user_ids@.len() as int,
            |i: int| !linked@.contains(user_ids@[i]),
        ),
{
    let ghost p = |i: int| !linked@.contains(user_ids@[i]);
    let mut out: Vec<usize> = Vec::new();
    let mut i: usize = 0;
    while i < user_ids.len()
        invariant
            i <= user_ids@.len(),
            out@.map_values(|i: usize| i as int) == crate::catalogs::positions_where(i as int, p),
            p == (|i: int| !linked@.contains(user_ids@[i])),
        decreases user_ids@.len() - i,
    {
        let u = user_ids[i];
        let mut found = false;
        let mut k: usize = 0;
        while k < linked.len()
            invariant
                k <= linked@.len(),
                found == (exists|j: int| 0 <= j < k && linked@[j] == u),
            decreases linked@.len() - k,
        {
            if linked[k] == u {
                found = true;
            }
            k = k + 1;
        }
        if !found {
            out.push(i);
        }
        assert(out@.map_values(|i: usize| i as int) =~= crate::catalogs::positions_where(i + 1, p));
        i = i + 1;
    }
    out
}

/// The user picked in the generate dialog: the option's value read as a
/// UUID, none when it is not one (the placeholder option).
pub fn picked_user(value: &str) -> (r: Option<u128>)
    ensures
        r == uuid_parse(value@),
        forall|v: u128| value@ == uuid_text_spec(v) ==> r == Some(v),
        crate::ids::uuid_length_refused(value@) ==> r is None,
{
    parse_uuid(value)
}

/// Does a link's copy button read "Copied"? When its user's link was the
/// last one copied.
pub fn is_copied(last_copied: Option<u128>, user: u128) -> (b: bool)
    ensures
        b == (last_copied == Some(user)),
{
    match last_copied {
        Some(c) => c == user,
        None => false,
    }
}

} // verus!
