//! The devices page: devices grouped by user, and the pager under the list.

use vstd::prelude::*;
use crate::ids::{uuid_text, uuid_text_spec, parse_uuid, uuid_parse};
use crate::text::{chars_of, push_str, string_of};
use crate::num::{parse_i64, parse_i64_spec};

verus! {

/// A signed-in device, with what the devices page reads of it.
#[derive(Debug)]
pub struct DeviceInfo {
    pub id: Option<String>,
    pub name: Option<String>,
    pub user_id: Option<u128>,
    pub last_user_name: Option<String>,
    pub app_name: Option<String>,
    pub app_version: Option<String>,
    pub is_current_session: Option<bool>,
    pub remote_end_point: Option<String>,
}

/// The user key of a device: its user's UUID text, or empty when unknown.
pub open spec fn uid_of(d: DeviceInfo) -> Seq<char> {
    match d.user_id {
        Some(u) => uuid_text_spec(u),
        None => Seq::<char>::empty(),
    }
}

/// The user name shown for a device: its last user's name, else its key.
pub open spec fn label_of(d: DeviceInfo) -> Seq<char> {
    match d.last_user_name {
        Some(n) => n@,
        None => uid_of(d),
    }
}

/// The user keys of a list of devices.
pub open spec fn uids(devs: Seq<DeviceInfo>) -> Seq<Seq<char>> {
    devs.map_values(|d: DeviceInfo| uid_of(d))
}

/// The distinct entries of `s`, in the order of their first occurrence.
pub open spec fn first_occurrences(s: Seq<Seq<char>>) -> Seq<Seq<char>>
    decreases s.len(),
{
    if s.len() == 0 {
        Seq::<Seq<char>>::empty()
    } else {
        let prev = first_occurrences(s.drop_last());
        if prev.contains(s.last()) {
            prev
        } else {
            prev.push(s.last())
        }
    }
}

/// The positions at which `u` occurs in `s`, ascending.
pub open spec fn positions_of(s: Seq<Seq<char>>, u: Seq<char>) -> Seq<usize>
    decreases s.len(),
{
    if s.len() == 0 {
        Seq::<usize>::empty()
    } else {
        let prev = positions_of(s.drop_last(), u);
        if s.last() == u {
            prev.push((s.len() - 1) as usize)
        } else {
            prev
        }
    }
}

/// One user's section of the devices page: the user key, the name shown, and
/// the positions of that user's devices in the page.
#[derive(Debug)]
pub struct DeviceSection {
    pub uid: String,
    pub label: String,
    pub devices: Vec<usize>,
}

/// The sections a page of devices is shown in: one per user, in the order in
/// which users first appear, each listing that user's devices in page order
/// and named after the user's first device.
pub open spec fn is_grouping(devs: Seq<DeviceInfo>, r: Seq<DeviceSection>) -> bool {
    let order = first_occurrences(uids(devs));
    &&& r.len() == order.len()
    &&& forall|s: int| 0 <= s < r.len() ==> {
        &&& (#[trigger] r[s]).uid@ == order[s]
        &&& r[s].devices@ == positions_of(uids(devs), order[s])
        &&& r[s].devices@.len() > 0
        &&& r[s].label@ == label_of(devs[r[s].devices@[0] as int])
    }
}

proof fn lemma_contains_push(p: Seq<Seq<char>>, x: Seq<char>, u: Seq<char>)
    ensures
        p.push(x).contains(u) <==> (p.contains(u) || x == u),
{
    if p.push(x).contains(u) {
        let k = choose|k: int| 0 <= k < p.push(x).len() && p.push(x)[k] == u;
        if k < p.len() {
            assert(p[k] == u);
        }
    }
    if p.contains(u) {
        let k = choose|k: int| 0 <= k < p.len() && p[k] == u;
        assert(p.push(x)[k] == u);
    }
    if x == u {
        assert(p.push(x)[p.len() as int] == u);
    }
}

proof fn lemma_first_occ_contains(s: Seq<Seq<char>>, u: Seq<char>)
    ensures
        first_occurrences(s).contains(u) <==> s.contains(u),
    decreases s.len(),
{
    if s.len() == 0 {
        assert(first_occurrences(s) =~= Seq::<Seq<char>>::empty());
    } else {
        let s0 = s.drop_last();
        let x = s.last();
        lemma_first_occ_contains(s0, u);
        lemma_first_occ_contains(s0, x);
        assert(s0.push(x) == s);
        lemma_contains_push(s0, x, u);
        let prev = first_occurrences(s0);
        lemma_contains_push(prev, x, u);
    }
}

proof fn lemma_positions_absent(s: Seq<Seq<char>>, u: Seq<char>)
    requires
        !s.contains(u),
    ensures
        positions_of(s, u) == Seq::<usize>::empty(),
    decreases s.len(),
{
    if s.len() > 0 {
        assert(s[s.len() - 1] != u);
        assert(!s.drop_last().contains(u)) by {
            if s.drop_last().contains(u) {
                let k = choose|k: int| 0 <= k < s.drop_last().len() && s.drop_last()[k] == u;
                assert(s[k] == u);
            }
        }
        lemma_positions_absent(s.drop_last(), u);
    }
}

fn uid_text(d: &DeviceInfo) -> (s: String)
    ensures
        s@ == uid_of(*d),
{
    match d.user_id {
        Some(u) => uuid_text(u),
        None => String::new(),
    }
}

fn label_text(d: &DeviceInfo) -> (s: String)
    ensures
        s@ == label_of(*d),
{
    match &d.last_user_name {
        Some(n) => n.clone(),
        None => uid_text(d),
    }
}

/// Groups the devices of the current page by user, preserving server order.
pub fn group_by_user(devices: &Vec<DeviceInfo>) -> (r: Vec<DeviceSection>)
    ensures
        is_grouping(devices@, r@),
{
    let ghost all = uids(devices@);
    let mut sections: Vec<DeviceSection> = Vec::new();
    let mut i: usize = 0;
    while i < devices.len()
        invariant
            i <= devices@.len(),
            all == uids(devices@),
            ({
                let order = first_occurrences(all.take(i as int));
                &&& sections@.len() == order.len()
                &&& forall|s: int| 0 <= s < sections@.len() ==> {
                    &&& (#[trigger] sections@[s]).uid@ == order[s]
                    &&& sections@[s].devices@ == positions_of(all.take(i as int), order[s])
                    &&& sections@[s].devices@.len() > 0
                    &&& sections@[s].label@ == label_of(devices@[sections@[s].devices@[0] as int])
                }
            }),
        decreases devices@.len() - i,
    {
        let d = &devices[i];
        let uid = uid_text(d);
        let ghost pre = all.take(i as int);
        let ghost post = all.take(i + 1);
        let ghost order = first_occurrences(pre);
        proof {
            assert(post.drop_last() == pre);
            assert(post.last() == all[i as int]);
            assert(all[i as int] == uid_of(devices@[i as int]));
        }
        let mut found: Option<usize> = None;
        let mut t: usize = 0;
        while t < sections.len()
            invariant
                t <= sections@.len(),
                sections@.len() == order.len(),
                forall|s: int| 0 <= s < sections@.len() ==> (#[trigger] sections@[s]).uid@ == order[s],
                found is None ==> forall|s: int| 0 <= s < t ==> order[s] != uid@,
                found matches Some(f) ==> f < sections@.len() && order[f as int] == uid@,
            decreases sections@.len() - t,
        {
            if found.is_none() && sections[t].uid == uid {
                found = Some(t);
            }
            t = t + 1;
        }
        match found {
            Some(f) => {
                let ghost before = sections@;
                let mut sec = sections.remove(f);
                sec.devices.push(i);
                sections.insert(f, sec);
                proof {
                    lemma_first_occ_contains(pre, uid@);
                    assert(order.contains(uid@)) by {
                        assert(order[f as int] == uid@);
                    }
                    assert(first_occurrences(post) == order);
                    assert forall|s: int| 0 <= s < sections@.len() implies {
                        &&& (#[trigger] sections@[s]).uid@ == order[s]
                        &&& sections@[s].devices@ == positions_of(post, order[s])
                        &&& sections@[s].devices@.len() > 0
                        &&& sections@[s].label@ == label_of(devices@[sections@[s].devices@[0] as int])
                    } by {
                        if s != f {
                            assert(sections@[s] == before[s]);
                            assert(order[s] != uid@) by {
                                if order[s] == uid@ {
                                    lemma_first_occ_distinct(pre, s, f as int);
                                }
                            }
                        } else {
                            assert(sections@[s].devices@ == before[s].devices@.push(i));
                            assert(sections@[s].devices@[0] == before[s].devices@[0]);
                        }
                    }
                }
            },
            None => {
                let label = label_text(d);
                let mut members: Vec<usize> = Vec::new();
                members.push(i);
                let ghost before = sections@;
                sections.push(DeviceSection { uid, label, devices: members });
                proof {
                    lemma_first_occ_contains(pre, uid_of(devices@[i as int]));
                    assert(!order.contains(uid_of(devices@[i as int]))) by {
                        if order.contains(uid_of(devices@[i as int])) {
                            let k = choose|k: int| 0 <= k < order.len() && order[k] == uid_of(devices@[i as int]);
                            assert(before[k].uid@ == order[k]);
                        }
                    }
                    assert(!pre.contains(uid_of(devices@[i as int])));
                    lemma_positions_absent(pre, uid_of(devices@[i as int]));
                    assert(first_occurrences(post) == order.push(uid_of(devices@[i as int])));
                    assert forall|s: int| 0 <= s < sections@.len() implies {
                        &&& (#[trigger] sections@[s]).uid@ == first_occurrences(post)[s]
                        &&& sections@[s].devices@ == positions_of(post, first_occurrences(post)[s])
                        &&& sections@[s].devices@.len() > 0
                        &&& sections@[s].label@ == label_of(devices@[sections@[s].devices@[0] as int])
                    } by {
                        if s < before.len() {
                            assert(sections@[s] == before[s]);
                            assert(order[s] != uid_of(devices@[i as int]));
                        } else {
                            assert(sections@[s].devices@ =~= seq![i]);
                        }
                    }
                }
            },
        }
        i = i + 1;
    }
    assert(all.take(i as int) == all);
    sections
}

proof fn lemma_first_occ_distinct(s: Seq<Seq<char>>, a: int, b: int)
    requires
        0 <= a < first_occurrences(s).len(),
        0 <= b < first_occurrences(s).len(),
        a != b,
    ensures
        first_occurrences(s)[a] != first_occurrences(s)[b],
    decreases s.len(),
{
    if s.len() > 0 {
        let prev = first_occurrences(s.drop_last());
        if prev.contains(s.last()) {
            lemma_first_occ_distinct(s.drop_last(), a, b);
        } else {
            if a < prev.len() && b < prev.len() {
                lemma_first_occ_distinct(s.drop_last(), a, b);
            } else if a == prev.len() {
                assert(first_occurrences(s)[a] == s.last());
                assert(first_occurrences(s)[b] == prev[b]);
            } else {
                assert(first_occurrences(s)[b] == s.last());
                assert(first_occurrences(s)[a] == prev[a]);
            }
        }
    }
}

/// The list the devices page shows: from `offset`, `page_size` rows at a
/// time, filtered by the typed user name.
pub struct DevicesView {
    pub offset: i64,
    pub page_size: i64,
    pub search: String,
}

/// What the user does to the devices list.
pub enum DevicesEvent {
    /// Types in the user-name filter.
    Search(String),
    /// Clears the filter.
    ClearSearch,
    /// Picks a page size, as the select's value text.
    PageSize(String),
    Prev,
    Next,
}

/// The list after an event, as (offset, page size, filter): a new or
/// cleared filter goes back to the first row; a page size that reads as an
/// integer is taken and goes back to the first row, another is ignored; the
/// previous page is one page back, not below the first row; the next page
/// one page on.
pub open spec fn devices_after_spec(offset: i64, page_size: i64, search: Seq<char>, e: DevicesEvent) -> (
    int,
    int,
    Seq<char>,
) {
    match e {
        DevicesEvent::Search(s) => (0, page_size as int, s@),
        DevicesEvent::ClearSearch => (0, page_size as int, Seq::empty()),
        DevicesEvent::PageSize(t) => match parse_i64_spec(t@) {
            Some(v) => (0, v as int, search),
            None => (offset as int, page_size as int, search),
        },
        DevicesEvent::Prev => (
            if offset - page_size > 0 {
                offset - page_size
            } else {
                0
            },
            page_size as int,
            search,
        ),
        DevicesEvent::Next => (offset + page_size, page_size as int, search),
    }
}

/// The list after an event. Paging keeps within the range of offsets.
pub fn devices_after(v: DevicesView, e: DevicesEvent) -> (r: DevicesView)
    requires
        e is Prev ==> i64::MIN <= v.offset - v.page_size <= i64::MAX,
        e is Next ==> i64::MIN <= v.offset + v.page_size <= i64::MAX,
    ensures
        (r.offset as int, r.page_size as int, r.search@) == devices_after_spec(
            v.offset,
            v.page_size,
            v.search@,
            e,
        ),        e is Prev ==> r.offset == vstd::math::max(v.offset - v.page_size, 0) && r.page_size
            == v.page_size && r.search@ == v.search@,
        e is Next ==> r.offset == v.offset + v.page_size && r.page_size == v.page_size
            && r.search@ == v.search@,
        (e is Search || e is ClearSearch) ==> r.offset == 0 && r.page_size == v.page_size,
        e is ClearSearch ==> r.search@.len() == 0,
{
    match e {
        DevicesEvent::Search(s) => DevicesView { offset: 0, page_size: v.page_size, search: s },
        DevicesEvent::ClearSearch => DevicesView {
            offset: 0,
            page_size: v.page_size,
            search: string_of(&Vec::new()),
        },
        DevicesEvent::PageSize(t) => match parse_i64(t.as_str()) {
            Some(n) => DevicesView { offset: 0, page_size: n, search: v.search },
            None => v,
        },
        DevicesEvent::Prev => {
            let back = v.offset - v.page_size;
            DevicesView {
                offset: if back > 0 {
                    back
                } else {
                    0
                },
                ..v
            }
        },
        DevicesEvent::Next => DevicesView { offset: v.offset + v.page_size, ..v },
    }
}

/// The device list request of a view.
pub struct DeviceQuery {
    pub start_index: i64,
    pub limit: i64,
    /// The user-name filter; none when nothing is typed.
    pub search_term: Option<String>,
}

/// The device list request of a view: from its offset, its page size rows,
/// with its filter when one is typed.
pub fn device_query(v: &DevicesView) -> (q: DeviceQuery)
    ensures
        q.start_index == v.offset,
        q.limit == v.page_size,
        match q.search_term {
            None => v.search@.len() == 0,
            Some(s) => v.search@.len() > 0 && s@ == v.search@,
        },
{
    DeviceQuery {
        start_index: v.offset,
        limit: v.page_size,
        search_term: if v.search.as_str().is_empty() {
            None
        } else {
            Some(string_of(&chars_of(v.search.as_str())))
        },
    }
}

/// The user whose sessions "revoke all" ends: the section's user id read as
/// a UUID (`str::parse::<Uuid>`); none, and nothing is sent, when it does
/// not read as one. A section id written from a UUID always reads back, and
/// the empty id of devices with no user gives none.
pub fn revoke_all_target(user_id: &str) -> (r: Option<u128>)
    ensures
        r == uuid_parse(user_id@),
        forall|u: u128| user_id@ == uuid_text_spec(u) ==> r == Some(u),
        crate::ids::uuid_length_refused(user_id@) ==> r is None,
{
    parse_uuid(user_id)
}

/// A request of the devices page that failed.
#[derive(Clone, Copy, PartialEq, Eq, Structural, Debug)]
pub enum DevicesFailure {
    Load,
    Revoke,
    RevokeAll,
}

/// The error text of a failed request, followed by the server's message.
pub open spec fn devices_failure_prefix(f: DevicesFailure) -> Seq<char> {
    match f {
        DevicesFailure::Load => "Failed to load devices: "@,
        DevicesFailure::Revoke => "Failed to revoke session: "@,
        DevicesFailure::RevokeAll => "Failed to revoke sessions: "@,
    }
}

/// The error shown when a request fails: what failed, then the message.
pub fn devices_failure_text(f: DevicesFailure, message: &str) -> (r: String)
    ensures
        r@ == devices_failure_prefix(f) + message@,
{
    let mut out: Vec<char> = Vec::new();
    match f {
        DevicesFailure::Load => push_str(&mut out, "Failed to load devices: "),
        DevicesFailure::Revoke => push_str(&mut out, "Failed to revoke session: "),
        DevicesFailure::RevokeAll => push_str(&mut out, "Failed to revoke sessions: "),
    }
    push_str(&mut out, message);
    string_of(&out)
}

} // verus!
