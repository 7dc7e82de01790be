//! Turning an addon's catalogs into library collections: which catalogs can
//! be picked, which are already imported, what the search shows, the
//! selection, and the collection type and provenance of what gets created.

use vstd::prelude::*;
use crate::collections::{MediaKind, collection_type_for, type_key_for_kind};
use crate::ids::{uuid_text, uuid_text_spec};
use crate::text::{chars_of, string_of, push_all, push_str, str_eq, trim, trim_str, views, join, join_strings, lowercase, to_lower};
use crate::chips::contains_str;
use crate::num::{dec, push_dec};
use crate::filters::{SetOp, copy_strings};

verus! {

/// What the page knows of one catalog of the addon.
pub struct CatalogEntry {
    /// The catalog id, `addon:{addon uuid}:{local id}`.
    pub catalog_id: String,
    pub name: String,
    /// The id of the catalog's collection filter, once the addon is indexed.
    pub collection_id: Option<u128>,
    pub media_kind: Option<MediaKind>,
    pub item_count: Option<u64>,
    pub enabled: bool,
}

/// `s` without the prefix `p` when it starts with it, else `s`.
pub open spec fn strip_prefix_spec(s: Seq<char>, p: Seq<char>) -> Seq<char> {
    if p.len() <= s.len() && s.take(p.len() as int) == p {
        s.skip(p.len() as int)
    } else {
        s
    }
}

/// `s` without the prefix `p` when it starts with it.
pub fn strip_prefix_chars(s: &Vec<char>, p: &Vec<char>) -> (r: Vec<char>)
    ensures
        r@ == strip_prefix_spec(s@, p@),
{
    if p.len() > s.len() {
        return s.clone();
    }
    let mut i: usize = 0;
    while i < p.len()
        invariant
            i <= p@.len() <= s@.len(),
            forall|k: int| 0 <= k < i ==> s@[k] == p@[k],
        decreases p@.len() - i,
    {
        if s[i] != p[i] {
            assert(s@.take(p@.len() as int)[i as int] != p@[i as int]);
            return s.clone();
        }
        i = i + 1;
    }
    assert(s@.take(p@.len() as int) =~= p@);
    let mut out: Vec<char> = Vec::new();
    let mut j: usize = p.len();
    while j < s.len()
        invariant
            p@.len() <= j <= s@.len(),
            out@ == s@.subrange(p@.len() as int, j as int),
        decreases s@.len() - j,
    {
        out.push(s[j]);
        j = j + 1;
        assert(out@ =~= s@.subrange(p@.len() as int, j as int));
    }
    assert(out@ =~= s@.skip(p@.len() as int));
    out
}

/// The prefix `addon:{uuid}:` that the catalog ids of an addon carry.
pub open spec fn catalog_prefix(addon_id: u128) -> Seq<char> {
    "addon:"@ + uuid_text_spec(addon_id) + ":"@
}

/// The provenance `{addon uuid}:{local catalog id}` stored on a collection
/// made from a catalog.
pub open spec fn collection_source_spec(addon_id: u128, catalog_id: Seq<char>) -> Seq<char> {
    uuid_text_spec(addon_id) + ":"@ + strip_prefix_spec(catalog_id, catalog_prefix(addon_id))
}

/// The provenance `{addon uuid}:{local catalog id}` of a catalog's
/// collection: the `addon:{uuid}:` prefix of the catalog id is dropped.
pub fn collection_source_for(addon_id: u128, catalog_id: &str) -> (r: String)
    ensures
        r@ == collection_source_spec(addon_id, catalog_id@),
{
    let id_text = uuid_text(addon_id);
    let mut prefix: Vec<char> = Vec::new();
    push_str(&mut prefix, "addon:");
    push_str(&mut prefix, id_text.as_str());
    push_str(&mut prefix, ":");
    let local = strip_prefix_chars(&chars_of(catalog_id), &prefix);
    let mut out: Vec<char> = Vec::new();
    push_str(&mut out, id_text.as_str());
    push_str(&mut out, ":");
    push_all(&mut out, &local);
    string_of(&out)
}

/// A catalog id made of the addon's prefix and a local id gives the
/// provenance `{addon uuid}:{local id}`, the same as the local id alone
/// (when it does not itself start with the prefix) and the same as the
/// catalog id without its `addon:` prefix (the value a collection rule
/// stores for the catalog). A catalog id with another addon's prefix keeps
/// that prefix.
pub proof fn law_collection_source_of_prefixed_id(addon_id: u128, other: u128, local: Seq<char>)
    ensures
        collection_source_spec(addon_id, catalog_prefix(addon_id) + local) == uuid_text_spec(
            addon_id,
        ) + ":"@ + local,
        strip_prefix_spec(catalog_prefix(addon_id) + local, "addon:"@) == uuid_text_spec(addon_id)
            + ":"@ + local,
        !(catalog_prefix(addon_id).len() <= local.len() && local.take(
            catalog_prefix(addon_id).len() as int,
        ) == catalog_prefix(addon_id)) ==> collection_source_spec(addon_id, local)
            == uuid_text_spec(addon_id) + ":"@ + local,
        other != addon_id ==> collection_source_spec(addon_id, catalog_prefix(other) + local)
            == uuid_text_spec(addon_id) + ":"@ + (catalog_prefix(other) + local),
{
    reveal_strlit("addon:");
    reveal_strlit(":");
    let p = catalog_prefix(addon_id);
    let s = p + local;
    assert(s.take(p.len() as int) =~= p);
    assert(s.skip(p.len() as int) =~= local);
    let a6 = "addon:"@;
    assert(s.take(a6.len() as int) =~= a6);
    assert(s.skip(a6.len() as int) =~= uuid_text_spec(addon_id) + ":"@ + local);
    if other != addon_id {
        let q = catalog_prefix(other);
        let t = q + local;
        assert(q.len() == p.len());
        assert(t.take(p.len() as int) =~= q);
        if q == p {
            assert(q.subrange(6, 42) =~= uuid_text_spec(other));
            assert(p.subrange(6, 42) =~= uuid_text_spec(addon_id));
            crate::ids::lemma_uuid_text_injective(addon_id, other);
        }
    }
}

/// The merged collection type depends only on which kinds occur: any
/// reordering (or repetition) of the catalogs gives the same type.
pub proof fn law_merged_type_order_free(a: Seq<Option<MediaKind>>, b: Seq<Option<MediaKind>>)
    requires
        forall|k: Option<MediaKind>| a.contains(k) <==> b.contains(k),
    ensures
        merged_type_spec(a) == merged_type_spec(b),
{
    if a.len() > 0 {
        assert(b.contains(a[0]));
    }
    if b.len() > 0 {
        assert(a.contains(b[0]));
    }
    if a.len() > 0 && b.len() > 0 {
        let all_a = forall|i: int| 1 <= i < a.len() ==> #[trigger] a[i] == a[0];
        let all_b = forall|i: int| 1 <= i < b.len() ==> #[trigger] b[i] == b[0];
        if all_a {
            assert forall|i: int| 0 <= i < a.len() implies #[trigger] a[i] == a[0] by {}
            let w = choose|w: int| 0 <= w < a.len() && a[w] == b[0];
            assert(b[0] == a[0]);
            assert forall|i: int| 1 <= i < b.len() implies #[trigger] b[i] == b[0] by {
                assert(a.contains(b[i]));
                let v = choose|v: int| 0 <= v < a.len() && a[v] == b[i];
            }
        } else {
            let i = choose|i: int| 1 <= i < a.len() && #[trigger] a[i] != a[0];
            assert(b.contains(a[i]));
            if all_b {
                let v = choose|v: int| 0 <= v < b.len() && b[v] == a[i];
                let w = choose|w: int| 0 <= w < b.len() && b[w] == a[0];
                assert(b[v] == b[0] || v == 0);
                assert(b[w] == b[0] || w == 0);
            }
        }
    }
}

/// The collection type of a collection merging catalogs of these kinds:
/// their common kind's type when all agree (`movies` for none), else `mixed`.
pub open spec fn merged_type_spec(kinds: Seq<Option<MediaKind>>) -> Seq<char> {
    if kinds.len() == 0 {
        type_key_for_kind(None)
    } else if forall|i: int| 1 <= i < kinds.len() ==> #[trigger] kinds[i] == kinds[0] {
        type_key_for_kind(kinds[0])
    } else {
        "mixed"@
    }
}

/// The collection type of a collection merging catalogs of these kinds.
pub fn merged_collection_type(kinds: &Vec<Option<MediaKind>>) -> (r: &'static str)
    ensures
        r@ == merged_type_spec(kinds@),
{
    if kinds.len() == 0 {
        return collection_type_for(None);
    }
    let first = kinds[0];
    let mut i: usize = 1;
    while i < kinds.len()
        invariant
            1 <= i <= kinds@.len(),
            first == kinds@[0],
            forall|k: int| 1 <= k < i ==> #[trigger] kinds@[k] == kinds@[0],
        decreases kinds@.len() - i,
    {
        if kinds[i] != first {
            return "mixed";
        }
        i = i + 1;
    }
    collection_type_for(first)
}

/// The media-kind badge of a catalog card.
pub open spec fn kind_badge_spec(kind: Option<MediaKind>) -> Seq<char> {
    match kind {
        Some(MediaKind::Series) => "Shows"@,
        Some(MediaKind::Mixed) => "Mixed"@,
        Some(MediaKind::Track) => "Music"@,
        Some(MediaKind::Collection) => "Collections"@,
        _ => "Movies"@,
    }
}

/// The media-kind badge of a catalog card.
pub fn kind_badge(kind: Option<MediaKind>) -> (r: &'static str)
    ensures
        r@ == kind_badge_spec(kind),
{
    match kind {
        Some(MediaKind::Series) => "Shows",
        Some(MediaKind::Mixed) => "Mixed",
        Some(MediaKind::Track) => "Music",
        Some(MediaKind::Collection) => "Collections",
        _ => "Movies",
    }
}

/// The item-count badge of a catalog card: `{n} items`, or
/// `not indexed yet` when the count is unknown.
pub fn item_count_badge(count: Option<u64>) -> (r: String)
    ensures
        r@ == match count {
            Some(n) => dec(n as nat) + " items"@,
            None => "not indexed yet"@,
        },
{
    let mut out: Vec<char> = Vec::new();
    match count {
        Some(n) => {
            push_dec(n, &mut out);
            push_str(&mut out, " items");
        },
        None => {
            push_str(&mut out, "not indexed yet");
        },
    }
    string_of(&out)
}

/// The label the confirmation shows for the media-kind choice.
pub open spec fn kind_choice_label_spec(choice: Seq<char>) -> Seq<char> {
    if choice == "movies"@ {
        "Movies"@
    } else if choice == "tvshows"@ {
        "TV Shows"@
    } else if choice == "mixed"@ {
        "Mixed (Movies & Shows)"@
    } else if choice == "music"@ {
        "Music"@
    } else if choice == "collections"@ {
        "Collections"@
    } else {
        "Auto-detect (per catalog)"@
    }
}

/// The label the confirmation shows for the media-kind choice.
pub fn kind_choice_label(choice: &str) -> (r: &'static str)
    ensures
        r@ == kind_choice_label_spec(choice@),
{
    if str_eq(choice, "movies") {
        "Movies"
    } else if str_eq(choice, "tvshows") {
        "TV Shows"
    } else if str_eq(choice, "mixed") {
        "Mixed (Movies & Shows)"
    } else if str_eq(choice, "music") {
        "Music"
    } else if str_eq(choice, "collections") {
        "Collections"
    } else {
        "Auto-detect (per catalog)"
    }
}

/// The collection type for one catalog: the user's choice, or the type of
/// the catalog's own kind when the choice is left on auto-detect (empty).
pub fn catalog_collection_type(choice: &str, kind: Option<MediaKind>) -> (r: String)
    ensures
        r@ == if choice@.len() == 0 {
            type_key_for_kind(kind)
        } else {
            choice@
        },
{
    if choice.is_empty() {
        string_of(&chars_of(collection_type_for(kind)))
    } else {
        string_of(&chars_of(choice))
    }
}

/// `needle` occurs in `hay` as a contiguous run.
pub open spec fn contains_sub(hay: Seq<char>, needle: Seq<char>) -> bool {
    exists|i: int| 0 <= i && i + needle.len() <= hay.len() && #[trigger] hay.subrange(i, i + needle.len()) == needle
}

/// Does a lower-cased name match a lower-cased query? An empty query matches
/// every name; otherwise the query must occur in the name.
pub fn name_matches(name_lower: &str, query_lower: &str) -> (b: bool)
    ensures
        b == (query_lower@.len() == 0 || contains_sub(name_lower@, query_lower@)),
{
    if query_lower.is_empty() {
        return true;
    }
    let h = chars_of(name_lower);
    let n = chars_of(query_lower);
    if n.len() > h.len() {
        proof {
            assert forall|i: int| 0 <= i && i + n@.len() <= h@.len() implies #[trigger] h@.subrange(i, i + n@.len()) != n@ by {}
        }
        return false;
    }
    let limit = h.len() - n.len();
    let mut i: usize = 0;
    while i <= limit
        invariant
            h@ == name_lower@,
            n@ == query_lower@,
            n@.len() <= h@.len() <= usize::MAX,
            n@.len() > 0,
            limit == h@.len() - n@.len(),
            i <= limit + 1,
            forall|k: int| 0 <= k < i ==> #[trigger] h@.subrange(k, k + n@.len()) != n@,
        decreases limit + 1 - i,
    {
        let mut j: usize = 0;
        let mut same = true;
        while j < n.len()
            invariant
                n@.len() <= h@.len() <= usize::MAX,
                i <= limit,
                limit == h@.len() - n@.len(),
                j <= n@.len(),
                same == (forall|k: int| 0 <= k < j ==> h@[i + k] == n@[k]),
            decreases n@.len() - j,
        {
            if h[i + j] != n[j] {
                same = false;
            }
            j = j + 1;
        }
        if same {
            assert(h@.subrange(i as int, i + n@.len()) =~= n@);
            assert(contains_sub(h@, n@));
            return true;
        }
        proof {
            let k = choose|k: int| 0 <= k < n@.len() && h@[i + k] != n@[k];
            assert(h@.subrange(i as int, i + n@.len())[k] != n@[k]);
        }
        i = i + 1;
    }
    false
}

/// Does a catalog named `name` match the search text? The search is trimmed
/// and both are lower-cased before comparing.
pub open spec fn search_matches_spec(name: Seq<char>, search: Seq<char>) -> bool {
    let q = lowercase(trim(search));
    q.len() == 0 || contains_sub(lowercase(name), q)
}

/// Does a catalog named `name` match the search text?
pub fn matches_search(name: &str, search: &str) -> (b: bool)
    ensures
        b == search_matches_spec(name@, search@),
{
    let q = to_lower(trim_str(search).as_str());
    let l = to_lower(name);
    name_matches(l.as_str(), q.as_str())
}

/// The positions `0..n`, in order, at which `p` holds.
pub open spec fn positions_where(n: int, p: spec_fn(int) -> bool) -> Seq<int>
    decreases n,
{
    if n <= 0 {
        Seq::<int>::empty()
    } else if p(n - 1) {
        positions_where(n - 1, p).push(n - 1)
    } else {
        positions_where(n - 1, p)
    }
}

/// The positions as integers.
pub open spec fn as_ints(v: Seq<usize>) -> Seq<int> {
    v.map_values(|i: usize| i as int)
}

/// The catalog can become a collection: its collection filter exists.
pub open spec fn is_eligible(c: CatalogEntry) -> bool {
    c.collection_id is Some
}

/// A collection made from the catalog already exists.
pub open spec fn is_imported(sources: Seq<Seq<char>>, addon_id: u128, c: CatalogEntry) -> bool {
    sources.contains(collection_source_spec(addon_id, c.catalog_id@))
}

/// The catalog may be selected: it is eligible and, unless catalogs are
/// being merged, not imported yet.
pub open spec fn is_selectable(
    sources: Seq<Seq<char>>,
    addon_id: u128,
    merge: bool,
    c: CatalogEntry,
) -> bool {
    is_eligible(c) && (merge || !is_imported(sources, addon_id, c))
}

/// What the catalog page shows for the current catalogs, imported
/// collections, mode, search and selection.
pub struct CatalogPageView {
    /// Positions of the catalogs that can become collections.
    pub eligible: Vec<usize>,
    /// How many catalogs cannot become collections yet.
    pub skipped_count: usize,
    /// How many eligible catalogs already have a collection.
    pub imported_count: usize,
    /// Positions of the eligible catalogs that match the search.
    pub displayed: Vec<usize>,
    /// Positions of the selectable catalogs that match the search.
    pub selectable_visible: Vec<usize>,
    /// Every visible selectable catalog is selected (and there is one).
    pub all_selected: bool,
}

fn imported_exec(sources: &Vec<String>, addon_id: u128, c: &CatalogEntry) -> (b: bool)
    ensures
        b == is_imported(views(sources@), addon_id, *c),
{
    let src = collection_source_for(addon_id, c.catalog_id.as_str());
    contains_str(sources, src.as_str())
}

/// Computes what the catalog page shows.
pub fn catalog_page_view(
    catalogs: &Vec<CatalogEntry>,
    addon_id: u128,
    sources: &Vec<String>,
    merge: bool,
    search: &str,
    selected: &Vec<String>,
) -> (r: CatalogPageView)
    ensures
        as_ints(r.eligible@) == positions_where(catalogs@.len() as int, |i: int| is_eligible(catalogs@[i])),
        r.skipped_count == catalogs@.len() - r.eligible@.len(),
        r.imported_count == positions_where(
            catalogs@.len() as int,
            |i: int| is_eligible(catalogs@[i]) && is_imported(views(sources@), addon_id, catalogs@[i]),
        ).len(),
        as_ints(r.displayed@) == positions_where(
            catalogs@.len() as int,
            |i: int| is_eligible(catalogs@[i]) && search_matches_spec(catalogs@[i].name@, search@),
        ),
        as_ints(r.selectable_visible@) == positions_where(
            catalogs@.len() as int,
            |i: int|
                is_selectable(views(sources@), addon_id, merge, catalogs@[i]) && search_matches_spec(
                    catalogs@[i].name@,
                    search@,
                ),
        ),
        r.all_selected == (r.selectable_visible@.len() > 0 && forall|k: int|
            0 <= k < r.selectable_visible@.len() ==> views(selected@).contains(
                #[trigger] catalogs@[r.selectable_visible@[k] as int].catalog_id@,
            )),
{
    let ghost n = catalogs@.len() as int;
    let ghost pe = |i: int| is_eligible(catalogs@[i]);
    let ghost pi = |i: int| is_eligible(catalogs@[i]) && is_imported(views(sources@), addon_id, catalogs@[i]);
    let ghost pd = |i: int| is_eligible(catalogs@[i]) && search_matches_spec(catalogs@[i].name@, search@);
    let ghost ps = |i: int|
        is_selectable(views(sources@), addon_id, merge, catalogs@[i]) && search_matches_spec(
            catalogs@[i].name@,
            search@,
        );
    let mut eligible: Vec<usize> = Vec::new();
    let mut displayed: Vec<usize> = Vec::new();
    let mut visible: Vec<usize> = Vec::new();
    let mut imported_count: usize = 0;
    let mut all_sel = true;
    let mut i: usize = 0;
    while i < catalogs.len()
        invariant
            i <= catalogs@.len(),
            n == catalogs@.len(),
            as_ints(eligible@) == positions_where(i as int, pe),
            as_ints(displayed@) == positions_where(i as int, pd),
            as_ints(visible@) == positions_where(i as int, ps),
            imported_count == positions_where(i as int, pi).len(),
            imported_count <= i,
            eligible@.len() <= i,
            forall|k: int| 0 <= k < visible@.len() ==> visible@[k] < i,
            all_sel == (forall|k: int|
                0 <= k < visible@.len() ==> views(selected@).contains(
                    #[trigger] catalogs@[visible@[k] as int].catalog_id@,
                )),
            pe == (|i: int| is_eligible(catalogs@[i])),
            pi == (|i: int| is_eligible(catalogs@[i]) && is_imported(views(sources@), addon_id, catalogs@[i])),
            pd == (|i: int| is_eligible(catalogs@[i]) && search_matches_spec(catalogs@[i].name@, search@)),
            ps == (|i: int|
                is_selectable(views(sources@), addon_id, merge, catalogs@[i]) && search_matches_spec(
                    catalogs@[i].name@,
                    search@,
                )),
        decreases catalogs@.len() - i,
    {
        let c = &catalogs[i];
        let elig = c.collection_id.is_some();
        let imported = imported_exec(sources, addon_id, c);
        let matches = matches_search(c.name.as_str(), search);
        let ghost before_v = visible@;
        if elig {
            eligible.push(i);
            if imported {
                imported_count = imported_count + 1;
            }
            if matches {
                displayed.push(i);
            }
            if (merge || !imported) && matches {
                visible.push(i);
                let sel = contains_str(selected, c.catalog_id.as_str());
                all_sel = all_sel && sel;
                proof {
                    if !all_sel {
                        if !sel {
                            assert(!views(selected@).contains(catalogs@[visible@[visible@.len() - 1] as int].catalog_id@));
                        } else {
                            let k = choose|k: int|
                                0 <= k < before_v.len() && !views(selected@).contains(
                                    #[trigger] catalogs@[before_v[k] as int].catalog_id@,
                                );
                            assert(visible@[k] == before_v[k]);
                        }
                    } else {
                        assert forall|k: int| 0 <= k < visible@.len() implies views(selected@).contains(
                            #[trigger] catalogs@[visible@[k] as int].catalog_id@,
                        ) by {
                            if k < before_v.len() {
                                assert(visible@[k] == before_v[k]);
                            }
                        }
                    }
                }
            }
        }
        proof {
            assert(as_ints(eligible@) =~= positions_where(i + 1, pe));
            assert(as_ints(displayed@) =~= positions_where(i + 1, pd));
            assert(as_ints(visible@) =~= positions_where(i + 1, ps));
            assert(positions_where(i + 1, pi).len() == imported_count);
        }
        i = i + 1;
    }
    let all_selected = visible.len() > 0 && all_sel;
    let skipped_count = catalogs.len() - eligible.len();
    CatalogPageView {
        eligible,
        skipped_count,
        imported_count,
        displayed,
        selectable_visible: visible,
        all_selected,
    }
}

/// `s` without any entry equal to `x`.
pub open spec fn without_entry(s: Seq<Seq<char>>, x: Seq<char>) -> Seq<Seq<char>> {
    s.filter(|y: Seq<char>| y != x)
}

proof fn lemma_push_contains(s: Seq<Seq<char>>, x: Seq<char>, y: Seq<char>)
    ensures
        s.push(x).contains(y) <==> (s.contains(y) || y == x),
{
    if s.push(x).contains(y) && y != x {
        let w = choose|w: int| 0 <= w < s.push(x).len() && s.push(x)[w] == y;
        assert(s[w] == y);
    }
    if s.contains(y) {
        let w = choose|w: int| 0 <= w < s.len() && s[w] == y;
        assert(s.push(x)[w] == y);
    }
    if y == x {
        assert(s.push(x)[s.len() as int] == y);
    }
}

proof fn lemma_without_entry_contains(s: Seq<Seq<char>>, x: Seq<char>, y: Seq<char>)
    ensures
        without_entry(s, x).contains(y) <==> (s.contains(y) && y != x),
    decreases s.len(),
{
    reveal(Seq::filter);
    if s.len() > 0 {
        lemma_without_entry_contains(s.drop_last(), x, y);
        let rest = without_entry(s.drop_last(), x);
        assert(s =~= s.drop_last().push(s.last()));
        if s.last() != x {
            assert(without_entry(s, x) == rest.push(s.last()));
            if rest.push(s.last()).contains(y) && y != s.last() {
                let w = choose|w: int| 0 <= w < rest.push(s.last()).len() && rest.push(s.last())[w] == y;
                assert(rest[w] == y);
            }
            if rest.contains(y) {
                let w = choose|w: int| 0 <= w < rest.len() && rest[w] == y;
                assert(rest.push(s.last())[w] == y);
            }
            if y == s.last() {
                assert(rest.push(s.last())[rest.len() as int] == y);
            }
        } else {
            assert(without_entry(s, x) == rest);
        }
        if s.contains(y) && y != s.last() {
            let w = choose|w: int| 0 <= w < s.len() && s[w] == y;
            assert(s.drop_last()[w] == y);
        }
        if s.drop_last().contains(y) {
            let w = choose|w: int| 0 <= w < s.drop_last().len() && s.drop_last()[w] == y;
            assert(s[w] == y);
        }
        if y == s.last() {
            assert(s[s.len() - 1] == y);
        }
    }
}

/// Removes every entry equal to `x`.
pub fn remove_entry(values: &mut Vec<String>, x: &str)
    ensures
        views(final(values)@) == without_entry(views(old(values)@), x@),
{
    let ghost start = views(values@);
    let mut kept: Vec<String> = Vec::new();
    let mut i: usize = 0;
    while i < values.len()
        invariant
            i <= values@.len(),
            start == views(values@),
            start == views(old(values)@),
            views(kept@) == without_entry(start.take(i as int), x@),
        decreases values@.len() - i,
    {
        proof {
            assert(start.take(i + 1).drop_last() == start.take(i as int));
            assert(start.take(i + 1).last() == start[i as int]);
            reveal(Seq::filter);
        }
        if !str_eq(values[i].as_str(), x) {
            let e = values[i].clone();
            kept.push(e);
            assert(views(kept@) =~= views(kept@).drop_last().push(start[i as int]));
        }
        i = i + 1;
        proof {
            if i > 0 {
                assert(views(kept@) =~= without_entry(start.take(i as int), x@));
            }
        }
    }
    assert(start.take(i as int) == start);
    *values = kept;
}

/// The entries after a checkbox for `v` is set to `checked`: checking adds
/// `v` when it is absent; unchecking removes it.
pub open spec fn checked_entries(values: Seq<Seq<char>>, v: Seq<char>, checked: bool) -> Seq<Seq<char>> {
    if checked {
        if values.contains(v) {
            values
        } else {
            values.push(v)
        }
    } else {
        without_entry(values, v)
    }
}

/// Applies a checkbox change for the entry `v` (an addon's resources and
/// content types in its edit form).
pub fn set_entry_checked(values: &mut Vec<String>, v: &str, checked: bool)
    ensures
        views(final(values)@) == checked_entries(views(old(values)@), v@, checked),
{
    if checked {
        if !contains_str(values, v) {
            values.push(string_of(&chars_of(v)));
            assert(views(values@) =~= views(old(values)@).push(v@));
        }
    } else {
        remove_entry(values, v);
    }
}

/// The selection after clicking a catalog card: a blocked card changes
/// nothing; otherwise the catalog leaves the selection if it was in it and
/// joins it if not.
pub open spec fn toggled_spec(selected: Seq<Seq<char>>, id: Seq<char>, blocked: bool) -> Seq<Seq<char>> {
    if blocked {
        selected
    } else if selected.contains(id) {
        without_entry(selected, id)
    } else {
        selected.push(id)
    }
}

/// Clicking a card twice leaves the same catalogs selected.
pub proof fn law_toggle_twice(selected: Seq<Seq<char>>, id: Seq<char>, blocked: bool)
    ensures
        forall|y: Seq<char>|
            #[trigger] toggled_spec(toggled_spec(selected, id, blocked), id, blocked).contains(y)
                <==> selected.contains(y),
{
    assert forall|y: Seq<char>|
        #[trigger] toggled_spec(toggled_spec(selected, id, blocked), id, blocked).contains(y)
            <==> selected.contains(y) by {
        if !blocked {
            if selected.contains(id) {
                let once = without_entry(selected, id);
                lemma_without_entry_contains(selected, id, y);
                lemma_without_entry_contains(selected, id, id);
                lemma_push_contains(once, id, y);
            } else {
                let once = selected.push(id);
                lemma_push_contains(selected, id, y);
                lemma_push_contains(selected, id, id);
                lemma_without_entry_contains(once, id, y);
            }
        }
    }
}

/// Applies a click on the card of catalog `id`.
pub fn toggle_selected(selected: &mut Vec<String>, id: &str, blocked: bool)
    ensures
        views(final(selected)@) == toggled_spec(views(old(selected)@), id@, blocked),
{
    if blocked {
        return;
    }
    if contains_str(selected, id) {
        remove_entry(selected, id);
    } else {
        selected.push(string_of(&chars_of(id)));
        assert(views(selected@) =~= views(old(selected)@).push(id@));
    }
}

/// Applies the "Select All" / "Select None" button: when all visible
/// catalogs are selected they all leave the selection, otherwise the ones
/// missing join it.
pub fn select_all_toggle(selected: &mut Vec<String>, visible_ids: &Vec<String>, all_selected: bool)
    ensures
        forall|y: Seq<char>|
            #![trigger views(final(selected)@).contains(y)]
            views(final(selected)@).contains(y) <==> if all_selected {
                views(old(selected)@).contains(y) && !views(visible_ids@).contains(y)
            } else {
                views(old(selected)@).contains(y) || views(visible_ids@).contains(y)
            },
{
    let mut k: usize = 0;
    while k < visible_ids.len()
        invariant
            k <= visible_ids@.len(),
            forall|y: Seq<char>|
                #![trigger views(selected@).contains(y)]
                views(selected@).contains(y) <==> if all_selected {
                    views(old(selected)@).contains(y) && !views(visible_ids@).take(k as int).contains(y)
                } else {
                    views(old(selected)@).contains(y) || views(visible_ids@).take(k as int).contains(y)
                },
        decreases visible_ids@.len() - k,
    {
        let ghost before = views(selected@);
        let ghost id = visible_ids@[k as int]@;
        proof {
            assert(views(visible_ids@).take(k + 1) =~= views(visible_ids@).take(k as int).push(id));
        }
        if all_selected {
            remove_entry(selected, visible_ids[k].as_str());
            proof {
                assert forall|y: Seq<char>| #![trigger views(selected@).contains(y)]
                    views(selected@).contains(y) <==> (views(old(selected)@).contains(y) && !views(visible_ids@).take(k + 1).contains(y)) by {
                    lemma_without_entry_contains(before, id, y);
                    lemma_push_contains(views(visible_ids@).take(k as int), id, y);
                    assert(before.contains(y) == (views(old(selected)@).contains(y) && !views(visible_ids@).take(k as int).contains(y)));
                }
            }
        } else {
            if !contains_str(selected, visible_ids[k].as_str()) {
                let e = visible_ids[k].clone();
                selected.push(e);
                proof {
                    assert(views(selected@) =~= before.push(id));
                }
            }
            proof {
                assert forall|y: Seq<char>| #![trigger views(selected@).contains(y)]
                    views(selected@).contains(y) <==> (views(old(selected)@).contains(y) || views(visible_ids@).take(k + 1).contains(y)) by {
                    lemma_push_contains(before, id, y);
                    lemma_push_contains(views(visible_ids@).take(k as int), id, y);
                    assert(before.contains(y) == (views(old(selected)@).contains(y) || views(visible_ids@).take(k as int).contains(y)));
                }
            }
        }
        k = k + 1;
    }
    assert(views(visible_ids@).take(k as int) =~= views(visible_ids@));
}

/// Positions, in catalog order, of the selected catalogs.
pub fn selected_positions(catalogs: &Vec<CatalogEntry>, selected: &Vec<String>) -> (r: Vec<usize>)
    ensures
        as_ints(r@) == positions_where(
            catalogs@.len() as int,
            |i: int| views(selected@).contains(catalogs@[i].catalog_id@),
        ),
        forall|j: int| 0 <= j < r@.len() ==> (#[trigger] r@[j]) < catalogs@.len(),
{
    let ghost p = |i: int| views(selected@).contains(catalogs@[i].catalog_id@);
    let mut out: Vec<usize> = Vec::new();
    let mut i: usize = 0;
    while i < catalogs.len()
        invariant
            i <= catalogs@.len(),
            as_ints(out@) == positions_where(i as int, p),
            forall|j: int| 0 <= j < out@.len() ==> (#[trigger] out@[j]) < i,
            p == (|i: int| views(selected@).contains(catalogs@[i].catalog_id@)),
        decreases catalogs@.len() - i,
    {
        if contains_str(selected, catalogs[i].catalog_id.as_str()) {
            out.push(i);
        }
        assert(as_ints(out@) =~= positions_where(i + 1, p));
        i = i + 1;
    }
    out
}

/// The outcome of asking to merge the selected catalogs.
pub enum MergePlan {
    /// The collection name is blank.
    NeedsName,
    /// No catalog is selected.
    NothingSelected,
    /// Create a smart collection with this name and type over these
    /// collection filters.
    Create { name: String, collection_type: String, collection_ids: Vec<u128> },
}

/// The collection filters of the catalogs at `positions` that have one.
pub open spec fn filter_ids(catalogs: Seq<CatalogEntry>, positions: Seq<int>) -> Seq<u128>
    decreases positions.len(),
{
    if positions.len() == 0 {
        Seq::<u128>::empty()
    } else {
        let rest = filter_ids(catalogs, positions.drop_last());
        match catalogs[positions.last()].collection_id {
            Some(id) => rest.push(id),
            None => rest,
        }
    }
}

/// The kinds of the catalogs at `positions`.
pub open spec fn kinds_at(catalogs: Seq<CatalogEntry>, positions: Seq<int>) -> Seq<Option<MediaKind>> {
    positions.map_values(|i: int| catalogs[i].media_kind)
}

/// Plans the merged collection: the trimmed name must not be blank and some
/// catalog must be selected; the type is the user's choice or, on
/// auto-detect, the merged type of the selected catalogs' kinds.
pub fn plan_merge(
    name: &str,
    choice: &str,
    catalogs: &Vec<CatalogEntry>,
    selected: &Vec<String>,
) -> (r: MergePlan)
    ensures
        ({
            let picked = positions_where(
                catalogs@.len() as int,
                |i: int| views(selected@).contains(catalogs@[i].catalog_id@),
            );
            match r {
                MergePlan::NeedsName => trim(name@).len() == 0,
                MergePlan::NothingSelected => trim(name@).len() > 0 && picked.len() == 0,
                MergePlan::Create { name: n, collection_type, collection_ids } => {
                    &&& trim(name@).len() > 0
                    &&& picked.len() > 0
                    &&& n@ == trim(name@)
                    &&& collection_type@ == if choice@.len() == 0 {
                        merged_type_spec(kinds_at(catalogs@, picked))
                    } else {
                        choice@
                    }
                    &&& collection_ids@ == filter_ids(catalogs@, picked)
                },
            }
        }),
{
    let n = trim_str(name);
    if n.as_str().is_empty() {
        return MergePlan::NeedsName;
    }
    let picked = selected_positions(catalogs, selected);
    if picked.len() == 0 {
        return MergePlan::NothingSelected;
    }
    let ghost pk = as_ints(picked@);
    let mut kinds: Vec<Option<MediaKind>> = Vec::new();
    let mut ids: Vec<u128> = Vec::new();
    let mut k: usize = 0;
    while k < picked.len()
        invariant
            k <= picked@.len(),
            pk == as_ints(picked@),
            forall|j: int| 0 <= j < picked@.len() ==> (#[trigger] picked@[j]) < catalogs@.len(),
            kinds@ == kinds_at(catalogs@, pk.take(k as int)),
            ids@ == filter_ids(catalogs@, pk.take(k as int)),
        decreases picked@.len() - k,
    {
        let c = &catalogs[picked[k]];
        kinds.push(c.media_kind);
        proof {
            assert(pk.take(k + 1).drop_last() =~= pk.take(k as int));
            assert(pk.take(k + 1).last() == picked@[k as int] as int);
        }
        match c.collection_id {
            Some(id) => ids.push(id),
            None => {},
        }
        k = k + 1;
        assert(kinds@ =~= kinds_at(catalogs@, pk.take(k as int)));
    }
    assert(pk.take(k as int) == pk);
    let ct = if choice.is_empty() {
        string_of(&chars_of(merged_collection_type(&kinds)))
    } else {
        string_of(&chars_of(choice))
    };
    MergePlan::Create { name: n, collection_type: ct, collection_ids: ids }
}

/// The error shown after creating collections one by one when some failed:
/// `{failed} of {total} failed: {messages joined with "; "}`.
pub fn failure_summary(failures: &Vec<String>, total: usize) -> (r: Option<String>)
    ensures
        match r {
            None => failures@.len() == 0,
            Some(s) => failures@.len() > 0 && s@ == dec(failures@.len() as nat) + " of "@ + dec(
                total as nat,
            ) + " failed: "@ + join(views(failures@), "; "@),
        },
{
    if failures.len() == 0 {
        return None;
    }
    let mut out: Vec<char> = Vec::new();
    push_dec(failures.len() as u64, &mut out);
    push_str(&mut out, " of ");
    push_dec(total as u64, &mut out);
    push_str(&mut out, " failed: ");
    let joined = join_strings(failures, "; ");
    push_str(&mut out, joined.as_str());
    Some(string_of(&out))
}

/// The kind of collection a creation request asks the server for.
#[derive(Clone, Copy, PartialEq, Eq, Structural, Debug)]
pub enum CollectionKind {
    /// Follows one catalog of an addon.
    Catalog,
    /// Gathers what its smart filter matches.
    Smart,
}

/// The key the server takes for a collection kind.
pub open spec fn collection_kind_key_spec(kind: CollectionKind) -> Seq<char> {
    match kind {
        CollectionKind::Catalog => "catalog"@,
        CollectionKind::Smart => "smart"@,
    }
}

/// The key the server takes for a collection kind.
pub fn collection_kind_key(kind: CollectionKind) -> (r: &'static str)
    ensures
        r@ == collection_kind_key_spec(kind),
{
    match kind {
        CollectionKind::Catalog => "catalog",
        CollectionKind::Smart => "smart",
    }
}

/// What the page sends to create one collection: the folder (name, type,
/// kind, not promoted), then the patch that gives it a filter of one group
/// matching all rules, holding one catalog rule, with its provenance and
/// tags.
pub struct CollectionRequest {
    pub name: String,
    pub collection_type: String,
    pub collection_kind: CollectionKind,
    pub promoted: bool,
    /// The operator of the catalog rule.
    pub catalog_op: SetOp,
    /// The collection filters the catalog rule names.
    pub catalog_ids: Vec<u128>,
    /// The provenance recorded on the new collection, if any.
    pub collection_source: Option<String>,
    /// The tags set on the new collection; none when no tag was typed.
    pub tags: Option<Vec<String>>,
}

/// The tags a request carries: none for an empty list, else the list.
pub open spec fn tags_field_ok(field: Option<Vec<String>>, tags: Seq<String>) -> bool {
    match field {
        None => tags.len() == 0,
        Some(t) => tags.len() > 0 && views(t@) == views(tags),
    }
}

fn tags_field(tags: &Vec<String>) -> (r: Option<Vec<String>>)
    ensures
        tags_field_ok(r, tags@),
{
    if tags.len() == 0 {
        None
    } else {
        Some(copy_strings(tags))
    }
}

/// The request that creates the collection of one catalog when the
/// selection is imported one by one: none for a catalog whose addon is not
/// indexed yet (no collection filter); else a catalog collection named
/// after it, of the chosen type (the catalog's own on auto-detect), not
/// promoted, whose rule is `Is` its collection filter, with its provenance
/// and the typed tags.
pub fn separate_request(
    c: &CatalogEntry,
    addon_id: u128,
    choice: &str,
    tags: &Vec<String>,
) -> (r: Option<CollectionRequest>)
    ensures
        match r {
            None => c.collection_id is None,
            Some(q) => {
                &&& c.collection_id is Some
                &&& q.name@ == c.name@
                &&& q.collection_type@ == if choice@.len() == 0 {
                    type_key_for_kind(c.media_kind)
                } else {
                    choice@
                }
                &&& q.collection_kind == CollectionKind::Catalog
                &&& !q.promoted
                &&& q.catalog_op == SetOp::Is
                &&& q.catalog_ids@ == seq![c.collection_id.unwrap()]
                &&& q.collection_source matches Some(src) && src@ == collection_source_spec(
                    addon_id,
                    c.catalog_id@,
                )
                &&& tags_field_ok(q.tags, tags@)
            },
        },
{
    let id = match c.collection_id {
        Some(id) => id,
        None => return None,
    };
    let mut ids: Vec<u128> = Vec::new();
    ids.push(id);
    assert(ids@ =~= seq![id]);
    Some(CollectionRequest {
        name: string_of(&chars_of(c.name.as_str())),
        collection_type: catalog_collection_type(choice, c.media_kind),
        collection_kind: CollectionKind::Catalog,
        promoted: false,
        catalog_op: SetOp::Is,
        catalog_ids: ids,
        collection_source: Some(collection_source_for(addon_id, c.catalog_id.as_str())),
        tags: tags_field(tags),
    })
}

/// The request that creates the merged collection of a planned merge: none
/// unless the plan creates one; else a smart collection with the plan's
/// name and type, not promoted, whose rule is `In` the plan's collection
/// filters, with no provenance and the typed tags.
pub fn merged_request(plan: MergePlan, tags: &Vec<String>) -> (r: Option<CollectionRequest>)
    ensures
        match plan {
            MergePlan::Create { name, collection_type, collection_ids } => r matches Some(q) && {
                &&& q.name@ == name@
                &&& q.collection_type@ == collection_type@
                &&& q.collection_kind == CollectionKind::Smart
                &&& !q.promoted
                &&& q.catalog_op == SetOp::In
                &&& q.catalog_ids@ == collection_ids@
                &&& q.collection_source is None
                &&& tags_field_ok(q.tags, tags@)
            },
            _ => r is None,
        },
{
    match plan {
        MergePlan::Create { name, collection_type, collection_ids } => Some(
            CollectionRequest {
                name,
                collection_type,
                collection_kind: CollectionKind::Smart,
                promoted: false,
                catalog_op: SetOp::In,
                catalog_ids: collection_ids,
                collection_source: None,
                tags: tags_field(tags),
            },
        ),
        _ => None,
    }
}

/// The error a planned merge shows before anything is sent: a request to
/// name the collection when the name is blank; nothing when no catalog is
/// selected (the page then does nothing) or when the merge goes ahead.
pub fn merge_refusal_text(plan: &MergePlan) -> (r: Option<&'static str>)
    ensures
        match plan {
            MergePlan::NeedsName => r matches Some(t) && t@ == "Give the merged collection a name first."@,
            _ => r is None,
        },
{
    match plan {
        MergePlan::NeedsName => Some("Give the merged collection a name first."),
        _ => None,
    }
}

/// How a failed creation is reported: `{collection name}: {message}`.
pub fn creation_failure(name: &str, message: &str) -> (r: String)
    ensures
        r@ == name@ + ": "@ + message@,
{
    let mut out: Vec<char> = Vec::new();
    push_str(&mut out, name);
    push_str(&mut out, ": ");
    push_str(&mut out, message);
    string_of(&out)
}

} // verus!
