//! The dashboard's pages: their paths, titles and sidebar groups.

use vstd::prelude::*;
use crate::text::str_eq;

verus! {

/// A page of the dashboard.
#[derive(Clone, Copy, PartialEq, Eq, Structural, Debug)]
pub enum Route {
    Dashboard,
    Addons,
    Library,
    Iptv,
    StreamingGroups,
    StreamingProbing,
    StreamingP2p,
    SettingsGeneral,
    SettingsPlayback,
    SettingsSearch,
    SettingsJellyfinSync,
    SettingsBranding,
    AccessUsers,
    AccessApiKeys,
    Tasks,
    Activity,
    NotFound,
}

/// The path of a page (the not-found page has none of its own).
pub open spec fn route_path_spec(r: Route) -> Seq<char> {
    match r {
        Route::Dashboard => "/"@,
        Route::Addons => "/addons"@,
        Route::Library => "/content/library"@,
        Route::Iptv => "/content/iptv"@,
        Route::StreamingGroups => "/streaming/groups"@,
        Route::StreamingProbing => "/streaming/probing"@,
        Route::StreamingP2p => "/streaming/p2p"@,
        Route::SettingsGeneral => "/settings/general"@,
        Route::SettingsPlayback => "/settings/playback"@,
        Route::SettingsSearch => "/settings/search"@,
        Route::SettingsJellyfinSync => "/settings/jellyfin-sync"@,
        Route::SettingsBranding => "/settings/branding"@,
        Route::AccessUsers => "/access/users"@,
        Route::AccessApiKeys => "/access/apikeys"@,
        Route::Tasks => "/tasks"@,
        Route::Activity => "/activity"@,
        Route::NotFound => ""@,
    }
}

/// The page a path leads to; any other path leads to the not-found page.
pub open spec fn route_of(path: Seq<char>) -> Route {
    if path == "/"@ {
        Route::Dashboard
    } else if path == "/addons"@ {
        Route::Addons
    } else if path == "/content/library"@ {
        Route::Library
    } else if path == "/content/iptv"@ {
        Route::Iptv
    } else if path == "/streaming/groups"@ {
        Route::StreamingGroups
    } else if path == "/streaming/probing"@ {
        Route::StreamingProbing
    } else if path == "/streaming/p2p"@ {
        Route::StreamingP2p
    } else if path == "/settings/general"@ {
        Route::SettingsGeneral
    } else if path == "/settings/playback"@ {
        Route::SettingsPlayback
    } else if path == "/settings/search"@ {
        Route::SettingsSearch
    } else if path == "/settings/jellyfin-sync"@ {
        Route::SettingsJellyfinSync
    } else if path == "/settings/branding"@ {
        Route::SettingsBranding
    } else if path == "/access/users"@ {
        Route::AccessUsers
    } else if path == "/access/apikeys"@ {
        Route::AccessApiKeys
    } else if path == "/tasks"@ {
        Route::Tasks
    } else if path == "/activity"@ {
        Route::Activity
    } else {
        Route::NotFound
    }
}

/// The path of a page.
pub fn route_path(r: Route) -> (p: &'static str)
    ensures
        p@ == route_path_spec(r),
{
    match r {
        Route::Dashboard => "/",
        Route::Addons => "/addons",
        Route::Library => "/content/library",
        Route::Iptv => "/content/iptv",
        Route::StreamingGroups => "/streaming/groups",
        Route::StreamingProbing => "/streaming/probing",
        Route::StreamingP2p => "/streaming/p2p",
        Route::SettingsGeneral => "/settings/general",
        Route::SettingsPlayback => "/settings/playback",
        Route::SettingsSearch => "/settings/search",
        Route::SettingsJellyfinSync => "/settings/jellyfin-sync",
        Route::SettingsBranding => "/settings/branding",
        Route::AccessUsers => "/access/users",
        Route::AccessApiKeys => "/access/apikeys",
        Route::Tasks => "/tasks",
        Route::Activity => "/activity",
        Route::NotFound => "",
    }
}

/// The page a path leads to.
pub fn parse_route(path: &str) -> (r: Route)
    ensures
        r == route_of(path@),
{
    if str_eq(path, "/") {
        Route::Dashboard
    } else if str_eq(path, "/addons") {
        Route::Addons
    } else if str_eq(path, "/content/library") {
        Route::Library
    } else if str_eq(path, "/content/iptv") {
        Route::Iptv
    } else if str_eq(path, "/streaming/groups") {
        Route::StreamingGroups
    } else if str_eq(path, "/streaming/probing") {
        Route::StreamingProbing
    } else if str_eq(path, "/streaming/p2p") {
        Route::StreamingP2p
    } else if str_eq(path, "/settings/general") {
        Route::SettingsGeneral
    } else if str_eq(path, "/settings/playback") {
        Route::SettingsPlayback
    } else if str_eq(path, "/settings/search") {
        Route::SettingsSearch
    } else if str_eq(path, "/settings/jellyfin-sync") {
        Route::SettingsJellyfinSync
    } else if str_eq(path, "/settings/branding") {
        Route::SettingsBranding
    } else if str_eq(path, "/access/users") {
        Route::AccessUsers
    } else if str_eq(path, "/access/apikeys") {
        Route::AccessApiKeys
    } else if str_eq(path, "/tasks") {
        Route::Tasks
    } else if str_eq(path, "/activity") {
        Route::Activity
    } else {
        Route::NotFound
    }
}

/// The title the header shows for a page.
pub open spec fn route_title_spec(r: Route) -> Seq<char> {
    match r {
        Route::Dashboard => "Remux"@,
        Route::Addons => "Addons"@,
        Route::Library => "Library"@,
        Route::Iptv => "IPTV"@,
        Route::StreamingGroups => "Stream Groups"@,
        Route::StreamingProbing => "Probing"@,
        Route::StreamingP2p => "P2P"@,
        Route::SettingsGeneral => "General"@,
        Route::SettingsPlayback => "Playback"@,
        Route::SettingsSearch => "Search"@,
        Route::SettingsJellyfinSync => "Jellyfin Sync"@,
        Route::SettingsBranding => "Branding"@,
        Route::AccessUsers => "Users"@,
        Route::AccessApiKeys => "API Keys"@,
        Route::Tasks => "Tasks"@,
        Route::Activity => "Activity"@,
        Route::NotFound => ""@,
    }
}

/// The title the header shows for a page.
pub fn route_title(r: Route) -> (t: &'static str)
    ensures
        t@ == route_title_spec(r),
{
    match r {
        Route::Dashboard => "Remux",
        Route::Addons => "Addons",
        Route::Library => "Library",
        Route::Iptv => "IPTV",
        Route::StreamingGroups => "Stream Groups",
        Route::StreamingProbing => "Probing",
        Route::StreamingP2p => "P2P",
        Route::SettingsGeneral => "General",
        Route::SettingsPlayback => "Playback",
        Route::SettingsSearch => "Search",
        Route::SettingsJellyfinSync => "Jellyfin Sync",
        Route::SettingsBranding => "Branding",
        Route::AccessUsers => "Users",
        Route::AccessApiKeys => "API Keys",
        Route::Tasks => "Tasks",
        Route::Activity => "Activity",
        Route::NotFound => "",
    }
}

/// A collapsible group of the sidebar.
#[derive(Clone, Copy, PartialEq, Eq, Structural, Debug)]
pub enum NavGroup {
    Content,
    Streaming,
    Settings,
    Access,
}

/// The sidebar group a page belongs to, if any.
pub open spec fn route_group_spec(r: Route) -> Option<NavGroup> {
    match r {
        Route::Library | Route::Iptv => Some(NavGroup::Content),
        Route::StreamingGroups | Route::StreamingProbing | Route::StreamingP2p => Some(
            NavGroup::Streaming,
        ),
        Route::SettingsGeneral | Route::SettingsPlayback | Route::SettingsSearch
        | Route::SettingsJellyfinSync | Route::SettingsBranding => Some(NavGroup::Settings),
        Route::AccessUsers | Route::AccessApiKeys => Some(NavGroup::Access),
        _ => None,
    }
}

/// The sidebar group a page belongs to, if any.
pub fn route_group(r: Route) -> (g: Option<NavGroup>)
    ensures
        g == route_group_spec(r),
{
    match r {
        Route::Library | Route::Iptv => Some(NavGroup::Content),
        Route::StreamingGroups | Route::StreamingProbing | Route::StreamingP2p => Some(
            NavGroup::Streaming,
        ),
        Route::SettingsGeneral | Route::SettingsPlayback | Route::SettingsSearch
        | Route::SettingsJellyfinSync | Route::SettingsBranding => Some(NavGroup::Settings),
        Route::AccessUsers | Route::AccessApiKeys => Some(NavGroup::Access),
        _ => None,
    }
}

/// Is a sidebar group expanded? When the user left it open, or when the
/// current page is in it.
pub fn group_expanded(group: NavGroup, left_open: bool, current: Route) -> (b: bool)
    ensures
        b == (left_open || route_group_spec(current) == Some(group)),
{
    left_open || route_group(current) == Some(group)
}

/// The key under which a sidebar group's open state is stored,
/// `sidebar_group_{label}`.
pub open spec fn group_label_spec(g: NavGroup) -> Seq<char> {
    match g {
        NavGroup::Content => "Content"@,
        NavGroup::Streaming => "Streaming"@,
        NavGroup::Settings => "Settings"@,
        NavGroup::Access => "Access"@,
    }
}

/// The storage key of a sidebar group's open state.
pub fn group_storage_key(g: NavGroup) -> (k: &'static str)
    ensures
        k@ == "sidebar_group_"@ + group_label_spec(g),
{
    let k = match g {
        NavGroup::Content => "sidebar_group_Content",
        NavGroup::Streaming => "sidebar_group_Streaming",
        NavGroup::Settings => "sidebar_group_Settings",
        NavGroup::Access => "sidebar_group_Access",
    };
    proof {
        reveal_strlit("sidebar_group_");
        reveal_strlit("sidebar_group_Content");
        reveal_strlit("sidebar_group_Streaming");
        reveal_strlit("sidebar_group_Settings");
        reveal_strlit("sidebar_group_Access");
        reveal_strlit("Content");
        reveal_strlit("Streaming");
        reveal_strlit("Settings");
        reveal_strlit("Access");
        assert(k@ =~= "sidebar_group_"@ + group_label_spec(g));
    }
    k
}

/// Every page is found again at its own path.
pub proof fn law_route_path_roundtrip(r: Route)
    requires
        r != Route::NotFound,
    ensures
        route_of(route_path_spec(r)) == r,
{
    reveal_strlit("/");
    reveal_strlit("/addons");
    reveal_strlit("/content/library");
    reveal_strlit("/content/iptv");
    reveal_strlit("/streaming/groups");
    reveal_strlit("/streaming/probing");
    reveal_strlit("/streaming/p2p");
    reveal_strlit("/settings/general");
    reveal_strlit("/settings/playback");
    reveal_strlit("/settings/search");
    reveal_strlit("/settings/jellyfin-sync");
    reveal_strlit("/settings/branding");
    reveal_strlit("/access/users");
    reveal_strlit("/access/apikeys");
    reveal_strlit("/tasks");
    reveal_strlit("/activity");
    lemma_paths_distinct(r);
    assert(r == Route::Dashboard || route_path_spec(Route::Dashboard) != route_path_spec(r));
    assert(r == Route::Addons || route_path_spec(Route::Addons) != route_path_spec(r));
    assert(r == Route::Library || route_path_spec(Route::Library) != route_path_spec(r));
    assert(r == Route::Iptv || route_path_spec(Route::Iptv) != route_path_spec(r));
    assert(r == Route::StreamingGroups || route_path_spec(Route::StreamingGroups) != route_path_spec(r));
    assert(r == Route::StreamingProbing || route_path_spec(Route::StreamingProbing) != route_path_spec(r));
    assert(r == Route::StreamingP2p || route_path_spec(Route::StreamingP2p) != route_path_spec(r));
    assert(r == Route::SettingsGeneral || route_path_spec(Route::SettingsGeneral) != route_path_spec(r));
    assert(r == Route::SettingsPlayback || route_path_spec(Route::SettingsPlayback) != route_path_spec(r));
    assert(r == Route::SettingsSearch || route_path_spec(Route::SettingsSearch) != route_path_spec(r));
    assert(r == Route::SettingsJellyfinSync || route_path_spec(Route::SettingsJellyfinSync) != route_path_spec(r));
    assert(r == Route::SettingsBranding || route_path_spec(Route::SettingsBranding) != route_path_spec(r));
    assert(r == Route::AccessUsers || route_path_spec(Route::AccessUsers) != route_path_spec(r));
    assert(r == Route::AccessApiKeys || route_path_spec(Route::AccessApiKeys) != route_path_spec(r));
    assert(r == Route::Tasks || route_path_spec(Route::Tasks) != route_path_spec(r));
    assert(r == Route::Activity || route_path_spec(Route::Activity) != route_path_spec(r));
}

proof fn lemma_paths_distinct(r: Route)
    requires
        r != Route::NotFound,
    ensures
        forall|q: Route|
            q != r && q != Route::NotFound ==> route_path_spec(q) != route_path_spec(r),
{
    reveal_strlit("/");
    reveal_strlit("/addons");
    reveal_strlit("/content/library");
    reveal_strlit("/content/iptv");
    reveal_strlit("/streaming/groups");
    reveal_strlit("/streaming/probing");
    reveal_strlit("/streaming/p2p");
    reveal_strlit("/settings/general");
    reveal_strlit("/settings/playback");
    reveal_strlit("/settings/search");
    reveal_strlit("/settings/jellyfin-sync");
    reveal_strlit("/settings/branding");
    reveal_strlit("/access/users");
    reveal_strlit("/access/apikeys");
    reveal_strlit("/tasks");
    reveal_strlit("/activity");
    assert forall|q: Route| q != r && q != Route::NotFound implies route_path_spec(q) != route_path_spec(r) by {
        let a = route_path_spec(q);
        let b = route_path_spec(r);
        if a.len() == b.len() {
            assert(a[1] != b[1] || a[2] != b[2] || a[3] != b[3] || a[5] != b[5] || a[9] != b[9] || a[10] != b[10] || a[11] != b[11] || a[12] != b[12]);
        }
    }
}

/// The text with its ASCII capitals made small.
pub open spec fn ascii_lower(s: Seq<char>) -> Seq<char> {
    s.map_values(|c: char| if 'A' <= c <= 'Z' { ((c as int) + 32) as char } else { c })
}

/// A title as a path segment: small letters, spaces as `-`.
pub open spec fn slug(title: Seq<char>) -> Seq<char> {
    ascii_lower(title).map_values(|c: char| if c == ' ' { '-' } else { c })
}

/// The part of a page's path before its own segment: `/`, then the
/// sidebar group's name in small letters and `/` for a page in a group.
pub open spec fn path_base(r: Route) -> Seq<char> {
    match route_group_spec(r) {
        Some(g) => "/"@ + ascii_lower(group_label_spec(g)) + "/"@,
        None => "/"@,
    }
}

/// Where each page sits: the dashboard at the root; every page of a sidebar
/// group under `/` and the group's name in small letters; and, but for the
/// stream groups and API keys pages, every page's own segment is its title
/// in small letters with spaces as `-`.
pub proof fn law_route_paths_follow_names(r: Route)
    ensures
        r == Route::Dashboard ==> route_path_spec(r) == "/"@,
        r != Route::NotFound ==> path_base(r).is_prefix_of(route_path_spec(r)),
        r != Route::Dashboard && r != Route::NotFound && r != Route::StreamingGroups && r
            != Route::AccessApiKeys ==> route_path_spec(r) == path_base(r) + slug(
            route_title_spec(r),
        ),
        r == Route::StreamingGroups ==> route_path_spec(r) == path_base(r) + "groups"@,
        r == Route::AccessApiKeys ==> route_path_spec(r) == path_base(r) + "apikeys"@,
{
    reveal_strlit("/");
    reveal_strlit("/addons");
    reveal_strlit("/content/library");
    reveal_strlit("/content/iptv");
    reveal_strlit("/streaming/groups");
    reveal_strlit("/streaming/probing");
    reveal_strlit("/streaming/p2p");
    reveal_strlit("/settings/general");
    reveal_strlit("/settings/playback");
    reveal_strlit("/settings/search");
    reveal_strlit("/settings/jellyfin-sync");
    reveal_strlit("/settings/branding");
    reveal_strlit("/access/users");
    reveal_strlit("/access/apikeys");
    reveal_strlit("/tasks");
    reveal_strlit("/activity");
    reveal_strlit("Addons");
    reveal_strlit("Library");
    reveal_strlit("IPTV");
    reveal_strlit("Stream Groups");
    reveal_strlit("Probing");
    reveal_strlit("P2P");
    reveal_strlit("General");
    reveal_strlit("Playback");
    reveal_strlit("Search");
    reveal_strlit("Jellyfin Sync");
    reveal_strlit("Branding");
    reveal_strlit("Users");
    reveal_strlit("API Keys");
    reveal_strlit("Tasks");
    reveal_strlit("Activity");
    reveal_strlit("Content");
    reveal_strlit("Streaming");
    reveal_strlit("Settings");
    reveal_strlit("Access");
    reveal_strlit("groups");
    reveal_strlit("apikeys");
    let p = route_path_spec(r);
    let b = path_base(r);
    let t = route_title_spec(r);
    if r != Route::NotFound {
        assert(b =~= p.subrange(0, b.len() as int));
    }
    if r != Route::Dashboard && r != Route::NotFound && r != Route::StreamingGroups && r
        != Route::AccessApiKeys {
        assert(p =~= b + slug(t));
    }
    if r == Route::StreamingGroups {
        assert(p =~= b + "groups"@);
    }
    if r == Route::AccessApiKeys {
        assert(p =~= b + "apikeys"@);
    }
}

/// Each page sits at the path the router declares for it.
pub proof fn law_documented_paths()
    ensures
        route_path_spec(Route::Dashboard) == "/"@,
        route_path_spec(Route::Addons) == "/addons"@,
        route_path_spec(Route::Library) == "/content/library"@,
        route_path_spec(Route::Iptv) == "/content/iptv"@,
        route_path_spec(Route::StreamingGroups) == "/streaming/groups"@,
        route_path_spec(Route::StreamingProbing) == "/streaming/probing"@,
        route_path_spec(Route::StreamingP2p) == "/streaming/p2p"@,
        route_path_spec(Route::SettingsGeneral) == "/settings/general"@,
        route_path_spec(Route::SettingsPlayback) == "/settings/playback"@,
        route_path_spec(Route::SettingsSearch) == "/settings/search"@,
        route_path_spec(Route::SettingsJellyfinSync) == "/settings/jellyfin-sync"@,
        route_path_spec(Route::SettingsBranding) == "/settings/branding"@,
        route_path_spec(Route::AccessUsers) == "/access/users"@,
        route_path_spec(Route::AccessApiKeys) == "/access/apikeys"@,
        route_path_spec(Route::Tasks) == "/tasks"@,
        route_path_spec(Route::Activity) == "/activity"@,
        route_of("/tasks"@) == Route::Tasks,
        route_of("/activity"@) == Route::Activity,
{
    law_route_path_roundtrip(Route::Tasks);
    law_route_path_roundtrip(Route::Activity);
    reveal_strlit("/");
    reveal_strlit("/addons");
    reveal_strlit("/content/library");
    reveal_strlit("/content/iptv");
    reveal_strlit("/streaming/groups");
    reveal_strlit("/streaming/probing");
    reveal_strlit("/streaming/p2p");
    reveal_strlit("/settings/general");
    reveal_strlit("/settings/playback");
    reveal_strlit("/settings/search");
    reveal_strlit("/settings/jellyfin-sync");
    reveal_strlit("/settings/branding");
    reveal_strlit("/access/users");
    reveal_strlit("/access/apikeys");
    reveal_strlit("/tasks");
    reveal_strlit("/activity");
}

} // verus!
