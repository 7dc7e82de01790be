//! IPTV: channel sources (M3U playlists and Xtream accounts), the channel
//! editor's query, filters and messages, and the edits of one channel.

use vstd::prelude::*;
use crate::text::{chars_of, string_of, push_str, str_eq};
use crate::num::{fmt_int, i64_to_string, parse_i64, parse_i64_spec};

verus! {

/// A channel source as the server lists it.
pub struct TunerSource {
    pub id: Option<String>,
    pub friendly_name: Option<String>,
    pub url: Option<String>,
    /// `m3u` or `xtream`.
    pub kind: Option<String>,
    pub username: Option<String>,
}

/// The text of an optional string, empty when absent.
pub open spec fn text_or_empty(s: Option<String>) -> Seq<char> {
    match s {
        Some(t) => t@,
        None => Seq::<char>::empty(),
    }
}

/// The kind of a source, `m3u` when unknown.
pub open spec fn source_kind_spec(s: TunerSource) -> Seq<char> {
    match s.kind {
        Some(k) => k@,
        None => "m3u"@,
    }
}

/// What a channel source's row shows.
pub struct SourceRow {
    pub name: String,
    pub kind_label: &'static str,
    /// Show the EPG badge (Xtream accounts carry their own guide).
    pub epg_badge: bool,
    /// The detail line: the account for Xtream, else the playlist URL.
    pub detail: String,
}

fn text_of(s: &Option<String>) -> (r: String)
    ensures
        r@ == text_or_empty(*s),
{
    match s {
        Some(t) => t.clone(),
        None => string_of(&Vec::new()),
    }
}

/// The row of a channel source: its name (`Unnamed` without one), `Xtream`
/// or `M3U`, the EPG badge for Xtream, and `user: {username}` for an Xtream
/// account with a user name, else the URL.
pub fn source_row(s: &TunerSource) -> (r: SourceRow)
    ensures
        r.name@ == match s.friendly_name {
            Some(n) => n@,
            None => "Unnamed"@,
        },
        r.kind_label@ == if source_kind_spec(*s) == "xtream"@ {
            "Xtream"@
        } else {
            "M3U"@
        },
        r.epg_badge == (source_kind_spec(*s) == "xtream"@),
        r.detail@ == if source_kind_spec(*s) == "xtream"@ && text_or_empty(s.username).len() > 0 {
            "user: "@ + text_or_empty(s.username)
        } else {
            text_or_empty(s.url)
        },
{
    let name = match &s.friendly_name {
        Some(n) => n.clone(),
        None => string_of(&chars_of("Unnamed")),
    };
    let xtream = match &s.kind {
        Some(k) => str_eq(k.as_str(), "xtream"),
        None => {
            proof {
                reveal_strlit("m3u");
                reveal_strlit("xtream");
                assert("m3u"@.len() != "xtream"@.len());
            }
            false
        },
    };
    let user = text_of(&s.username);
    let detail = if xtream && !user.as_str().is_empty() {
        let mut out: Vec<char> = Vec::new();
        push_str(&mut out, "user: ");
        push_str(&mut out, user.as_str());
        string_of(&out)
    } else {
        text_of(&s.url)
    };
    SourceRow {
        name,
        kind_label: if xtream {
            "Xtream"
        } else {
            "M3U"
        },
        epg_badge: xtream,
        detail,
    }
}

/// The source form's fields.
pub struct SourceForm {
    pub kind: String,
    pub name: String,
    pub url: String,
    pub username: String,
    pub password: String,
}

/// The form for editing a source: its fields (kind `m3u` when unknown) and
/// an empty password, which keeps the stored one.
pub fn edit_source_form(s: &TunerSource) -> (f: SourceForm)
    ensures
        f.kind@ == source_kind_spec(*s),
        f.name@ == text_or_empty(s.friendly_name),
        f.url@ == text_or_empty(s.url),
        f.username@ == text_or_empty(s.username),
        f.password@.len() == 0,
{
    let kind = match &s.kind {
        Some(k) => k.clone(),
        None => string_of(&chars_of("m3u")),
    };
    SourceForm {
        kind,
        name: text_of(&s.friendly_name),
        url: text_of(&s.url),
        username: text_of(&s.username),
        password: string_of(&Vec::new()),
    }
}

/// The source the server is asked to save.
pub struct TunerHostRequest {
    pub id: Option<String>,
    pub friendly_name: String,
    pub url: String,
    pub kind: String,
    pub username: Option<String>,
    pub password: Option<String>,
}

/// Why a source cannot be saved.
#[derive(Clone, Copy, PartialEq, Eq, Structural, Debug)]
pub enum SourceFormError {
    /// `URL is required`
    MissingUrl,
    /// `Username is required for Xtream`
    MissingXtreamUser,
}

/// The message of a source-form error.
pub fn source_form_error_text(e: SourceFormError) -> (r: &'static str)
    ensures
        r@ == match e {
            SourceFormError::MissingUrl => "URL is required"@,
            SourceFormError::MissingXtreamUser => "Username is required for Xtream"@,
        },
{
    match e {
        SourceFormError::MissingUrl => "URL is required",
        SourceFormError::MissingXtreamUser => "Username is required for Xtream",
    }
}

fn opt_string(s: &str) -> (r: String)
    ensures
        r@ == s@,
{
    string_of(&chars_of(s))
}

/// Checks the source form and builds the request: a URL is required, and an
/// Xtream account needs a user name. An empty name becomes `IPTV`; the user
/// name is sent only for Xtream, the password only for Xtream when typed.
pub fn tuner_host_request(id: Option<String>, f: &SourceForm) -> (r: Result<TunerHostRequest, SourceFormError>)
    ensures
        match r {
            Err(SourceFormError::MissingUrl) => f.url@.len() == 0,
            Err(SourceFormError::MissingXtreamUser) => f.url@.len() > 0 && f.kind@ == "xtream"@
                && f.username@.len() == 0,
            Ok(req) => {
                &&& f.url@.len() > 0
                &&& !(f.kind@ == "xtream"@ && f.username@.len() == 0)
                &&& req.id == id
                &&& req.friendly_name@ == if f.name@.len() == 0 {
                    "IPTV"@
                } else {
                    f.name@
                }
                &&& req.url@ == f.url@
                &&& req.kind@ == f.kind@
                &&& match req.username {
                    Some(u) => f.kind@ == "xtream"@ && u@ == f.username@,
                    None => f.kind@ != "xtream"@,
                }
                &&& match req.password {
                    Some(p) => f.kind@ == "xtream"@ && f.password@.len() > 0 && p@ == f.password@,
                    None => !(f.kind@ == "xtream"@ && f.password@.len() > 0),
                }
            },
        },
{
    if f.url.as_str().is_empty() {
        return Err(SourceFormError::MissingUrl);
    }
    let xtream = str_eq(f.kind.as_str(), "xtream");
    if xtream && f.username.as_str().is_empty() {
        return Err(SourceFormError::MissingXtreamUser);
    }
    let friendly_name = if f.name.as_str().is_empty() {
        opt_string("IPTV")
    } else {
        f.name.clone()
    };
    Ok(TunerHostRequest {
        id,
        friendly_name,
        url: f.url.clone(),
        kind: f.kind.clone(),
        username: if xtream {
            Some(f.username.clone())
        } else {
            None
        },
        password: if xtream && !f.password.as_str().is_empty() {
            Some(f.password.clone())
        } else {
            None
        },
    })
}

/// The channel status filter: `true` shows enabled channels, `false`
/// disabled ones, anything else all of them.
pub open spec fn enabled_filter_spec(filter: Seq<char>) -> Option<bool> {
    if filter == "true"@ {
        Some(true)
    } else if filter == "false"@ {
        Some(false)
    } else {
        None
    }
}

/// The channel status filter as the query sends it.
pub fn enabled_filter(filter: &str) -> (r: Option<bool>)
    ensures
        r == enabled_filter_spec(filter@),
{
    if str_eq(filter, "true") {
        Some(true)
    } else if str_eq(filter, "false") {
        Some(false)
    } else {
        None
    }
}

/// One page of the channel list to fetch.
pub struct ChannelQuery {
    pub limit: u32,
    pub offset: u32,
    pub search: String,
    pub enabled: Option<bool>,
    pub country: String,
    pub group: String,
    pub sort: String,
}

/// The query for `page` (zero-based) with the committed search, the status,
/// country and group filters and the sort mode.
pub fn channel_query(page: u32, search: &str, status: &str, country: &str, group: &str, sort: &str) -> (q: ChannelQuery)
    requires
        page * 50 <= u32::MAX,
    ensures
        q.limit == 50,
        q.offset == page * 50,
        q.search@ == search@,
        q.enabled == enabled_filter_spec(status@),
        q.country@ == country@,
        q.group@ == group@,
        q.sort@ == sort@,
{
    ChannelQuery {
        limit: 50,
        offset: crate::paging::channel_offset(page),
        search: opt_string(search),
        enabled: enabled_filter(status),
        country: opt_string(country),
        group: opt_string(group),
        sort: opt_string(sort),
    }
}

/// Is any filter or sort in effect (status not `all`, a country or group,
/// sort not `order`, or a search)?
pub fn filters_active(status: &str, country: &str, group: &str, sort: &str, search: &str) -> (b: bool)
    ensures
        b == (status@ != "all"@ || country@.len() > 0 || group@.len() > 0 || sort@ != "order"@
            || search@.len() > 0),
{
    !str_eq(status, "all") || !country.is_empty() || !group.is_empty() || !str_eq(sort, "order")
        || !search.is_empty()
}

/// What an empty channel list says: that there are no channels yet when
/// nothing is filtered and the server has none, else that none match.
pub fn empty_channels_message(total: usize, search: &str, status: &str, country: &str, group: &str) -> (r: &'static str)
    ensures
        r@ == if total == 0 && search@.len() == 0 && status@ == "all"@ && country@.len() == 0
            && group@.len() == 0 {
            "No channels yet. Run a refresh after adding channel sources."@
        } else {
            "No channels match your filters."@
        },
{
    if total == 0 && search.is_empty() && str_eq(status, "all") && country.is_empty()
        && group.is_empty() {
        "No channels yet. Run a refresh after adding channel sources."
    } else {
        "No channels match your filters."
    }
}

/// The search a bulk enable/disable applies to: none when the search is
/// empty.
pub fn bulk_search(search: &str) -> (r: Option<String>)
    ensures
        match r {
            Some(s) => search@.len() > 0 && s@ == search@,
            None => search@.len() == 0,
        },
{
    if search.is_empty() {
        None
    } else {
        Some(opt_string(search))
    }
}

/// The custom display name a typed text sets: none when empty.
pub fn custom_name(typed: &str) -> (r: Option<String>)
    ensures
        match r {
            Some(s) => typed@.len() > 0 && s@ == typed@,
            None => typed@.len() == 0,
        },
{
    bulk_search(typed)
}

/// The sort position a typed text sets: the text read as an integer, none
/// when it is not one.
pub fn channel_sort_order(typed: &str) -> (r: Option<i64>)
    ensures
        r == parse_i64_spec(typed@),
{
    parse_i64(typed)
}

/// The text of an optional number: its decimal form, or `fallback`.
pub fn number_text(n: Option<i64>, fallback: &str) -> (r: String)
    ensures
        r@ == match n {
            Some(v) => fmt_int(v as int),
            None => fallback@,
        },
{
    match n {
        Some(v) => i64_to_string(v),
        None => opt_string(fallback),
    }
}

/// The channel list's filter state: the page (zero-based), the search as
/// typed and as committed, the status, country and group filters and the
/// sort mode.
pub struct ChannelFilters {
    pub page: u32,
    pub search_input: String,
    pub search: String,
    pub status: String,
    pub country: String,
    pub group: String,
    pub sort: String,
}

/// The value of a [`ChannelFilters`].
pub struct ChannelFiltersModel {
    pub page: u32,
    pub search_input: Seq<char>,
    pub search: Seq<char>,
    pub status: Seq<char>,
    pub country: Seq<char>,
    pub group: Seq<char>,
    pub sort: Seq<char>,
}

impl View for ChannelFilters {
    type V = ChannelFiltersModel;

    open spec fn view(&self) -> ChannelFiltersModel {
        ChannelFiltersModel {
            page: self.page,
            search_input: self.search_input@,
            search: self.search@,
            status: self.status@,
            country: self.country@,
            group: self.group@,
            sort: self.sort@,
        }
    }
}

/// What the user does to the channel list's filters.
pub enum ChannelFilterEvent {
    /// Types in the search box.
    Type(String),
    /// Presses Enter in the search box.
    Commit,
    SetSort(String),
    SetStatus(String),
    SetCountry(String),
    SetGroup(String),
    /// Clears every filter.
    Reset,
    /// The previous page.
    Prev,
    /// The next page.
    Next,
}

/// The filters the list starts with: first page, no search, all statuses,
/// no country or group, channel order.
pub open spec fn initial_channel_filters_spec() -> ChannelFiltersModel {
    ChannelFiltersModel {
        page: 0,
        search_input: Seq::empty(),
        search: Seq::empty(),
        status: "all"@,
        country: Seq::empty(),
        group: Seq::empty(),
        sort: "order"@,
    }
}

/// The filters after an event. Typing changes only the typed search.
/// Committing the search, changing the sort or a filter goes back to the
/// first page; clearing also resets every filter and both searches. The
/// previous page stops at the first; the next page is one more.
pub open spec fn channel_filters_after_spec(
    f: ChannelFiltersModel,
    e: ChannelFilterEvent,
) -> ChannelFiltersModel {
    match e {
        ChannelFilterEvent::Type(t) => ChannelFiltersModel { search_input: t@, ..f },
        ChannelFilterEvent::Commit => ChannelFiltersModel { search: f.search_input, page: 0, ..f },
        ChannelFilterEvent::SetSort(v) => ChannelFiltersModel { sort: v@, page: 0, ..f },
        ChannelFilterEvent::SetStatus(v) => ChannelFiltersModel { status: v@, page: 0, ..f },
        ChannelFilterEvent::SetCountry(v) => ChannelFiltersModel { country: v@, page: 0, ..f },
        ChannelFilterEvent::SetGroup(v) => ChannelFiltersModel { group: v@, page: 0, ..f },
        ChannelFilterEvent::Reset => initial_channel_filters_spec(),
        ChannelFilterEvent::Prev => ChannelFiltersModel {
            page: if f.page > 0 {
                (f.page - 1) as u32
            } else {
                0
            },
            ..f
        },
        ChannelFilterEvent::Next => ChannelFiltersModel { page: (f.page + 1) as u32, ..f },
    }
}

fn empty_string() -> (r: String)
    ensures
        r@ == Seq::<char>::empty(),
{
    string_of(&Vec::new())
}

fn literal(s: &str) -> (r: String)
    ensures
        r@ == s@,
{
    string_of(&chars_of(s))
}

/// The filters the list starts with.
pub fn initial_channel_filters() -> (f: ChannelFilters)
    ensures
        f@ == initial_channel_filters_spec(),
{
    ChannelFilters {
        page: 0,
        search_input: empty_string(),
        search: empty_string(),
        status: literal("all"),
        country: empty_string(),
        group: empty_string(),
        sort: literal("order"),
    }
}

/// The filters after an event. The next page is only offered below the
/// last page, so it never goes past the largest page number.
pub fn channel_filters_after(f: ChannelFilters, e: ChannelFilterEvent) -> (r: ChannelFilters)
    requires
        e is Next ==> f.page < u32::MAX,
    ensures
        r@ == channel_filters_after_spec(f@, e),
        e is Prev && f.page > 0 ==> r.page == f.page - 1,
        e is Prev && f.page == 0 ==> r.page == 0,
        e is Next ==> r.page == f.page + 1,
        e is Type ==> r.page == f.page,
        (e is Commit || e is SetSort || e is SetStatus || e is SetCountry || e is SetGroup
            || e is Reset) ==> r.page == 0,
{
    match e {
        ChannelFilterEvent::Type(t) => ChannelFilters { search_input: t, ..f },
        ChannelFilterEvent::Commit => {
            let committed = literal(f.search_input.as_str());
            ChannelFilters { search: committed, page: 0, ..f }
        },
        ChannelFilterEvent::SetSort(v) => ChannelFilters { sort: v, page: 0, ..f },
        ChannelFilterEvent::SetStatus(v) => ChannelFilters { status: v, page: 0, ..f },
        ChannelFilterEvent::SetCountry(v) => ChannelFilters { country: v, page: 0, ..f },
        ChannelFilterEvent::SetGroup(v) => ChannelFilters { group: v, page: 0, ..f },
        ChannelFilterEvent::Reset => initial_channel_filters(),
        ChannelFilterEvent::Prev => {
            let p = if f.page > 0 {
                f.page - 1
            } else {
                0
            };
            ChannelFilters { page: p, ..f }
        },
        ChannelFilterEvent::Next => ChannelFilters { page: f.page + 1, ..f },
    }
}

/// Paging the channel list moves one page at a time: back one page while
/// above the first page (and not below it), on one page; paging and typing
/// leave the search and every filter as they are. Committing the search or
/// changing a filter or the sort starts again from the first page, and
/// clearing restores every default.
pub proof fn law_channel_paging(f: ChannelFiltersModel, v: String)
    ensures
        f.page > 0 ==> channel_filters_after_spec(f, ChannelFilterEvent::Prev).page == f.page - 1,
        f.page == 0 ==> channel_filters_after_spec(f, ChannelFilterEvent::Prev).page == 0,
        f.page < u32::MAX ==> channel_filters_after_spec(f, ChannelFilterEvent::Next).page
            == f.page + 1,
        ({
            let p = channel_filters_after_spec(f, ChannelFilterEvent::Prev);
            let n = channel_filters_after_spec(f, ChannelFilterEvent::Next);
            &&& p.search == f.search && p.status == f.status && p.country == f.country
                && p.group == f.group && p.sort == f.sort && p.search_input == f.search_input
            &&& n.search == f.search && n.status == f.status && n.country == f.country
                && n.group == f.group && n.sort == f.sort && n.search_input == f.search_input
        }),
        channel_filters_after_spec(f, ChannelFilterEvent::Type(v)).page == f.page,
        channel_filters_after_spec(f, ChannelFilterEvent::Type(v)).search_input == v@,
        channel_filters_after_spec(f, ChannelFilterEvent::Type(v)).search == f.search,
        channel_filters_after_spec(f, ChannelFilterEvent::Commit).page == 0,
        channel_filters_after_spec(f, ChannelFilterEvent::Commit).search == f.search_input,
        channel_filters_after_spec(f, ChannelFilterEvent::SetSort(v)).page == 0,
        channel_filters_after_spec(f, ChannelFilterEvent::SetSort(v)).sort == v@,
        channel_filters_after_spec(f, ChannelFilterEvent::SetStatus(v)).page == 0,
        channel_filters_after_spec(f, ChannelFilterEvent::SetStatus(v)).status == v@,
        channel_filters_after_spec(f, ChannelFilterEvent::SetCountry(v)).page == 0,
        channel_filters_after_spec(f, ChannelFilterEvent::SetCountry(v)).country == v@,
        channel_filters_after_spec(f, ChannelFilterEvent::SetGroup(v)).page == 0,
        channel_filters_after_spec(f, ChannelFilterEvent::SetGroup(v)).group == v@,
        ({
            let c = channel_filters_after_spec(f, ChannelFilterEvent::Reset);
            &&& c.page == 0
            &&& c.search_input.len() == 0 && c.search.len() == 0
            &&& c.status == "all"@ && c.sort == "order"@
            &&& c.country.len() == 0 && c.group.len() == 0
        }),
{
}

} // verus!
