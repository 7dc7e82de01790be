//! Server settings forms: general settings (name, metadata country, catalog
//! limits, subtitle languages), playback and hardware acceleration, stream
//! probing, remote search, Jellyfin sync and peer-to-peer streaming.

use vstd::prelude::*;
use crate::text::{
    chars_of, string_of, str_eq, trim, trim_chars, split_on, split_chars, join, join_strings,
    views, list_ready, lowercase, to_lower, lemma_split_join_pieces,
};
use crate::num::{parse_u32_chars, parse_u32_spec, parse_i64, parse_i64_spec};

verus! {

/// The lower-cased, trimmed pieces that are not empty, in order.
pub open spec fn lowered_items(pieces: Seq<Seq<char>>) -> Seq<Seq<char>>
    decreases pieces.len(),
{
    if pieces.len() == 0 {
        Seq::<Seq<char>>::empty()
    } else {
        let rest = lowered_items(pieces.drop_last());
        let l = lowercase(trim(pieces.last()));
        if l.len() > 0 {
            rest.push(l)
        } else {
            rest
        }
    }
}

/// The subtitle languages typed as a comma-separated list: each entry
/// trimmed and lower-cased, empty ones dropped.
pub open spec fn subtitle_languages_of(text: Seq<char>) -> Seq<Seq<char>> {
    lowered_items(split_on(text, ','))
}

/// The subtitle languages of a comma-separated list.
pub fn subtitle_languages(text: &str) -> (r: Vec<String>)
    ensures
        views(r@) == subtitle_languages_of(text@),
{
    let pieces = split_chars(&chars_of(text), ',');
    let ghost ps = pieces@.map_values(|x: Vec<char>| x@);
    let mut out: Vec<String> = Vec::new();
    let mut k: usize = 0;
    while k < pieces.len()
        invariant
            k <= pieces@.len(),
            ps == pieces@.map_values(|x: Vec<char>| x@),
            ps == split_on(text@, ','),
            views(out@) == lowered_items(ps.take(k as int)),
        decreases pieces@.len() - k,
    {
        let t = string_of(&trim_chars(&pieces[k]));
        let l = to_lower(t.as_str());
        proof {
            assert(ps.take(k + 1).drop_last() =~= ps.take(k as int));
            assert(ps.take(k + 1).last() == pieces@[k as int]@);
        }
        if !l.as_str().is_empty() {
            let ghost before = out@;
            out.push(l);
            assert(views(out@) =~= views(before).push(l@));
        }
        k = k + 1;
    }
    assert(ps.take(k as int) == ps);
    out
}

proof fn lemma_lowered_items_of(pieces: Seq<Seq<char>>, items: Seq<Seq<char>>)
    requires
        pieces.len() == items.len(),
        forall|k: int| 0 <= k < items.len() ==> lowercase(trim(#[trigger] pieces[k])) == items[k],
        forall|k: int| 0 <= k < items.len() ==> (#[trigger] items[k]).len() > 0,
    ensures
        lowered_items(pieces) == items,
    decreases pieces.len(),
{
    if pieces.len() > 0 {
        let n = pieces.len() - 1;
        assert forall|k: int| 0 <= k < n implies lowercase(trim(#[trigger] pieces.drop_last()[k])) == items.drop_last()[k] by {
            assert(pieces.drop_last()[k] == pieces[k]);
            assert(items.drop_last()[k] == items[k]);
        }
        assert forall|k: int| 0 <= k < n implies (#[trigger] items.drop_last()[k]).len() > 0 by {
            assert(items.drop_last()[k] == items[k]);
        }
        lemma_lowered_items_of(pieces.drop_last(), items.drop_last());
        assert(lowercase(trim(pieces[n])) == items[n]);
        assert(items.drop_last().push(items[n]) =~= items);
    }
}

/// Is `s` unchanged by lower-casing? A caller tests this of each stored
/// language before relying on the round trip of the subtitle languages.
pub fn lowercase_stable(s: &str) -> (b: bool)
    ensures
        b == (lowercase(s@) == s@),
{
    let l = to_lower(s);
    str_eq(l.as_str(), s)
}

/// Subtitle languages shown joined with `", "` and saved unchanged come back
/// the same, when they are stored as the form saves them: non-empty,
/// trimmed, without commas and already lower-case.
pub proof fn law_subtitle_languages_roundtrip(langs: Seq<Seq<char>>)
    requires
        langs.len() > 0,
        list_ready(langs),
        forall|k: int| 0 <= k < langs.len() ==> lowercase(#[trigger] langs[k]) == langs[k],
    ensures
        subtitle_languages_of(join(langs, ", "@)) == langs,
{
    {
        lemma_split_join_pieces(langs);
        let pieces = split_on(join(langs, ", "@), ',');
        assert forall|k: int| 0 <= k < langs.len() implies lowercase(trim(#[trigger] pieces[k])) == langs[k] by {
            assert(trim(pieces[k]) == langs[k]);
        }
        assert forall|k: int| 0 <= k < langs.len() implies (#[trigger] langs[k]).len() > 0 by {
            assert(langs[k].len() > 0);
        }
        lemma_lowered_items_of(pieces, langs);
    }
}

/// The general server settings the dashboard edits.
pub struct ServerSettings {
    pub server_name: Option<String>,
    pub metadata_country: Option<String>,
    pub catalog_max_items: Option<i64>,
    pub filter_by_digital_release: bool,
    pub digital_release_buffer_days: i64,
    pub subtitle_languages: Option<Vec<String>>,
    pub quick_connect: Option<bool>,
}

/// The general settings form.
pub struct ServerSettingsForm {
    pub server_name: String,
    pub metadata_country: String,
    pub catalog_max_items: i64,
    pub filter_by_digital_release: bool,
    pub digital_release_buffer_days: i64,
    pub subtitle_languages: String,
    pub quick_connect: bool,
}

fn text_or(s: &Option<String>, d: &str) -> (r: String)
    ensures
        r@ == match *s {
            Some(t) => t@,
            None => d@,
        },
{
    match s {
        Some(t) => t.clone(),
        None => string_of(&chars_of(d)),
    }
}

/// The form the loaded settings fill: missing values read as an empty name,
/// country `US`, 100 catalog items, no subtitle languages and Quick Connect
/// on; the languages show joined with `", "`.
pub fn server_settings_form(c: &ServerSettings) -> (f: ServerSettingsForm)
    ensures
        f.server_name@ == match c.server_name {
            Some(t) => t@,
            None => Seq::<char>::empty(),
        },
        f.metadata_country@ == match c.metadata_country {
            Some(t) => t@,
            None => "US"@,
        },
        f.catalog_max_items == match c.catalog_max_items {
            Some(n) => n,
            None => 100,
        },
        f.filter_by_digital_release == c.filter_by_digital_release,
        f.digital_release_buffer_days == c.digital_release_buffer_days,
        f.subtitle_languages@ == match c.subtitle_languages {
            Some(v) => join(views(v@), ", "@),
            None => Seq::<char>::empty(),
        },
        f.quick_connect == match c.quick_connect {
            Some(b) => b,
            None => true,
        },
{
    proof {
        reveal_strlit("");
    }
    let languages = match &c.subtitle_languages {
        Some(v) => join_strings(v, ", "),
        None => string_of(&Vec::new()),
    };
    ServerSettingsForm {
        server_name: text_or(&c.server_name, ""),
        metadata_country: text_or(&c.metadata_country, "US"),
        catalog_max_items: match c.catalog_max_items {
            Some(n) => n,
            None => 100,
        },
        filter_by_digital_release: c.filter_by_digital_release,
        digital_release_buffer_days: c.digital_release_buffer_days,
        subtitle_languages: languages,
        quick_connect: match c.quick_connect {
            Some(b) => b,
            None => true,
        },
    }
}

/// The settings the form saves: every field set, the subtitle languages
/// read from the comma-separated list.
pub fn apply_server_settings(f: &ServerSettingsForm) -> (c: ServerSettings)
    ensures
        c.server_name matches Some(t) && t@ == f.server_name@,
        c.metadata_country matches Some(t) && t@ == f.metadata_country@,
        c.catalog_max_items == Some(f.catalog_max_items),
        c.filter_by_digital_release == f.filter_by_digital_release,
        c.digital_release_buffer_days == f.digital_release_buffer_days,
        c.subtitle_languages matches Some(v) && views(v@) == subtitle_languages_of(
            f.subtitle_languages@,
        ),
        c.quick_connect == Some(f.quick_connect),
{
    ServerSettings {
        server_name: Some(f.server_name.clone()),
        metadata_country: Some(f.metadata_country.clone()),
        catalog_max_items: Some(f.catalog_max_items),
        filter_by_digital_release: f.filter_by_digital_release,
        digital_release_buffer_days: f.digital_release_buffer_days,
        subtitle_languages: Some(subtitle_languages(f.subtitle_languages.as_str())),
        quick_connect: Some(f.quick_connect),
    }
}

/// The value a number field takes from typed text: the text read as an
/// integer, or nothing (the field keeps its value) when it is not one.
pub fn number_field(typed: &str) -> (r: Option<i64>)
    ensures
        r == parse_i64_spec(typed@),
{
    parse_i64(typed)
}

/// The hardware video acceleration the server uses.
#[derive(Clone, Copy, PartialEq, Eq, Structural, Debug)]
pub enum HwAccel {
    /// No acceleration: software encoding.
    Software,
    Vaapi,
    Nvenc,
    Qsv,
    Amf,
    VideoToolbox,
    V4l2m2m,
    Rkmpp,
}

/// The key of a hardware acceleration in the form.
pub open spec fn hw_accel_key_spec(a: HwAccel) -> Seq<char> {
    match a {
        HwAccel::Software => "none"@,
        HwAccel::Vaapi => "vaapi"@,
        HwAccel::Nvenc => "nvenc"@,
        HwAccel::Qsv => "qsv"@,
        HwAccel::Amf => "amf"@,
        HwAccel::VideoToolbox => "videotoolbox"@,
        HwAccel::V4l2m2m => "v4l2m2m"@,
        HwAccel::Rkmpp => "rkmpp"@,
    }
}

/// The hardware acceleration a form key selects; unknown keys mean none.
pub open spec fn hw_accel_of(key: Seq<char>) -> HwAccel {
    if key == "vaapi"@ {
        HwAccel::Vaapi
    } else if key == "nvenc"@ {
        HwAccel::Nvenc
    } else if key == "qsv"@ {
        HwAccel::Qsv
    } else if key == "amf"@ {
        HwAccel::Amf
    } else if key == "videotoolbox"@ {
        HwAccel::VideoToolbox
    } else if key == "v4l2m2m"@ {
        HwAccel::V4l2m2m
    } else if key == "rkmpp"@ {
        HwAccel::Rkmpp
    } else {
        HwAccel::Software
    }
}

/// The key of a hardware acceleration in the form.
pub fn hw_accel_key(a: HwAccel) -> (r: &'static str)
    ensures
        r@ == hw_accel_key_spec(a),
{
    match a {
        HwAccel::Software => "none",
        HwAccel::Vaapi => "vaapi",
        HwAccel::Nvenc => "nvenc",
        HwAccel::Qsv => "qsv",
        HwAccel::Amf => "amf",
        HwAccel::VideoToolbox => "videotoolbox",
        HwAccel::V4l2m2m => "v4l2m2m",
        HwAccel::Rkmpp => "rkmpp",
    }
}

/// The hardware acceleration a form key selects.
pub fn parse_hw_accel(key: &str) -> (r: HwAccel)
    ensures
        r == hw_accel_of(key@),
{
    if str_eq(key, "vaapi") {
        HwAccel::Vaapi
    } else if str_eq(key, "nvenc") {
        HwAccel::Nvenc
    } else if str_eq(key, "qsv") {
        HwAccel::Qsv
    } else if str_eq(key, "amf") {
        HwAccel::Amf
    } else if str_eq(key, "videotoolbox") {
        HwAccel::VideoToolbox
    } else if str_eq(key, "v4l2m2m") {
        HwAccel::V4l2m2m
    } else if str_eq(key, "rkmpp") {
        HwAccel::Rkmpp
    } else {
        HwAccel::Software
    }
}

/// A hardware acceleration shown in the form and saved unchanged stays the
/// same.
pub proof fn law_hw_accel_roundtrip(a: HwAccel)
    ensures
        hw_accel_of(hw_accel_key_spec(a)) == a,
{
    reveal_strlit("none");
    reveal_strlit("vaapi");
    reveal_strlit("nvenc");
    reveal_strlit("qsv");
    reveal_strlit("amf");
    reveal_strlit("videotoolbox");
    reveal_strlit("v4l2m2m");
    reveal_strlit("rkmpp");
    match a {
        HwAccel::Software => {
            assert("none"@[0] != "vaapi"@[0]);
            assert("none"@ != "nvenc"@) by {
                assert("none"@.len() != "nvenc"@.len());
            }
            assert("none"@.len() != "qsv"@.len());
            assert("none"@.len() != "amf"@.len());
            assert("none"@.len() != "videotoolbox"@.len());
            assert("none"@.len() != "v4l2m2m"@.len());
            assert("none"@[0] != "rkmpp"@[0]);
        },
        HwAccel::Vaapi => {},
        HwAccel::Nvenc => {
            assert("nvenc"@[0] != "vaapi"@[0]);
        },
        HwAccel::Qsv => {
            assert("qsv"@.len() != "vaapi"@.len());
            assert("qsv"@.len() != "nvenc"@.len());
        },
        HwAccel::Amf => {
            assert("amf"@.len() != "vaapi"@.len());
            assert("amf"@.len() != "nvenc"@.len());
            assert("amf"@[0] != "qsv"@[0]);
        },
        HwAccel::VideoToolbox => {
            assert("videotoolbox"@.len() != "vaapi"@.len());
            assert("videotoolbox"@.len() != "nvenc"@.len());
            assert("videotoolbox"@.len() != "qsv"@.len());
            assert("videotoolbox"@.len() != "amf"@.len());
        },
        HwAccel::V4l2m2m => {
            assert("v4l2m2m"@.len() != "vaapi"@.len());
            assert("v4l2m2m"@.len() != "nvenc"@.len());
            assert("v4l2m2m"@.len() != "qsv"@.len());
            assert("v4l2m2m"@.len() != "amf"@.len());
            assert("v4l2m2m"@.len() != "videotoolbox"@.len());
        },
        HwAccel::Rkmpp => {
            assert("rkmpp"@[0] != "vaapi"@[0]);
            assert("rkmpp"@[0] != "nvenc"@[0]);
            assert("rkmpp"@.len() != "qsv"@.len());
            assert("rkmpp"@.len() != "amf"@.len());
            assert("rkmpp"@.len() != "videotoolbox"@.len());
            assert("rkmpp"@.len() != "v4l2m2m"@.len());
        },
    }
}

/// The playback settings the dashboard edits. The tone-mapping strengths,
/// which are decimal numbers, are not held here: the library takes no
/// floating-point values.
pub struct PlaybackSettings {
    pub encoding_preset: Option<String>,
    pub hw_accel: Option<HwAccel>,
    pub auto_detect: Option<bool>,
    pub tonemapping: Option<bool>,
    pub vpp_tonemapping: Option<bool>,
    pub tonemapping_algorithm: Option<String>,
    pub allow_hevc: Option<bool>,
    pub allow_av1: Option<bool>,
    pub h264_crf: Option<u32>,
    pub h265_crf: Option<u32>,
    /// The VAAPI render device.
    pub vaapi_device: Option<String>,
    /// The VAAPI driver.
    pub vaapi_driver: Option<String>,
}

/// The playback form.
pub struct PlaybackForm {
    pub encoding_preset: String,
    pub hw_accel: HwAccel,
    pub auto_detect: bool,
    pub tonemapping: bool,
    pub vpp_tonemapping: bool,
    pub tonemapping_algorithm: String,
    pub allow_hevc: bool,
    pub allow_av1: bool,
    pub h264_crf: u32,
    pub h265_crf: u32,
}

/// The form the loaded playback settings fill. Missing values: preset
/// `fast`, no acceleration, auto-detect on, tone mapping off, algorithm
/// `hable`, HEVC allowed, AV1 not, quality 23 for H.264 and 28 for H.265.
pub fn playback_form(c: &PlaybackSettings) -> (f: PlaybackForm)
    ensures
        f.encoding_preset@ == match c.encoding_preset {
            Some(t) => t@,
            None => "fast"@,
        },
        f.hw_accel == match c.hw_accel {
            Some(a) => a,
            None => HwAccel::Software,
        },
        f.auto_detect == match c.auto_detect {
            Some(b) => b,
            None => true,
        },
        f.tonemapping == match c.tonemapping {
            Some(b) => b,
            None => false,
        },
        f.vpp_tonemapping == match c.vpp_tonemapping {
            Some(b) => b,
            None => false,
        },
        f.tonemapping_algorithm@ == match c.tonemapping_algorithm {
            Some(t) => t@,
            None => "hable"@,
        },
        f.allow_hevc == match c.allow_hevc {
            Some(b) => b,
            None => true,
        },
        f.allow_av1 == match c.allow_av1 {
            Some(b) => b,
            None => false,
        },
        f.h264_crf == match c.h264_crf {
            Some(n) => n,
            None => 23,
        },
        f.h265_crf == match c.h265_crf {
            Some(n) => n,
            None => 28,
        },
{
    PlaybackForm {
        encoding_preset: text_or(&c.encoding_preset, "fast"),
        hw_accel: match c.hw_accel {
            Some(a) => a,
            None => HwAccel::Software,
        },
        auto_detect: match c.auto_detect {
            Some(b) => b,
            None => true,
        },
        tonemapping: match c.tonemapping {
            Some(b) => b,
            None => false,
        },
        vpp_tonemapping: match c.vpp_tonemapping {
            Some(b) => b,
            None => false,
        },
        tonemapping_algorithm: text_or(&c.tonemapping_algorithm, "hable"),
        allow_hevc: match c.allow_hevc {
            Some(b) => b,
            None => true,
        },
        allow_av1: match c.allow_av1 {
            Some(b) => b,
            None => false,
        },
        h264_crf: match c.h264_crf {
            Some(n) => n,
            None => 23,
        },
        h265_crf: match c.h265_crf {
            Some(n) => n,
            None => 28,
        },
    }
}

/// The quality value a typed text sets: read as an unsigned integer and
/// capped at 51, or nothing when it is not one.
pub fn crf_input(typed: &str) -> (r: Option<u32>)
    ensures
        r == match parse_u32_spec(typed@) {
            Some(n) => Some(if n > 51 {
                51u32
            } else {
                n
            }),
            None => None,
        },
{
    match parse_u32_chars(&chars_of(typed)) {
        Some(n) => Some(if n > 51 {
            51
        } else {
            n
        }),
        None => None,
    }
}

/// Is the tone-mapping algorithm selectable? With software tone mapping on
/// and the VPP one off.
pub fn shows_tonemap_algorithm(tonemapping: bool, vpp: bool) -> (b: bool)
    ensures
        b == (tonemapping && !vpp),
{
    tonemapping && !vpp
}

/// The probing settings the form starts with: timeouts of 20 s (60 s for
/// peer-to-peer), moving on to the next stream when a probe fails, and at
/// most 3 fallback streams, for values the server does not have.
pub fn probe_form(
    timeout: Option<i64>,
    timeout_p2p: Option<i64>,
    auto_next: Option<bool>,
    max_fallback: Option<i64>,
) -> (r: (i64, i64, bool, i64))
    ensures
        r == (
            match timeout {
                Some(n) => n,
                None => 20i64,
            },
            match timeout_p2p {
                Some(n) => n,
                None => 60i64,
            },
            match auto_next {
                Some(b) => b,
                None => true,
            },
            match max_fallback {
                Some(n) => n,
                None => 3i64,
            },
        ),
{
    (
        match timeout {
            Some(n) => n,
            None => 20,
        },
        match timeout_p2p {
            Some(n) => n,
            None => 60,
        },
        match auto_next {
            Some(b) => b,
            None => true,
        },
        match max_fallback {
            Some(n) => n,
            None => 3,
        },
    )
}

/// The peer-to-peer form's starting values: enabled, no speed limits.
pub fn p2p_form(enabled: Option<bool>, upload: Option<i64>, download: Option<i64>) -> (r: (bool, i64, i64))
    ensures
        r == (
            match enabled {
                Some(b) => b,
                None => true,
            },
            match upload {
                Some(n) => n,
                None => 0i64,
            },
            match download {
                Some(n) => n,
                None => 0i64,
            },
        ),
{
    (
        match enabled {
            Some(b) => b,
            None => true,
        },
        match upload {
            Some(n) => n,
            None => 0,
        },
        match download {
            Some(n) => n,
            None => 0,
        },
    )
}

/// Which kinds of items are searched on remote providers.
#[derive(Clone, Copy, PartialEq, Eq, Structural, Debug)]
pub struct RemoteSearch {
    pub movies: bool,
    pub series: bool,
    pub tracks: bool,
    pub albums: bool,
    pub artists: bool,
}

/// The remote-search toggles for the stored list: all on when there is no
/// list, else each kind on when it is listed.
pub open spec fn remote_search_of(list: Option<Seq<Seq<char>>>) -> RemoteSearch {
    match list {
        None => RemoteSearch { movies: true, series: true, tracks: true, albums: true, artists: true },
        Some(l) => RemoteSearch {
            movies: l.contains("movie"@),
            series: l.contains("series"@),
            tracks: l.contains("track"@),
            albums: l.contains("album"@),
            artists: l.contains("artist"@),
        },
    }
}

/// The stored list for the toggles: people always, then each kind that is
/// on, in a fixed order.
pub open spec fn remote_search_list(r: RemoteSearch) -> Seq<Seq<char>> {
    seq!["person"@] + (if r.movies {
        seq!["movie"@]
    } else {
        Seq::empty()
    }) + (if r.series {
        seq!["series"@]
    } else {
        Seq::empty()
    }) + (if r.tracks {
        seq!["track"@]
    } else {
        Seq::empty()
    }) + (if r.albums {
        seq!["album"@]
    } else {
        Seq::empty()
    }) + (if r.artists {
        seq!["artist"@]
    } else {
        Seq::empty()
    })
}

/// The remote-search toggles for the stored list.
pub fn remote_search_form(list: Option<&Vec<String>>) -> (r: RemoteSearch)
    ensures
        r == remote_search_of(
            match list {
                Some(l) => Some(views(l@)),
                None => None,
            },
        ),
{
    match list {
        None => RemoteSearch { movies: true, series: true, tracks: true, albums: true, artists: true },
        Some(l) => RemoteSearch {
            movies: crate::chips::contains_str(l, "movie"),
            series: crate::chips::contains_str(l, "series"),
            tracks: crate::chips::contains_str(l, "track"),
            albums: crate::chips::contains_str(l, "album"),
            artists: crate::chips::contains_str(l, "artist"),
        },
    }
}

/// The stored list for the toggles.
pub fn remote_search_save(r: RemoteSearch) -> (v: Vec<String>)
    ensures
        views(v@) == remote_search_list(r),
{
    let mut v: Vec<String> = Vec::new();
    v.push(string_of(&chars_of("person")));
    if r.movies {
        v.push(string_of(&chars_of("movie")));
    }
    if r.series {
        v.push(string_of(&chars_of("series")));
    }
    if r.tracks {
        v.push(string_of(&chars_of("track")));
    }
    if r.albums {
        v.push(string_of(&chars_of("album")));
    }
    if r.artists {
        v.push(string_of(&chars_of("artist")));
    }
    assert(views(v@) =~= remote_search_list(r));
    v
}

/// Saving the remote-search toggles and loading them again gives the same
/// toggles.
pub proof fn law_remote_search_roundtrip(r: RemoteSearch)
    ensures
        remote_search_of(Some(remote_search_list(r))) == r,
{
    reveal_strlit("person");
    reveal_strlit("movie");
    reveal_strlit("series");
    reveal_strlit("track");
    reveal_strlit("album");
    reveal_strlit("artist");
    let l = remote_search_list(r);
    let names = seq!["person"@, "movie"@, "series"@, "track"@, "album"@, "artist"@];
    assert forall|k: int| 0 <= k < l.len() implies names.contains(#[trigger] l[k]) by {
        assert(names[0] == "person"@);
        assert(names[1] == "movie"@);
        assert(names[2] == "series"@);
        assert(names[3] == "track"@);
        assert(names[4] == "album"@);
        assert(names[5] == "artist"@);
    }
    assert("movie"@ != "person"@ && "movie"@ != "series"@ && "movie"@ != "track"@ && "movie"@ != "album"@ && "movie"@ != "artist"@) by {
        assert("movie"@.len() != "person"@.len());
        assert("movie"@.len() != "series"@.len());
        assert("movie"@[0] != "track"@[0]);
        assert("movie"@[0] != "album"@[0]);
        assert("movie"@.len() != "artist"@.len());
    }
    assert("series"@ != "person"@ && "series"@ != "track"@ && "series"@ != "album"@ && "series"@ != "artist"@) by {
        assert("series"@[0] != "person"@[0]);
        assert("series"@.len() != "track"@.len());
        assert("series"@.len() != "album"@.len());
        assert("series"@[0] != "artist"@[0]);
    }
    assert("track"@ != "person"@ && "track"@ != "album"@ && "track"@ != "artist"@) by {
        assert("track"@.len() != "person"@.len());
        assert("track"@[0] != "album"@[0]);
        assert("track"@.len() != "artist"@.len());
    }
    assert("album"@ != "person"@ && "album"@ != "artist"@) by {
        assert("album"@.len() != "person"@.len());
        assert("album"@.len() != "artist"@.len());
    }
    assert("artist"@ != "person"@) by {
        assert("artist"@[0] != "person"@[0]);
    }
    if r.movies {
        assert(l.contains("movie"@)) by {
            assert(l[1] == "movie"@);
        }
    } else {
        assert(!l.contains("movie"@));
    }
    if r.series {
        let i = if r.movies { 2int } else { 1int };
        assert(l[i] == "series"@);
    } else {
        assert(!l.contains("series"@));
    }
    if r.tracks {
        let i = 1 + (if r.movies { 1int } else { 0 }) + (if r.series { 1int } else { 0 });
        assert(l[i] == "track"@);
    } else {
        assert(!l.contains("track"@));
    }
    if r.albums {
        let i = 1 + (if r.movies { 1int } else { 0 }) + (if r.series { 1int } else { 0 }) + (if r.tracks { 1int } else { 0 });
        assert(l[i] == "album"@);
    } else {
        assert(!l.contains("album"@));
    }
    if r.artists {
        let i = 1 + (if r.movies { 1int } else { 0 }) + (if r.series { 1int } else { 0 }) + (if r.tracks { 1int } else { 0 }) + (if r.albums { 1int } else { 0 });
        assert(l[i] == "artist"@);
    } else {
        assert(!l.contains("artist"@));
    }
}

/// The stored value of an optional text field: nothing when empty.
pub fn optional_text(typed: &str) -> (r: Option<String>)
    ensures
        match r {
            Some(s) => typed@.len() > 0 && s@ == typed@,
            None => typed@.len() == 0,
        },
{
    if typed.is_empty() {
        None
    } else {
        Some(string_of(&chars_of(typed)))
    }
}

/// Can the Jellyfin users be imported? Only with both the address and the
/// API key filled in, and no import running.
pub fn can_import_users(url: &str, api_key: &str, importing: bool) -> (b: bool)
    ensures
        b == (url@.len() > 0 && api_key@.len() > 0 && !importing),
{
    !url.is_empty() && !api_key.is_empty() && !importing
}

/// The playback settings a saved form sends: every value of the form, and
/// no VAAPI device or driver (the server then picks its own).
pub fn playback_payload(f: &PlaybackForm) -> (c: PlaybackSettings)
    ensures
        c.encoding_preset matches Some(t) && t@ == f.encoding_preset@,
        c.hw_accel == Some(f.hw_accel),
        c.auto_detect == Some(f.auto_detect),
        c.tonemapping == Some(f.tonemapping),
        c.vpp_tonemapping == Some(f.vpp_tonemapping),
        c.tonemapping_algorithm matches Some(t) && t@ == f.tonemapping_algorithm@,
        c.allow_hevc == Some(f.allow_hevc),
        c.allow_av1 == Some(f.allow_av1),
        c.h264_crf == Some(f.h264_crf),
        c.h265_crf == Some(f.h265_crf),
        c.vaapi_device is None,
        c.vaapi_driver is None,
{
    PlaybackSettings {
        encoding_preset: Some(string_of(&chars_of(f.encoding_preset.as_str()))),
        hw_accel: Some(f.hw_accel),
        auto_detect: Some(f.auto_detect),
        tonemapping: Some(f.tonemapping),
        vpp_tonemapping: Some(f.vpp_tonemapping),
        tonemapping_algorithm: Some(string_of(&chars_of(f.tonemapping_algorithm.as_str()))),
        allow_hevc: Some(f.allow_hevc),
        allow_av1: Some(f.allow_av1),
        h264_crf: Some(f.h264_crf),
        h265_crf: Some(f.h265_crf),
        vaapi_device: None,
        vaapi_driver: None,
    }
}

} // verus!
