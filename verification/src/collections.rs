//! Library collections: media kinds, collection types and kinds, the labels
//! the collection list shows, and the decisions of the collection form
//! (initial values, which sections show, the default-sort payload).

use vstd::prelude::*;
use crate::text::str_eq;

verus! {

/// The media kind of a collection or catalog as the server reports it.
/// `Other` stands for any kind the dashboard has no collection type for.
#[derive(Clone, Copy, PartialEq, Eq, Structural, Debug)]
pub enum MediaKind {
    Movie,
    Series,
    Mixed,
    Track,
    Collection,
    Other,
}

/// The Jellyfin collection type of a library folder. `Other` stands for the
/// types the dashboard does not name.
#[derive(Clone, Copy, PartialEq, Eq, Structural, Debug)]
pub enum CollectionType {
    Movies,
    Tvshows,
    Mixed,
    Music,
    Boxsets,
    Other,
}

/// How a collection gets its items.
#[derive(Clone, Copy, PartialEq, Eq, Structural, Debug)]
pub enum CollectionKind {
    Smart,
    Manual,
    Catalog,
}

/// The collection-type key of the form (`movies`, `tvshows`, `mixed`,
/// `music`, `collections`) for a media kind; `movies` when unknown.
pub open spec fn type_key_for_kind(kind: Option<MediaKind>) -> Seq<char> {
    match kind {
        Some(MediaKind::Series) => "tvshows"@,
        Some(MediaKind::Mixed) => "mixed"@,
        Some(MediaKind::Track) => "music"@,
        Some(MediaKind::Collection) => "collections"@,
        _ => "movies"@,
    }
}

/// The collection-type key the server expects for a media kind (`movies`
/// when the kind is unknown).
pub fn collection_type_for(kind: Option<MediaKind>) -> (r: &'static str)
    ensures
        r@ == type_key_for_kind(kind),
{
    match kind {
        Some(MediaKind::Series) => "tvshows",
        Some(MediaKind::Mixed) => "mixed",
        Some(MediaKind::Track) => "music",
        Some(MediaKind::Collection) => "collections",
        _ => "movies",
    }
}

/// The form key for a legacy collection type (mixed and unnamed types fall
/// back to `movies`).
pub open spec fn type_key_for_collection_type(ct: CollectionType) -> Seq<char> {
    match ct {
        CollectionType::Tvshows => "tvshows"@,
        CollectionType::Music => "music"@,
        CollectionType::Boxsets => "collections"@,
        _ => "movies"@,
    }
}

/// The media-kind key the collection form starts with: the collection's own
/// media kind when it has one, else its legacy collection type, else `movies`.
pub open spec fn initial_type_key_spec(kind: Option<MediaKind>, ct: Option<CollectionType>) -> Seq<char> {
    match kind {
        Some(k) => type_key_for_kind(Some(k)),
        None => match ct {
            Some(c) => type_key_for_collection_type(c),
            None => "movies"@,
        },
    }
}

/// The media-kind key the collection form starts with.
pub fn initial_type_key(kind: Option<MediaKind>, ct: Option<CollectionType>) -> (r: &'static str)
    ensures
        r@ == initial_type_key_spec(kind, ct),
{
    match kind {
        Some(k) => collection_type_for(Some(k)),
        None => match ct {
            Some(CollectionType::Tvshows) => "tvshows",
            Some(CollectionType::Music) => "music",
            Some(CollectionType::Boxsets) => "collections",
            _ => "movies",
        },
    }
}

/// The label the collection list shows for a collection type.
pub open spec fn collection_type_label_spec(ct: Option<CollectionType>) -> Seq<char> {
    match ct {
        Some(CollectionType::Movies) => "Movies"@,
        Some(CollectionType::Tvshows) => "Shows"@,
        Some(CollectionType::Mixed) => "Mixed"@,
        Some(CollectionType::Music) => "Music"@,
        Some(CollectionType::Boxsets) => "Collections"@,
        _ => "Unknown"@,
    }
}

/// The label the collection list shows for a collection type.
pub fn collection_type_label(ct: Option<CollectionType>) -> (r: &'static str)
    ensures
        r@ == collection_type_label_spec(ct),
{
    match ct {
        Some(CollectionType::Movies) => "Movies",
        Some(CollectionType::Tvshows) => "Shows",
        Some(CollectionType::Mixed) => "Mixed",
        Some(CollectionType::Music) => "Music",
        Some(CollectionType::Boxsets) => "Collections",
        _ => "Unknown",
    }
}

/// The badge the collection list shows for a collection kind (none when the
/// kind is unknown).
pub open spec fn collection_kind_label_spec(k: Option<CollectionKind>) -> Seq<char> {
    match k {
        Some(CollectionKind::Smart) => "Smart"@,
        Some(CollectionKind::Manual) => "Manual"@,
        Some(CollectionKind::Catalog) => "Catalog"@,
        None => ""@,
    }
}

/// The badge the collection list shows for a collection kind.
pub fn collection_kind_label(k: Option<CollectionKind>) -> (r: &'static str)
    ensures
        r@ == collection_kind_label_spec(k),
{
    match k {
        Some(CollectionKind::Smart) => "Smart",
        Some(CollectionKind::Manual) => "Manual",
        Some(CollectionKind::Catalog) => "Catalog",
        None => "",
    }
}

/// The key of a collection kind (`smart`, `manual`, `catalog`).
pub open spec fn kind_key_spec(k: CollectionKind) -> Seq<char> {
    match k {
        CollectionKind::Smart => "smart"@,
        CollectionKind::Manual => "manual"@,
        CollectionKind::Catalog => "catalog"@,
    }
}

/// The collection-kind key the form starts with: the collection's own kind,
/// `smart` for a new collection.
pub fn initial_kind_key(k: Option<CollectionKind>) -> (r: &'static str)
    ensures
        r@ == match k {
            Some(kind) => kind_key_spec(kind),
            None => "smart"@,
        },
{
    match k {
        Some(CollectionKind::Smart) => "smart",
        Some(CollectionKind::Manual) => "manual",
        Some(CollectionKind::Catalog) => "catalog",
        None => "smart",
    }
}

/// Does a collection of this kind carry a smart filter (`smart` or `catalog`)?
pub fn uses_smart_filter(kind_key: &str) -> (b: bool)
    ensures
        b == (kind_key@ == "smart"@ || kind_key@ == "catalog"@),
{
    str_eq(kind_key, "smart") || str_eq(kind_key, "catalog")
}

/// Is the collection-kind selector shown? Not for a collection of
/// collections.
pub fn shows_kind_select(type_key: &str) -> (b: bool)
    ensures
        b == (type_key@ != "collections"@),
{
    !str_eq(type_key, "collections")
}

/// Are the filter editor and the default-sort override shown? For smart and
/// catalog collections that are not collections of collections.
pub fn shows_filter_editor(kind_key: &str, type_key: &str) -> (b: bool)
    ensures
        b == ((kind_key@ == "smart"@ || kind_key@ == "catalog"@) && type_key@ != "collections"@),
{
    uses_smart_filter(kind_key) && shows_kind_select(type_key)
}

/// The sort keys the default-sort override offers.
#[derive(Clone, Copy, PartialEq, Eq, Structural, Debug)]
pub enum SortKey {
    CatalogOrder,
    SortName,
    PremiereDate,
    DigitalReleaseDate,
    DateCreated,
    CommunityRating,
    PopularityDay,
    PopularityWeek,
    PopularityMonth,
    PopularityAllTime,
    TrendingWeek,
    TrendingMonth,
    Random,
}

/// The direction of a sort.
#[derive(Clone, Copy, PartialEq, Eq, Structural, Debug)]
pub enum SortDirection {
    Ascending,
    Descending,
}

/// The stored name of a sort key.
pub open spec fn sort_key_name(k: SortKey) -> Seq<char> {
    match k {
        SortKey::CatalogOrder => "CatalogOrder"@,
        SortKey::SortName => "SortName"@,
        SortKey::PremiereDate => "PremiereDate"@,
        SortKey::DigitalReleaseDate => "DigitalReleaseDate"@,
        SortKey::DateCreated => "DateCreated"@,
        SortKey::CommunityRating => "CommunityRating"@,
        SortKey::PopularityDay => "PopularityDay"@,
        SortKey::PopularityWeek => "PopularityWeek"@,
        SortKey::PopularityMonth => "PopularityMonth"@,
        SortKey::PopularityAllTime => "PopularityAllTime"@,
        SortKey::TrendingWeek => "TrendingWeek"@,
        SortKey::TrendingMonth => "TrendingMonth"@,
        SortKey::Random => "Random"@,
    }
}

/// The sort key with this stored name, if any.
pub open spec fn sort_key_of(name: Seq<char>) -> Option<SortKey> {
    if name == "CatalogOrder"@ {
        Some(SortKey::CatalogOrder)
    } else if name == "SortName"@ {
        Some(SortKey::SortName)
    } else if name == "PremiereDate"@ {
        Some(SortKey::PremiereDate)
    } else if name == "DigitalReleaseDate"@ {
        Some(SortKey::DigitalReleaseDate)
    } else if name == "DateCreated"@ {
        Some(SortKey::DateCreated)
    } else if name == "CommunityRating"@ {
        Some(SortKey::CommunityRating)
    } else if name == "PopularityDay"@ {
        Some(SortKey::PopularityDay)
    } else if name == "PopularityWeek"@ {
        Some(SortKey::PopularityWeek)
    } else if name == "PopularityMonth"@ {
        Some(SortKey::PopularityMonth)
    } else if name == "PopularityAllTime"@ {
        Some(SortKey::PopularityAllTime)
    } else if name == "TrendingWeek"@ {
        Some(SortKey::TrendingWeek)
    } else if name == "TrendingMonth"@ {
        Some(SortKey::TrendingMonth)
    } else if name == "Random"@ {
        Some(SortKey::Random)
    } else {
        None
    }
}

/// The sort key with this stored name, if any.
pub fn parse_sort_key(name: &str) -> (r: Option<SortKey>)
    ensures
        r == sort_key_of(name@),
{
    if str_eq(name, "CatalogOrder") {
        Some(SortKey::CatalogOrder)
    } else if str_eq(name, "SortName") {
        Some(SortKey::SortName)
    } else if str_eq(name, "PremiereDate") {
        Some(SortKey::PremiereDate)
    } else if str_eq(name, "DigitalReleaseDate") {
        Some(SortKey::DigitalReleaseDate)
    } else if str_eq(name, "DateCreated") {
        Some(SortKey::DateCreated)
    } else if str_eq(name, "CommunityRating") {
        Some(SortKey::CommunityRating)
    } else if str_eq(name, "PopularityDay") {
        Some(SortKey::PopularityDay)
    } else if str_eq(name, "PopularityWeek") {
        Some(SortKey::PopularityWeek)
    } else if str_eq(name, "PopularityMonth") {
        Some(SortKey::PopularityMonth)
    } else if str_eq(name, "PopularityAllTime") {
        Some(SortKey::PopularityAllTime)
    } else if str_eq(name, "TrendingWeek") {
        Some(SortKey::TrendingWeek)
    } else if str_eq(name, "TrendingMonth") {
        Some(SortKey::TrendingMonth)
    } else if str_eq(name, "Random") {
        Some(SortKey::Random)
    } else {
        None
    }
}

/// The stored name of a sort key.
pub fn sort_key_str(k: SortKey) -> (r: &'static str)
    ensures
        r@ == sort_key_name(k),
{
    match k {
        SortKey::CatalogOrder => "CatalogOrder",
        SortKey::SortName => "SortName",
        SortKey::PremiereDate => "PremiereDate",
        SortKey::DigitalReleaseDate => "DigitalReleaseDate",
        SortKey::DateCreated => "DateCreated",
        SortKey::CommunityRating => "CommunityRating",
        SortKey::PopularityDay => "PopularityDay",
        SortKey::PopularityWeek => "PopularityWeek",
        SortKey::PopularityMonth => "PopularityMonth",
        SortKey::PopularityAllTime => "PopularityAllTime",
        SortKey::TrendingWeek => "TrendingWeek",
        SortKey::TrendingMonth => "TrendingMonth",
        SortKey::Random => "Random",
    }
}

/// The sort direction with this name; anything but `Descending` reads as
/// ascending.
pub fn parse_sort_direction(name: &str) -> (r: SortDirection)
    ensures
        r == (if name@ == "Descending"@ {
            SortDirection::Descending
        } else {
            SortDirection::Ascending
        }),
{
    if str_eq(name, "Descending") {
        SortDirection::Descending
    } else {
        SortDirection::Ascending
    }
}

/// The sort the form saves: the chosen key and direction as one-element
/// lists, empty lists to clear the override when no key is chosen, and
/// nothing at all (leave the stored sort alone) when the key is not known.
pub open spec fn default_sort_payload_spec(sort: Seq<char>, order: Seq<char>) -> (
    Option<Seq<SortKey>>,
    Option<Seq<SortDirection>>,
) {
    if sort.len() == 0 {
        (Some(Seq::empty()), Some(Seq::empty()))
    } else {
        match sort_key_of(sort) {
            Some(k) => (
                Some(seq![k]),
                Some(
                    seq![if order == "Descending"@ {
                        SortDirection::Descending
                    } else {
                        SortDirection::Ascending
                    }],
                ),
            ),
            None => (None, None),
        }
    }
}

/// The default-sort fields of the saved collection.
pub fn default_sort_payload(sort: &str, order: &str) -> (r: (
    Option<Vec<SortKey>>,
    Option<Vec<SortDirection>>,
))
    ensures
        (match r.0 {
            Some(v) => Some(v@),
            None => None,
        }, match r.1 {
            Some(v) => Some(v@),
            None => None,
        }) == default_sort_payload_spec(sort@, order@),
{
    if sort.is_empty() {
        let a: Vec<SortKey> = Vec::new();
        let b: Vec<SortDirection> = Vec::new();
        assert(a@ =~= Seq::<SortKey>::empty());
        assert(b@ =~= Seq::<SortDirection>::empty());
        (Some(a), Some(b))
    } else {
        match parse_sort_key(sort) {
            Some(k) => {
                let d = parse_sort_direction(order);
                let a = vec![k];
                let b = vec![d];
                assert(a@ =~= seq![k]);
                assert(b@ =~= seq![d]);
                (Some(a), Some(b))
            },
            None => (None, None),
        }
    }
}

/// The sort direction the form starts with: the stored one, else descending.
pub fn initial_sort_direction(stored: Option<SortDirection>) -> (r: SortDirection)
    ensures
        r == match stored {
            Some(d) => d,
            None => SortDirection::Descending,
        },
{
    match stored {
        Some(d) => d,
        None => SortDirection::Descending,
    }
}

/// Is the direction selector shown next to the sort key? Only when a key
/// other than `Random` is chosen.
pub fn shows_sort_direction(sort: &str) -> (b: bool)
    ensures
        b == (sort@.len() > 0 && sort@ != "Random"@),
{
    !sort.is_empty() && !str_eq(sort, "Random")
}

/// The sort keys the override selector offers, in order; catalog order only
/// when the filter has a catalog rule.
pub open spec fn sort_choices_spec(has_catalog_rule: bool) -> Seq<SortKey> {
    let rest = seq![
        SortKey::SortName,
        SortKey::PremiereDate,
        SortKey::DigitalReleaseDate,
        SortKey::DateCreated,
        SortKey::CommunityRating,
        SortKey::PopularityDay,
        SortKey::PopularityWeek,
        SortKey::PopularityMonth,
        SortKey::PopularityAllTime,
        SortKey::TrendingWeek,
        SortKey::TrendingMonth,
        SortKey::Random,
    ];
    if has_catalog_rule {
        seq![SortKey::CatalogOrder] + rest
    } else {
        rest
    }
}

/// The sort keys the override selector offers.
pub fn sort_choices(has_catalog_rule: bool) -> (r: Vec<SortKey>)
    ensures
        r@ == sort_choices_spec(has_catalog_rule),
{
    let mut v: Vec<SortKey> = Vec::new();
    if has_catalog_rule {
        v.push(SortKey::CatalogOrder);
    }
    v.push(SortKey::SortName);
    v.push(SortKey::PremiereDate);
    v.push(SortKey::DigitalReleaseDate);
    v.push(SortKey::DateCreated);
    v.push(SortKey::CommunityRating);
    v.push(SortKey::PopularityDay);
    v.push(SortKey::PopularityWeek);
    v.push(SortKey::PopularityMonth);
    v.push(SortKey::PopularityAllTime);
    v.push(SortKey::TrendingWeek);
    v.push(SortKey::TrendingMonth);
    v.push(SortKey::Random);
    assert(v@ =~= sort_choices_spec(has_catalog_rule));
    v
}

/// A stored sort key name, read back, gives the key again.
pub proof fn law_sort_key_roundtrip(k: SortKey)
    ensures
        sort_key_of(sort_key_name(k)) == Some(k),
{
    match k {
        SortKey::CatalogOrder => {
            reveal_strlit("CatalogOrder");
        },
        SortKey::SortName => {
            reveal_strlit("SortName");
            reveal_strlit("CatalogOrder");
            assert("SortName"@.len() != "CatalogOrder"@.len());
        },
        SortKey::PremiereDate => {
            reveal_strlit("PremiereDate");
            reveal_strlit("CatalogOrder");
            assert("PremiereDate"@[0] != "CatalogOrder"@[0]);
            reveal_strlit("SortName");
            assert("PremiereDate"@.len() != "SortName"@.len());
        },
        SortKey::DigitalReleaseDate => {
            reveal_strlit("DigitalReleaseDate");
            reveal_strlit("CatalogOrder");
            assert("DigitalReleaseDate"@.len() != "CatalogOrder"@.len());
            reveal_strlit("SortName");
            assert("DigitalReleaseDate"@.len() != "SortName"@.len());
            reveal_strlit("PremiereDate");
            assert("DigitalReleaseDate"@.len() != "PremiereDate"@.len());
        },
        SortKey::DateCreated => {
            reveal_strlit("DateCreated");
            reveal_strlit("CatalogOrder");
            assert("DateCreated"@.len() != "CatalogOrder"@.len());
            reveal_strlit("SortName");
            assert("DateCreated"@.len() != "SortName"@.len());
            reveal_strlit("PremiereDate");
            assert("DateCreated"@.len() != "PremiereDate"@.len());
            reveal_strlit("DigitalReleaseDate");
            assert("DateCreated"@.len() != "DigitalReleaseDate"@.len());
        },
        SortKey::CommunityRating => {
            reveal_strlit("CommunityRating");
            reveal_strlit("CatalogOrder");
            assert("CommunityRating"@.len() != "CatalogOrder"@.len());
            reveal_strlit("SortName");
            assert("CommunityRating"@.len() != "SortName"@.len());
            reveal_strlit("PremiereDate");
            assert("CommunityRating"@.len() != "PremiereDate"@.len());
            reveal_strlit("DigitalReleaseDate");
            assert("CommunityRating"@.len() != "DigitalReleaseDate"@.len());
            reveal_strlit("DateCreated");
            assert("CommunityRating"@.len() != "DateCreated"@.len());
        },
        SortKey::PopularityDay => {
            reveal_strlit("PopularityDay");
            reveal_strlit("CatalogOrder");
            assert("PopularityDay"@.len() != "CatalogOrder"@.len());
            reveal_strlit("SortName");
            assert("PopularityDay"@.len() != "SortName"@.len());
            reveal_strlit("PremiereDate");
            assert("PopularityDay"@.len() != "PremiereDate"@.len());
            reveal_strlit("DigitalReleaseDate");
            assert("PopularityDay"@.len() != "DigitalReleaseDate"@.len());
            reveal_strlit("DateCreated");
            assert("PopularityDay"@.len() != "DateCreated"@.len());
            reveal_strlit("CommunityRating");
            assert("PopularityDay"@.len() != "CommunityRating"@.len());
        },
        SortKey::PopularityWeek => {
            reveal_strlit("PopularityWeek");
            reveal_strlit("CatalogOrder");
            assert("PopularityWeek"@.len() != "CatalogOrder"@.len());
            reveal_strlit("SortName");
            assert("PopularityWeek"@.len() != "SortName"@.len());
            reveal_strlit("PremiereDate");
            assert("PopularityWeek"@.len() != "PremiereDate"@.len());
            reveal_strlit("DigitalReleaseDate");
            assert("PopularityWeek"@.len() != "DigitalReleaseDate"@.len());
            reveal_strlit("DateCreated");
            assert("PopularityWeek"@.len() != "DateCreated"@.len());
            reveal_strlit("CommunityRating");
            assert("PopularityWeek"@.len() != "CommunityRating"@.len());
            reveal_strlit("PopularityDay");
            assert("PopularityWeek"@.len() != "PopularityDay"@.len());
        },
        SortKey::PopularityMonth => {
            reveal_strlit("PopularityMonth");
            reveal_strlit("CatalogOrder");
            assert("PopularityMonth"@.len() != "CatalogOrder"@.len());
            reveal_strlit("SortName");
            assert("PopularityMonth"@.len() != "SortName"@.len());
            reveal_strlit("PremiereDate");
            assert("PopularityMonth"@.len() != "PremiereDate"@.len());
            reveal_strlit("DigitalReleaseDate");
            assert("PopularityMonth"@.len() != "DigitalReleaseDate"@.len());
            reveal_strlit("DateCreated");
            assert("PopularityMonth"@.len() != "DateCreated"@.len());
            reveal_strlit("CommunityRating");
            assert("PopularityMonth"@[0] != "CommunityRating"@[0]);
            reveal_strlit("PopularityDay");
            assert("PopularityMonth"@.len() != "PopularityDay"@.len());
            reveal_strlit("PopularityWeek");
            assert("PopularityMonth"@.len() != "PopularityWeek"@.len());
        },
        SortKey::PopularityAllTime => {
            reveal_strlit("PopularityAllTime");
            reveal_strlit("CatalogOrder");
            assert("PopularityAllTime"@.len() != "CatalogOrder"@.len());
            reveal_strlit("SortName");
            assert("PopularityAllTime"@.len() != "SortName"@.len());
            reveal_strlit("PremiereDate");
            assert("PopularityAllTime"@.len() != "PremiereDate"@.len());
            reveal_strlit("DigitalReleaseDate");
            assert("PopularityAllTime"@.len() != "DigitalReleaseDate"@.len());
            reveal_strlit("DateCreated");
            assert("PopularityAllTime"@.len() != "DateCreated"@.len());
            reveal_strlit("CommunityRating");
            assert("PopularityAllTime"@.len() != "CommunityRating"@.len());
            reveal_strlit("PopularityDay");
            assert("PopularityAllTime"@.len() != "PopularityDay"@.len());
            reveal_strlit("PopularityWeek");
            assert("PopularityAllTime"@.len() != "PopularityWeek"@.len());
            reveal_strlit("PopularityMonth");
            assert("PopularityAllTime"@.len() != "PopularityMonth"@.len());
        },
        SortKey::TrendingWeek => {
            reveal_strlit("TrendingWeek");
            reveal_strlit("CatalogOrder");
            assert("TrendingWeek"@[0] != "CatalogOrder"@[0]);
            reveal_strlit("SortName");
            assert("TrendingWeek"@.len() != "SortName"@.len());
            reveal_strlit("PremiereDate");
            assert("TrendingWeek"@[0] != "PremiereDate"@[0]);
            reveal_strlit("DigitalReleaseDate");
            assert("TrendingWeek"@.len() != "DigitalReleaseDate"@.len());
            reveal_strlit("DateCreated");
            assert("TrendingWeek"@.len() != "DateCreated"@.len());
            reveal_strlit("CommunityRating");
            assert("TrendingWeek"@.len() != "CommunityRating"@.len());
            reveal_strlit("PopularityDay");
            assert("TrendingWeek"@.len() != "PopularityDay"@.len());
            reveal_strlit("PopularityWeek");
            assert("TrendingWeek"@.len() != "PopularityWeek"@.len());
            reveal_strlit("PopularityMonth");
            assert("TrendingWeek"@.len() != "PopularityMonth"@.len());
            reveal_strlit("PopularityAllTime");
            assert("TrendingWeek"@.len() != "PopularityAllTime"@.len());
        },
        SortKey::TrendingMonth => {
            reveal_strlit("TrendingMonth");
            reveal_strlit("CatalogOrder");
            assert("TrendingMonth"@.len() != "CatalogOrder"@.len());
            reveal_strlit("SortName");
            assert("TrendingMonth"@.len() != "SortName"@.len());
            reveal_strlit("PremiereDate");
            assert("TrendingMonth"@.len() != "PremiereDate"@.len());
            reveal_strlit("DigitalReleaseDate");
            assert("TrendingMonth"@.len() != "DigitalReleaseDate"@.len());
            reveal_strlit("DateCreated");
            assert("TrendingMonth"@.len() != "DateCreated"@.len());
            reveal_strlit("CommunityRating");
            assert("TrendingMonth"@.len() != "CommunityRating"@.len());
            reveal_strlit("PopularityDay");
            assert("TrendingMonth"@[0] != "PopularityDay"@[0]);
            reveal_strlit("PopularityWeek");
            assert("TrendingMonth"@.len() != "PopularityWeek"@.len());
            reveal_strlit("PopularityMonth");
            assert("TrendingMonth"@.len() != "PopularityMonth"@.len());
            reveal_strlit("PopularityAllTime");
            assert("TrendingMonth"@.len() != "PopularityAllTime"@.len());
            reveal_strlit("TrendingWeek");
            assert("TrendingMonth"@.len() != "TrendingWeek"@.len());
        },
        SortKey::Random => {
            reveal_strlit("Random");
            reveal_strlit("CatalogOrder");
            assert("Random"@.len() != "CatalogOrder"@.len());
            reveal_strlit("SortName");
            assert("Random"@.len() != "SortName"@.len());
            reveal_strlit("PremiereDate");
            assert("Random"@.len() != "PremiereDate"@.len());
            reveal_strlit("DigitalReleaseDate");
            assert("Random"@.len() != "DigitalReleaseDate"@.len());
            reveal_strlit("DateCreated");
            assert("Random"@.len() != "DateCreated"@.len());
            reveal_strlit("CommunityRating");
            assert("Random"@.len() != "CommunityRating"@.len());
            reveal_strlit("PopularityDay");
            assert("Random"@.len() != "PopularityDay"@.len());
            reveal_strlit("PopularityWeek");
            assert("Random"@.len() != "PopularityWeek"@.len());
            reveal_strlit("PopularityMonth");
            assert("Random"@.len() != "PopularityMonth"@.len());
            reveal_strlit("PopularityAllTime");
            assert("Random"@.len() != "PopularityAllTime"@.len());
            reveal_strlit("TrendingWeek");
            assert("Random"@.len() != "TrendingWeek"@.len());
            reveal_strlit("TrendingMonth");
            assert("Random"@.len() != "TrendingMonth"@.len());
        },
    }
}

/// What the collection form is open for: a new collection, or the
/// collection with this id.
#[derive(Clone, Copy, PartialEq, Eq, Structural, Debug)]
pub enum FormMode {
    Create,
    Edit(u128),
}

/// Are two form modes the same? Both for a new collection, or both for the
/// same collection.
pub fn same_form_mode(a: FormMode, b: FormMode) -> (r: bool)
    ensures
        r == match (a, b) {
            (FormMode::Create, FormMode::Create) => true,
            (FormMode::Edit(x), FormMode::Edit(y)) => x == y,
            _ => false,
        },
{
    match (a, b) {
        (FormMode::Create, FormMode::Create) => true,
        (FormMode::Edit(x), FormMode::Edit(y)) => x == y,
        _ => false,
    }
}

} // verus!
