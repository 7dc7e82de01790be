//! Autocomplete for filter-rule values: where the suggestions for a field
//! come from, and the (label, value) pairs made of the server's answers.

use vstd::prelude::*;
use crate::text::{chars_of, string_of, push_str, str_eq, lowercase, to_lower, views};
use crate::catalogs::{contains_sub, name_matches, strip_prefix_chars, strip_prefix_spec};

verus! {

/// Where the suggestions for a filter field come from.
#[derive(Clone, Copy, PartialEq, Eq, Structural, Debug)]
pub enum SuggestionSource {
    /// The library's own genres.
    Genres,
    /// The library's own studios.
    Studios,
    /// The library's own people.
    People,
    /// The tags in use.
    Tags,
    /// The catalogs of all addons.
    Catalogs,
    /// The certifications in use.
    Certifications,
    /// The known countries.
    Countries,
    /// No suggestions.
    Nothing,
}

/// Where the suggestions for a field come from.
pub open spec fn suggestion_source_spec(field: Seq<char>) -> SuggestionSource {
    if field == "genre"@ {
        SuggestionSource::Genres
    } else if field == "studio"@ {
        SuggestionSource::Studios
    } else if field == "person"@ {
        SuggestionSource::People
    } else if field == "tag"@ {
        SuggestionSource::Tags
    } else if field == "collection"@ {
        SuggestionSource::Catalogs
    } else if field == "certification"@ {
        SuggestionSource::Certifications
    } else if field == "country"@ {
        SuggestionSource::Countries
    } else {
        SuggestionSource::Nothing
    }
}

/// Where the suggestions for a field come from.
pub fn suggestion_source(field: &str) -> (r: SuggestionSource)
    ensures
        r == suggestion_source_spec(field@),
        crate::filters::is_set_field_spec(field@) <==> r != SuggestionSource::Nothing,
{
    if str_eq(field, "genre") {
        SuggestionSource::Genres
    } else if str_eq(field, "studio") {
        SuggestionSource::Studios
    } else if str_eq(field, "person") {
        SuggestionSource::People
    } else if str_eq(field, "tag") {
        SuggestionSource::Tags
    } else if str_eq(field, "collection") {
        SuggestionSource::Catalogs
    } else if str_eq(field, "certification") {
        SuggestionSource::Certifications
    } else if str_eq(field, "country") {
        SuggestionSource::Countries
    } else {
        SuggestionSource::Nothing
    }
}

/// The kind of library item a local suggestion source asks for.
pub fn local_kind(source: SuggestionSource) -> (r: Option<&'static str>)
    ensures
        r matches Some(k) ==> (source == SuggestionSource::Genres && k@ == "Genre"@) || (source
            == SuggestionSource::Studios && k@ == "Studio"@) || (source == SuggestionSource::People
            && k@ == "Person"@),
        r is None <==> !(source == SuggestionSource::Genres || source == SuggestionSource::Studios
            || source == SuggestionSource::People),
{
    match source {
        SuggestionSource::Genres => Some("Genre"),
        SuggestionSource::Studios => Some("Studio"),
        SuggestionSource::People => Some("Person"),
        _ => None,
    }
}

/// A suggestion: the label shown and the value stored.
pub struct Suggestion {
    pub label: String,
    pub value: String,
}

/// The views of suggestions.
pub open spec fn suggestion_views(s: Seq<Suggestion>) -> Seq<(Seq<char>, Seq<char>)> {
    s.map_values(|x: Suggestion| (x.label@, x.value@))
}

/// The names the server returned, as suggestions whose label and value are
/// the name; items without a name are skipped.
pub open spec fn named_suggestions_spec(names: Seq<Option<String>>) -> Seq<(Seq<char>, Seq<char>)>
    decreases names.len(),
{
    if names.len() == 0 {
        Seq::empty()
    } else {
        let rest = named_suggestions_spec(names.drop_last());
        match names.last() {
            Some(n) => rest.push((n@, n@)),
            None => rest,
        }
    }
}

/// The names the server returned, as suggestions.
pub fn named_suggestions(names: &Vec<Option<String>>) -> (r: Vec<Suggestion>)
    ensures
        suggestion_views(r@) == named_suggestions_spec(names@),
{
    let mut out: Vec<Suggestion> = Vec::new();
    let mut i: usize = 0;
    while i < names.len()
        invariant
            i <= names@.len(),
            suggestion_views(out@) == named_suggestions_spec(names@.take(i as int)),
        decreases names@.len() - i,
    {
        proof {
            assert(names@.take(i + 1).drop_last() =~= names@.take(i as int));
            assert(names@.take(i + 1).last() == names@[i as int]);
        }
        match &names[i] {
            Some(n) => {
                let ghost before = out@;
                out.push(Suggestion { label: n.clone(), value: n.clone() });
                assert(suggestion_views(out@) =~= suggestion_views(before).push((n@, n@)));
            },
            None => {},
        }
        i = i + 1;
    }
    assert(names@.take(i as int) == names@);
    out
}

/// The label of a catalog suggestion, `{addon}: {catalog}`.
pub open spec fn catalog_label_spec(addon: Seq<char>, catalog: Seq<char>) -> Seq<char> {
    addon + ": "@ + catalog
}

/// The catalog suggestion for a typed query: the label `{addon}: {catalog}`
/// when, lower-cased, it contains the lower-cased query, with the catalog id
/// without its `addon:` prefix as the value.
pub fn catalog_suggestion(addon: &str, catalog: &str, catalog_id: &str, query: &str) -> (r: Option<
    Suggestion,
>)
    ensures
        match r {
            Some(s) => {
                &&& (lowercase(query@).len() == 0 || contains_sub(
                    lowercase(catalog_label_spec(addon@, catalog@)),
                    lowercase(query@),
                ))
                &&& s.label@ == catalog_label_spec(addon@, catalog@)
                &&& s.value@ == strip_prefix_spec(catalog_id@, "addon:"@)
            },
            None => !(lowercase(query@).len() == 0 || contains_sub(
                lowercase(catalog_label_spec(addon@, catalog@)),
                lowercase(query@),
            )),
        },
{
    let mut label: Vec<char> = Vec::new();
    push_str(&mut label, addon);
    push_str(&mut label, ": ");
    push_str(&mut label, catalog);
    let label = string_of(&label);
    let l = to_lower(label.as_str());
    let q = to_lower(query);
    if !name_matches(l.as_str(), q.as_str()) {
        return None;
    }
    Some(Suggestion { label, value: catalog_value(catalog_id) })
}

/// The value a catalog is stored under in a collection rule: its id
/// without the `addon:` prefix.
pub fn catalog_value(catalog_id: &str) -> (r: String)
    ensures
        r@ == strip_prefix_spec(catalog_id@, "addon:"@),
{
    string_of(&strip_prefix_chars(&chars_of(catalog_id), &chars_of("addon:")))
}

/// A country the server knows: its name and two-letter code.
pub struct Country {
    pub name: String,
    pub code: String,
}

/// The country matches a query: its name or code, lower-cased, contains the
/// lower-cased query.
pub open spec fn country_matches(c: Country, query: Seq<char>) -> bool {
    let q = lowercase(query);
    q.len() == 0 || contains_sub(lowercase(c.name@), q) || contains_sub(lowercase(c.code@), q)
}

/// The label of a country suggestion, `{name} ({code})`.
pub open spec fn country_label_spec(c: Country) -> Seq<char> {
    c.name@ + " ("@ + c.code@ + ")"@
}

/// The country suggestions for a query: the matching countries, in order,
/// at most 25, labelled `{name} ({code})`, the code as the value.
pub open spec fn country_suggestions_spec(countries: Seq<Country>, query: Seq<char>) -> Seq<
    (Seq<char>, Seq<char>),
>
    decreases countries.len(),
{
    if countries.len() == 0 {
        Seq::empty()
    } else {
        let rest = country_suggestions_spec(countries.drop_last(), query);
        let c = countries.last();
        if country_matches(c, query) {
            rest.push((country_label_spec(c), c.code@))
        } else {
            rest
        }
    }
}

/// The country suggestions for a query.
pub fn country_suggestions(countries: &Vec<Country>, query: &str) -> (r: Vec<Suggestion>)
    ensures
        suggestion_views(r@) == country_suggestions_spec(countries@, query@).take(
            if country_suggestions_spec(countries@, query@).len() < 25 {
                country_suggestions_spec(countries@, query@).len() as int
            } else {
                25
            },
        ),
{
    let q = to_lower(query);
    let mut out: Vec<Suggestion> = Vec::new();
    let mut i: usize = 0;
    while i < countries.len() && out.len() < 25
        invariant
            i <= countries@.len(),
            q@ == lowercase(query@),
            out@.len() <= 25,
            suggestion_views(out@) == country_suggestions_spec(countries@.take(i as int), query@),
        decreases countries@.len() - i,
    {
        let c = &countries[i];
        proof {
            assert(countries@.take(i + 1).drop_last() =~= countries@.take(i as int));
            assert(countries@.take(i + 1).last() == countries@[i as int]);
        }
        let name_l = to_lower(c.name.as_str());
        let code_l = to_lower(c.code.as_str());
        if name_matches(name_l.as_str(), q.as_str()) || name_matches(code_l.as_str(), q.as_str()) {
            let mut label: Vec<char> = Vec::new();
            push_str(&mut label, c.name.as_str());
            push_str(&mut label, " (");
            push_str(&mut label, c.code.as_str());
            push_str(&mut label, ")");
            let ghost before = out@;
            out.push(Suggestion { label: string_of(&label), value: c.code.clone() });
            assert(suggestion_views(out@) =~= suggestion_views(before).push((country_label_spec(*c), c.code@)));
        }
        i = i + 1;
    }
    proof {
        lemma_country_prefix(countries@, query@, i as int);
        let all = country_suggestions_spec(countries@, query@);
        if out@.len() < 25 {
            assert(countries@.take(i as int) =~= countries@);
            assert(all.take(all.len() as int) =~= all);
        } else {
            assert(all.take(25) =~= country_suggestions_spec(countries@.take(i as int), query@));
        }
    }
    out
}

proof fn lemma_country_prefix(countries: Seq<Country>, query: Seq<char>, i: int)
    requires
        0 <= i <= countries.len(),
    ensures
        country_suggestions_spec(countries.take(i), query).len() <= country_suggestions_spec(countries, query).len(),
        country_suggestions_spec(countries, query).take(
            country_suggestions_spec(countries.take(i), query).len() as int,
        ) == country_suggestions_spec(countries.take(i), query),
    decreases countries.len() - i,
{
    if i < countries.len() {
        lemma_country_prefix(countries, query, i + 1);
        let a = country_suggestions_spec(countries.take(i), query);
        let b = country_suggestions_spec(countries.take(i + 1), query);
        assert(countries.take(i + 1).drop_last() =~= countries.take(i));
        let all = country_suggestions_spec(countries, query);
        assert(b.take(a.len() as int) =~= a);
        assert(all.take(a.len() as int) =~= all.take(b.len() as int).take(a.len() as int));
    } else {
        assert(countries.take(i) =~= countries);
        let all = country_suggestions_spec(countries, query);
        assert(all.take(all.len() as int) =~= all);
    }
}

/// Every field whose value is a set of strings gets suggestions, each from
/// its own source, and no other field gets any: genres, studios and people
/// from the library, tags from the tags in use, collections from the addon
/// catalogs, certifications from those in use, countries from the known
/// countries.
pub proof fn law_suggestion_sources(f: Seq<char>, g: Seq<char>)
    ensures
        crate::filters::is_set_field_spec(f) <==> suggestion_source_spec(f)
            != SuggestionSource::Nothing,
        crate::filters::is_set_field_spec(f) && crate::filters::is_set_field_spec(g) && f != g
            ==> suggestion_source_spec(f) != suggestion_source_spec(g),
        suggestion_source_spec("genre"@) == SuggestionSource::Genres,
        suggestion_source_spec("studio"@) == SuggestionSource::Studios,
        suggestion_source_spec("person"@) == SuggestionSource::People,
        suggestion_source_spec("tag"@) == SuggestionSource::Tags,
        suggestion_source_spec("collection"@) == SuggestionSource::Catalogs,
        suggestion_source_spec("certification"@) == SuggestionSource::Certifications,
        suggestion_source_spec("country"@) == SuggestionSource::Countries,
{
    reveal_strlit("genre");
    reveal_strlit("studio");
    reveal_strlit("person");
    reveal_strlit("tag");
    reveal_strlit("collection");
    reveal_strlit("certification");
    reveal_strlit("country");
    assert("genre"@.len() == 5 && "studio"@.len() == 6 && "person"@.len() == 6);
    assert("tag"@.len() == 3 && "collection"@.len() == 10 && "certification"@.len() == 13);
    assert("country"@.len() == 7);
    assert("studio"@[0] != "person"@[0]);
}

} // verus!
