use vstd::prelude::*;
use vstd::string::*;
use crate::file_name::{calc_filter_filename, filter_file_name, hex_lower, sha256};
use vstd::utf8::encode_utf8;
use crate::group::{group_name, group_of_name, lemma_group_name_round_trip, FilterGroup};
use crate::sources::{FilterSource, CECL_FILTER_SOURCES};
use crate::url_text::{parse_url, url_parse};

verus! {

/// A built-in filter list as offered to the user before it is configured.
#[derive(Debug, PartialEq, Eq)]
pub struct DefaultFilter {
    enabled_by_default: bool,
    file_name: String,
    group: String,
    title: String,
    url: String,
}

/// The contents of a `DefaultFilter`, as plain text.
pub struct DefaultFilterView {
    pub enabled_by_default: bool,
    pub file_name: Seq<char>,
    pub group: Seq<char>,
    pub title: Seq<char>,
    pub url: Seq<char>,
}

impl View for DefaultFilter {
    type V = DefaultFilterView;

    closed spec fn view(&self) -> DefaultFilterView {
        DefaultFilterView {
            enabled_by_default: self.enabled_by_default,
            file_name: self.file_name@,
            group: self.group@,
            title: self.title@,
            url: self.url@,
        }
    }
}

impl DefaultFilter {
    /// The group of every default filter is the name of a `FilterGroup`.
    #[verifier::type_invariant]
    spec fn group_is_known(self) -> bool {
        group_of_name(self.group@) is Some
    }
}

impl Clone for DefaultFilter {
    fn clone(&self) -> (copy: Self)
        ensures
            copy == *self,
    {
        proof {
            use_type_invariant(self);
        }
        DefaultFilter {
            enabled_by_default: self.enabled_by_default,
            file_name: self.file_name.clone(),
            group: self.group.clone(),
            title: self.title.clone(),
            url: self.url.clone(),
        }
    }
}

/// A configured filter list.
#[derive(Debug, Clone, PartialEq, Eq)]
pub struct Filter {
    /// If the filter is enabled
    pub enabled: bool,
    /// Title of the filter
    pub title: String,
    /// Group of the filter
    pub group: FilterGroup,
    /// Local file name of the filter
    pub file_name: String,
    /// Remote URL of the filter (the serialization of a parsed URL)
    pub url: String,
}

impl From<DefaultFilter> for Filter {
    fn from(default_filter: DefaultFilter) -> (filter: Filter)
        ensures
            filter.enabled == default_filter@.enabled_by_default,
            filter.title@ == default_filter@.title,
            Some(filter.group) == group_of_name(default_filter@.group),
            filter.file_name@ == default_filter@.file_name,
            filter.url@ == default_filter@.url,
    {
        proof {
            use_type_invariant(&default_filter);
        }
        let group = match FilterGroup::from_name(default_filter.group.as_str()) {
            Some(group) => group,
            None => {
                proof {
                    assert(false);
                }
                FilterGroup::Default
            },
        };
        Filter {
            enabled: default_filter.enabled_by_default,
            title: default_filter.title,
            group,
            file_name: default_filter.file_name,
            url: default_filter.url,
        }
    }
}

impl vstd::std_specs::convert::FromSpecImpl<DefaultFilter> for Filter {
    open spec fn obeys_from_spec() -> bool {
        true
    }

    closed spec fn from_spec(v: DefaultFilter) -> Filter {
        Filter {
            enabled: v.enabled_by_default,
            title: v.title,
            group: group_of_name(v.group@).unwrap(),
            file_name: v.file_name,
            url: v.url,
        }
    }
}

/// What `DefaultFilters::parse_filter` makes of one catalogue entry: nothing
/// where the URL does not parse, else a filter holding the parsed URL, the
/// cache file name derived from the URL text as given, the group's name, the
/// title and the enabled flag.
pub open spec fn parsed_filter(url: Seq<char>, title: Seq<char>, group: FilterGroup, enabled_by_default: bool) -> Option<DefaultFilterView> {
    match url_parse(url) {
        Some(parsed) => Some(
            DefaultFilterView {
                enabled_by_default,
                file_name: filter_file_name(url),
                group: group_name(group),
                title,
                url: parsed,
            },
        ),
        None => None,
    }
}

/// A default filter built for a group converts back to that group: the name
/// it stores is read back as the group it was made from.
pub proof fn lemma_parsed_filter_group(url: Seq<char>, title: Seq<char>, group: FilterGroup, enabled_by_default: bool)
    requires
        parsed_filter(url, title, group, enabled_by_default) is Some,
    ensures
        group_of_name(parsed_filter(url, title, group, enabled_by_default).unwrap().group) == Some(group),
{
    lemma_group_name_round_trip(group);
}

/// A catalogue entry yields a filter exactly when its URL parses, and that
/// filter holds the entry's flag and title unchanged, the group's name, the
/// parsed URL, and the hexadecimal SHA-256 digest of the URL text with `.txt`.
pub proof fn lemma_parsed_filter_fields(url: Seq<char>, title: Seq<char>, group: FilterGroup, enabled_by_default: bool)
    ensures
        parsed_filter(url, title, group, enabled_by_default) is Some <==> url_parse(url) is Some,
        parsed_filter(url, title, group, enabled_by_default) matches Some(f) ==> {
            &&& f.enabled_by_default == enabled_by_default
            &&& f.title == title
            &&& f.group == group_name(group)
            &&& f.file_name == hex_lower(sha256(encode_utf8(url))) + ".txt"@
            &&& Some(f.url) == url_parse(url)
        },
{
}

/// Where every URL of the entries parses, the filters are the entries' filters,
/// one for one and in order; in any case there are no more filters than entries.
pub proof fn lemma_parsed_sources_in_order(sources: Seq<(Seq<char>, Seq<char>, FilterGroup, bool)>)
    ensures
        parsed_sources(sources).len() <= sources.len(),
        (forall|i: int| 0 <= i < sources.len() ==> (#[trigger] url_parse(sources[i].0)) is Some) ==> {
            &&& parsed_sources(sources).len() == sources.len()
            &&& forall|i: int| 0 <= i < sources.len() ==> #[trigger] parsed_sources(sources)[i]
                == parsed_filter(sources[i].0, sources[i].1, sources[i].2, sources[i].3).unwrap()
        },
    decreases sources.len(),
{
    if sources.len() > 0 {
        let init = sources.drop_last();
        lemma_parsed_sources_in_order(init);
        if forall|i: int| 0 <= i < sources.len() ==> (#[trigger] url_parse(sources[i].0)) is Some {
            assert forall|i: int| 0 <= i < init.len() implies (#[trigger] url_parse(init[i].0)) is Some by {
                assert(init[i] == sources[i]);
                assert(url_parse(sources[i].0) is Some);
            }
            assert(url_parse(sources[sources.len() - 1].0) is Some);
            assert forall|i: int| 0 <= i < sources.len() implies #[trigger] parsed_sources(sources)[i]
                == parsed_filter(sources[i].0, sources[i].1, sources[i].2, sources[i].3).unwrap() by {
                if i < init.len() {
                    assert(init[i] == sources[i]);
                    assert(parsed_sources(init)[i] == parsed_filter(init[i].0, init[i].1, init[i].2, init[i].3).unwrap());
                }
            }
        }
    }
}

/// The text view of a catalogue entry.
pub open spec fn source_view(source: FilterSource) -> (Seq<char>, Seq<char>, FilterGroup, bool) {
    (source.0@, source.1@, source.2, source.3)
}

/// The filters that a sequence of catalogue entries yields, in order, leaving
/// out the entries whose URL does not parse.
pub open spec fn parsed_sources(sources: Seq<(Seq<char>, Seq<char>, FilterGroup, bool)>) -> Seq<DefaultFilterView>
    decreases sources.len(),
{
    if sources.len() == 0 {
        Seq::empty()
    } else {
        let rest = parsed_sources(sources.drop_last());
        let last = sources.last();
        match parsed_filter(last.0, last.1, last.2, last.3) {
            Some(filter) => rest.push(filter),
            None => rest,
        }
    }
}

/// The built-in catalogue, as text.
pub open spec fn cecl_sources() -> Seq<(Seq<char>, Seq<char>, FilterGroup, bool)> {
    CECL_FILTER_SOURCES@.map_values(|source: FilterSource| source_view(source))
}

/// The views of a sequence of default filters.
pub open spec fn default_filter_views(filters: Seq<DefaultFilter>) -> Seq<DefaultFilterView> {
    filters.map_values(|filter: DefaultFilter| filter@)
}

/// The built-in filter lists.
#[derive(Debug, Clone, PartialEq, Eq)]
pub struct DefaultFilters(Vec<DefaultFilter>);

impl View for DefaultFilters {
    type V = Seq<DefaultFilterView>;

    closed spec fn view(&self) -> Seq<DefaultFilterView> {
        default_filter_views(self.0@)
    }
}

impl DefaultFilters {
    /// The catalogue of built-in filter lists, each one whose URL parses.
    pub fn new() -> (filters: Self)
        ensures
            filters@ == parsed_sources(cecl_sources()),
            filters@ == parsed_sources(CECL_FILTER_SOURCES@.map_values(|entry: FilterSource| (entry.0@, entry.1@, entry.2, entry.3))),
    {
        let mut filters = Vec::new();
        let mut cecl = Self::get_cecl_filters();
        let ghost catalogue = cecl@;
        filters.append(&mut cecl);
        assert(filters@ =~= catalogue);
        assert(cecl_sources() =~= CECL_FILTER_SOURCES@.map_values(|entry: FilterSource| (entry.0@, entry.1@, entry.2, entry.3)));
        DefaultFilters(filters)
    }

    /// A copy of the filters, in catalogue order.
    pub fn list(&self) -> (filters: Vec<DefaultFilter>)
        ensures
            default_filter_views(filters@) == self@,
    {
        let filters = self.0.clone();
        assert(default_filter_views(filters@) =~= default_filter_views(self.0@));
        filters
    }

    /// Builds the default filter for one catalogue entry, or `None` where its
    /// URL does not parse.
    pub fn parse_filter(url: &str, title: &str, group: FilterGroup, enabled_by_default: bool) -> (filter: Option<DefaultFilter>)
        ensures
            match filter {
                Some(f) => parsed_filter(url@, title@, group, enabled_by_default) == Some(f@),
                None => parsed_filter(url@, title@, group, enabled_by_default) is None,
            },
            filter is None <==> url_parse(url@) is None,
            filter matches Some(f) ==> {
                &&& f@.enabled_by_default == enabled_by_default
                &&& f@.title == title@
                &&& f@.group == group_name(group)
                &&& f@.file_name == hex_lower(sha256(encode_utf8(url@))) + ".txt"@
                &&& Some(f@.url) == url_parse(url@)
            },
    {
        Self::filter_from_parsed_url(url, parse_url(url), title, group, enabled_by_default)
    }

    /// Builds the default filter for a catalogue entry whose URL text `url`
    /// parsed to `parsed_url` (its serialization), or `None` where parsing
    /// failed. The cache file name is derived from the URL text as given.
    pub fn filter_from_parsed_url(
        url: &str,
        parsed_url: Result<String, url::ParseError>,
        title: &str,
        group: FilterGroup,
        enabled_by_default: bool,
    ) -> (filter: Option<DefaultFilter>)
        ensures
            match parsed_url {
                Ok(parsed) => filter is Some && filter.unwrap()@.file_name == hex_lower(sha256(encode_utf8(url@))) + ".txt"@
                    && filter.unwrap()@ == (DefaultFilterView {
                    enabled_by_default,
                    file_name: filter_file_name(url@),
                    group: group_name(group),
                    title: title@,
                    url: parsed@,
                }),
                Err(_) => filter is None,
            },
    {
        match parsed_url {
            Ok(parsed_url) => {
                let file_name = calc_filter_filename(url);
                let group_text = group.to_string();
                proof {
                    lemma_group_name_round_trip(group);
                }
                Some(
                    DefaultFilter {
                        enabled_by_default,
                        file_name,
                        group: group_text,
                        title: String::from_str(title),
                        url: parsed_url,
                    },
                )
            },
            Err(_) => None,
        }
    }

    /// The default filters built from the whole catalogue, in catalogue
    /// order, leaving out any entry whose URL does not parse.
    fn get_cecl_filters() -> (filters: Vec<DefaultFilter>)
        ensures
            default_filter_views(filters@) == parsed_sources(cecl_sources()),
    {
        let mut filters: Vec<DefaultFilter> = Vec::new();
        let mut i: usize = 0;
        while i < CECL_FILTER_SOURCES.len()
            invariant
                i <= CECL_FILTER_SOURCES@.len(),
                default_filter_views(filters@) == parsed_sources(cecl_sources().take(i as int)),
            decreases CECL_FILTER_SOURCES@.len() - i,
        {
            let (url, title, group, enabled_by_default) = CECL_FILTER_SOURCES[i];
            let parsed = Self::parse_filter(url, title, group, enabled_by_default);
            proof {
                let sources = cecl_sources();
                assert(sources.take(i + 1).drop_last() =~= sources.take(i as int));
                assert(sources.take(i + 1).last() == source_view(CECL_FILTER_SOURCES@[i as int]));
            }
            match parsed {
                Some(filter) => {
                    filters.push(filter);
                    assert(default_filter_views(filters@) =~= parsed_sources(cecl_sources().take(i as int)).push(filter@));
                },
                None => {},
            }
            i = i + 1;
        }
        assert(cecl_sources().take(i as int) =~= cecl_sources());
        filters
    }
}

} // verus!
