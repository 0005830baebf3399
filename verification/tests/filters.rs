use privaxy_filters::{
    calc_filter_filename, calculate_sha256_hex, collect_filters_content, compare_bytes,
    compare_str, contents_action, filter_directory_name, sorted_distinct, CachedRead,
    ContentsAction, DefaultFilter, DefaultFilters, Filter, FilterGroup, Order,
    CECL_FILTER_SOURCES,
};

#[test]
fn group_names() {
    assert_eq!(FilterGroup::Default.to_string(), "default");
    assert_eq!(FilterGroup::Regional.to_string(), "regional");
    assert_eq!(FilterGroup::Ads.to_string(), "ads");
    assert_eq!(FilterGroup::Privacy.to_string(), "privacy");
    assert_eq!(FilterGroup::Malware.to_string(), "malware");
    assert_eq!(FilterGroup::Social.to_string(), "social");
}

#[test]
fn group_name_round_trip() {
    let groups = [
        FilterGroup::Default,
        FilterGroup::Regional,
        FilterGroup::Ads,
        FilterGroup::Privacy,
        FilterGroup::Malware,
        FilterGroup::Social,
    ];
    for group in groups {
        assert_eq!(FilterGroup::from_name(&group.to_string()), Some(group));
    }
}

#[test]
fn group_unknown_name() {
    assert_eq!(FilterGroup::from_name("Default"), None);
    assert_eq!(FilterGroup::from_name(""), None);
    assert_eq!(FilterGroup::from_name("ads "), None);
}

#[test]
fn sha256_hex_of_empty_text() {
    assert_eq!(
        calculate_sha256_hex(""),
        "e3b0c44298fc1c149afbf4c8996fb92427ae41e4649b934ca495991b7852b855"
    );
}

#[test]
fn filter_file_name_of_url() {
    let name = calc_filter_filename("http://adblock.ee/list.txt");
    assert_eq!(
        name,
        "d6e247747a3bcef1c7f289ed18a45dae08573e1bfd426194a4188ca9d8101a40.txt"
    );
    assert_eq!(name.len(), 68);
}

#[test]
fn filter_file_name_shape() {
    for url in ["", "a", "http://example.com/é"] {
        let name = calc_filter_filename(url);
        assert_eq!(name.chars().count(), 68);
        assert!(name[..64].chars().all(|c| c.is_ascii_digit() || ('a'..='f').contains(&c)));
        assert!(name.ends_with(".txt"));
    }
}

#[test]
fn parse_filter_normalizes_url_keeps_file_name_of_text() {
    let filter = DefaultFilters::parse_filter(
        "HTTP://Example.COM",
        "Example",
        FilterGroup::Ads,
        false,
    )
    .expect("a valid URL");
    let filter = Filter::from(filter);
    assert_eq!(filter.url, "http://example.com/");
    assert_eq!(
        filter.file_name,
        "94649a7f800df4fcde40041e2920f6c77642beef100d01c603de1e3b7d34ad08.txt"
    );
    assert_eq!(filter.title, "Example");
    assert_eq!(filter.group, FilterGroup::Ads);
    assert!(!filter.enabled);
}

#[test]
fn parse_filter_refuses_bad_url() {
    assert!(DefaultFilters::parse_filter("not a url", "t", FilterGroup::Default, true).is_none());
    assert!(DefaultFilters::parse_filter("", "t", FilterGroup::Default, true).is_none());
    assert!(DefaultFilters::parse_filter("http://", "t", FilterGroup::Default, true).is_none());
}

#[test]
fn default_filters_cover_the_catalogue() {
    let defaults = DefaultFilters::new();
    let list: Vec<DefaultFilter> = defaults.list();
    assert_eq!(list.len(), CECL_FILTER_SOURCES.len());
    assert_eq!(list.len(), 174);
    for (default_filter, (url, title, group, enabled)) in list.into_iter().zip(CECL_FILTER_SOURCES) {
        let filter = Filter::from(default_filter);
        assert_eq!(filter.url, url);
        assert_eq!(filter.title, title);
        assert_eq!(filter.group, group);
        assert_eq!(filter.enabled, enabled);
        assert_eq!(filter.file_name, calc_filter_filename(url));
    }
}

#[test]
fn default_filters_first_entry() {
    let list = DefaultFilters::new().list();
    let first = Filter::from(list[0].clone());
    assert_eq!(
        first,
        Filter {
            enabled: true,
            title: "http://adblock.ee/list.txt's filters".to_string(),
            group: FilterGroup::Default,
            file_name: "d6e247747a3bcef1c7f289ed18a45dae08573e1bfd426194a4188ca9d8101a40.txt"
                .to_string(),
            url: "http://adblock.ee/list.txt".to_string(),
        }
    );
}

#[test]
fn default_filters_list_is_a_copy() {
    let defaults = DefaultFilters::new();
    assert_eq!(defaults.list(), defaults.list());
    assert_eq!(defaults.clone(), defaults);
}

#[test]
fn merge_sorts_dedups_and_drains_custom() {
    let results = vec![
        Some("||ads.example^".to_string()),
        None,
        Some("! comment".to_string()),
        Some("||ads.example^".to_string()),
    ];
    let mut custom = vec!["||tracker.example^".to_string(), "! comment".to_string()];
    let merged = collect_filters_content(results, &mut custom);
    assert_eq!(
        merged,
        vec![
            "! comment".to_string(),
            "||ads.example^".to_string(),
            "||tracker.example^".to_string(),
        ]
    );
    assert!(custom.is_empty());
}

#[test]
fn merge_of_nothing() {
    let mut custom: Vec<String> = Vec::new();
    assert!(collect_filters_content(vec![None, None], &mut custom).is_empty());
    assert!(collect_filters_content(Vec::new(), &mut custom).is_empty());
}

#[test]
fn merge_matches_std_sort_and_dedup() {
    let items = ["z", "é", "a", "", "ab", "a", "Z", "ß", "é", "b"];
    let mut expected: Vec<String> = items.iter().map(|s| s.to_string()).collect();
    expected.sort_unstable();
    expected.dedup();
    let got = sorted_distinct(items.iter().map(|s| s.to_string()).collect());
    assert_eq!(got, expected);
}

#[test]
fn merge_ignores_input_order() {
    let mut none: Vec<String> = Vec::new();
    let forward = collect_filters_content(
        vec![Some("b".to_string()), Some("a".to_string())],
        &mut vec!["c".to_string()],
    );
    let backward = collect_filters_content(
        vec![Some("c".to_string()), Some("a".to_string()), Some("b".to_string())],
        &mut none,
    );
    assert_eq!(forward, backward);
}

#[test]
fn compare_orders_by_bytes() {
    assert_eq!(compare_str("a", "b"), Order::Less);
    assert_eq!(compare_str("b", "a"), Order::Greater);
    assert_eq!(compare_str("abc", "abc"), Order::Equal);
    assert_eq!(compare_str("ab", "abc"), Order::Less);
    assert_eq!(compare_str("", ""), Order::Equal);
    assert_eq!(compare_str("z", "é"), Order::Less);
    assert_eq!(compare_str("Z", "a"), Order::Less);
    assert_eq!(compare_bytes(&[1, 2], &[1, 3]), Order::Less);
    assert_eq!(compare_bytes(&[2], &[1, 3]), Order::Greater);
    assert_eq!(compare_bytes(&[], &[0]), Order::Less);
}

#[test]
fn cached_read_that_is_text_is_returned() {
    match contents_action(CachedRead::Contents("||x^\n".as_bytes().to_vec())) {
        ContentsAction::Return(text) => assert_eq!(text, "||x^\n"),
        other => panic!("unexpected {:?}", other),
    }
}

#[test]
fn cached_read_that_is_not_text_is_reported() {
    assert!(matches!(
        contents_action(CachedRead::Contents(vec![0xff, 0xfe])),
        ContentsAction::NotUtf8(_)
    ));
}

#[test]
fn missing_cache_is_fetched() {
    assert!(matches!(contents_action(CachedRead::NotFound), ContentsAction::Fetch));
    assert!(matches!(contents_action(CachedRead::Failed), ContentsAction::ReadFailed));
}

#[test]
fn filter_directory() {
    assert_eq!(filter_directory_name(None), "filters");
    assert_eq!(filter_directory_name(Some("/tmp/lists".to_string())), "/tmp/lists");
}

#[test]
fn filter_from_parsed_url_keeps_given_serialization() {
    let filter = DefaultFilters::filter_from_parsed_url(
        "a b",
        Ok("http://x/".to_string()),
        "T",
        FilterGroup::Social,
        true,
    )
    .expect("parsed");
    let filter = Filter::from(filter);
    assert_eq!(filter.url, "http://x/");
    assert_eq!(filter.file_name, calc_filter_filename("a b"));
    assert_eq!(filter.group, FilterGroup::Social);
    assert_eq!(filter.title, "T");
    assert!(filter.enabled);
}

#[test]
fn filter_from_failed_parse_is_none() {
    assert!(DefaultFilters::filter_from_parsed_url(
        "http://",
        Err(url::ParseError::EmptyHost),
        "T",
        FilterGroup::Privacy,
        true,
    )
    .is_none());
}
