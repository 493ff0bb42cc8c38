use jitoliq::endpoints::{normalize_url, normalize_urls, split_list};
use jitoliq::JitoBundleClient;

fn strings(items: &[&str]) -> Vec<String> {
    items.iter().map(|s| s.to_string()).collect()
}

#[test]
fn host_gets_the_bundles_path() {
    assert_eq!(
        normalize_url("https://frankfurt.mainnet.block-engine.jito.wtf"),
        Some("https://frankfurt.mainnet.block-engine.jito.wtf/api/v1/bundles".to_string())
    );
}

#[test]
fn full_address_is_left_alone() {
    assert_eq!(
        normalize_url("https://ny.example/api/v1/bundles"),
        Some("https://ny.example/api/v1/bundles".to_string())
    );
}

#[test]
fn surrounding_whitespace_and_trailing_separators_go() {
    assert_eq!(
        normalize_url("  \thttp://a.example///  \n"),
        Some("http://a.example/api/v1/bundles".to_string())
    );
    assert_eq!(
        normalize_url("http://a.example/api/v1/bundles/"),
        Some("http://a.example/api/v1/bundles".to_string())
    );
}

#[test]
fn unicode_whitespace_is_whitespace() {
    assert_eq!(
        normalize_url("\u{a0}\u{3000}http://a.example\u{2009}\u{85}"),
        Some("http://a.example/api/v1/bundles".to_string())
    );
}

#[test]
fn whitespace_inside_an_address_stays() {
    assert_eq!(normalize_url("a b/ "), Some("a b/api/v1/bundles".to_string()));
    assert_eq!(normalize_url("a/ /"), Some("a/ /api/v1/bundles".to_string()));
}

#[test]
fn entries_that_name_nothing_are_dropped() {
    assert_eq!(normalize_url(""), None);
    assert_eq!(normalize_url("   "), None);
    assert_eq!(normalize_url("/"), None);
    assert_eq!(normalize_url(" /// "), None);
}

#[test]
fn trimming_agrees_with_the_standard_library() {
    let samples = [
        "plain",
        " lead",
        "trail ",
        "\t\n\r both \u{b}\u{c}",
        "\u{1680}ogham\u{1680}",
        "\u{2000}\u{2001}\u{2002}\u{2003}\u{2004}\u{2005}\u{2006}\u{2007}\u{2008}\u{2009}\u{200a}x",
        "x\u{2028}\u{2029}\u{202f}\u{205f}\u{3000}",
        "\u{200b}zero width is no whitespace\u{200b}",
        "\u{feff}nor is the byte order mark",
        "\u{1c}\u{1d}\u{1e}\u{1f}separators are not",
    ];
    for raw in samples {
        let base = raw.trim().trim_end_matches('/');
        let expected = if base.ends_with("/api/v1/bundles") {
            base.to_string()
        } else {
            format!("{}/api/v1/bundles", base)
        };
        assert_eq!(normalize_url(raw), Some(expected), "for {:?}", raw);
    }
}

#[test]
fn order_of_the_entries_is_kept() {
    let urls = normalize_urls(&strings(&["http://c", " ", "http://a/", "", "http://b/api/v1/bundles"]));
    assert_eq!(
        urls,
        strings(&[
            "http://c/api/v1/bundles",
            "http://a/api/v1/bundles",
            "http://b/api/v1/bundles"
        ])
    );
}

#[test]
fn normalizing_twice_changes_nothing() {
    let once = normalize_urls(&strings(&[" http://a// ", "http://b/api/v1/bundles", "/", "c"]));
    let twice = normalize_urls(&once);
    assert_eq!(once, twice);
    for url in &once {
        assert!(url.ends_with("/api/v1/bundles"));
        assert!(!url.ends_with("/api/v1/bundles/api/v1/bundles"));
    }
}

#[test]
fn path_written_twice_by_the_caller_is_not_touched() {
    assert_eq!(
        normalize_url("h/api/v1/bundles/api/v1/bundles"),
        Some("h/api/v1/bundles/api/v1/bundles".to_string())
    );
}

#[test]
fn client_registry_is_the_normalized_list() {
    let client = JitoBundleClient::new(strings(&["https://one.example/", "  ", "https://two.example"]));
    assert_eq!(
        client.urls(),
        &strings(&["https://one.example/api/v1/bundles", "https://two.example/api/v1/bundles"])
    );
}

#[test]
fn list_on_one_line_is_split_at_commas() {
    assert_eq!(split_list("a, b ,c"), strings(&["a", "b", "c"]));
    assert_eq!(split_list(" https://x.example , ,,https://y.example/ ,"), strings(&["https://x.example", "https://y.example/"]));
}

#[test]
fn empty_line_lists_nothing() {
    assert_eq!(split_list(""), Vec::<String>::new());
    assert_eq!(split_list(" , ,\t"), Vec::<String>::new());
}

#[test]
fn splitting_agrees_with_the_standard_library() {
    let lines = ["", ",", "a", "a,", ",a", "a,,b", " a , b,c ,, d\u{3000}", "no commas at all "];
    for line in lines {
        let expected: Vec<String> = line
            .split(',')
            .map(|s| s.trim().to_string())
            .filter(|s| !s.is_empty())
            .collect();
        assert_eq!(split_list(line), expected, "for {:?}", line);
    }
}
