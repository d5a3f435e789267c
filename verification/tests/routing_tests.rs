use manga_core::error::ExtractError;
use manga_core::pattern::match_content;
use manga_core::routing::{classify, domain_route, routes, DomainRoute, RouteEntry};

#[test]
fn routing_precedence_subunit_before_collection() {
    let table = vec![RouteEntry {
        domain: String::from("siteA"),
        comic_re: String::from("^/book/\\d+$"),
        chapter_re: String::from("^/book/\\d+/\\d+$"),
    }];
    assert_eq!(Some(DomainRoute::Chapter(String::from("siteA"))), classify(&table, "/book/42/7"));
    assert_eq!(Some(DomainRoute::Comic(String::from("siteA"))), classify(&table, "/book/42"));
    assert_eq!(None, classify(&table, "/unknown"));
}

#[test]
fn routing_first_matching_entry_wins() {
    let table = vec![
        RouteEntry {
            domain: String::from("siteA"),
            comic_re: String::from("^/a/\\d+$"),
            chapter_re: String::from("^-NONE-$"),
        },
        RouteEntry {
            domain: String::from("siteB"),
            comic_re: String::from("^/a/\\d+$"),
            chapter_re: String::from("^/a/\\d+$"),
        },
    ];
    // entry order is load-bearing: siteA's collection pattern is tested
    // before siteB is reached at all
    assert_eq!(Some(DomainRoute::Comic(String::from("siteA"))), classify(&table, "/a/1"));
}

#[test]
fn routing_invalid_pattern_matches_nothing() {
    let table = vec![
        RouteEntry {
            domain: String::from("bad"),
            comic_re: String::from("("),
            chapter_re: String::from("("),
        },
        RouteEntry {
            domain: String::from("good"),
            comic_re: String::from("^/x$"),
            chapter_re: String::from("^-NONE-$"),
        },
    ];
    assert_eq!(Some(DomainRoute::Comic(String::from("good"))), classify(&table, "/x"));
}

#[test]
fn domain_route_classifies_known_urls() {
    assert_eq!(
        Some(DomainRoute::Chapter(String::from("www.dm5.com"))),
        domain_route("https://www.dm5.com/m893482/"),
    );
    assert_eq!(
        Some(DomainRoute::Comic(String::from("www.dm5.com"))),
        domain_route("https://www.dm5.com/manhua-fengyunquanji/"),
    );
    assert_eq!(
        Some(DomainRoute::Chapter(String::from("e-hentai.org"))),
        domain_route("https://e-hentai.org/g/1617973/3224dd8125/"),
    );
    assert_eq!(
        Some(DomainRoute::Chapter(String::from("www.luscious.net"))),
        domain_route("https://www.luscious.net/albums/oreimo-selection-2016-fuyu_371269/"),
    );
    assert_eq!(None, domain_route("https://example.com/nothing"));
}

#[test]
fn route_table_has_every_registered_source() {
    let table = routes();
    assert_eq!(35, table.len());
    assert_eq!("www.bidongmh.com", table[0].domain);
    assert_eq!("8comic.se", table[34].domain);
}

#[test]
fn match_content_captures_group() {
    let cover = match_content(
        "background-image: url(https://a/b.jpg)",
        "background-image: url\\((.+)\\)",
        1,
    )
    .unwrap();
    assert_eq!("https://a/b.jpg", cover);
}

#[test]
fn match_content_failures_are_pattern_match_errors() {
    assert_eq!(
        Err(ExtractError::PatternMatch),
        match_content("abc", "(", 1).map(|s| s.len()),
    );
    assert_eq!(
        Err(ExtractError::PatternMatch),
        match_content("abc", "(\\d+)", 1).map(|s| s.len()),
    );
    assert_eq!(
        Err(ExtractError::PatternMatch),
        match_content("123", "(\\d+)|(x)", 2).map(|s| s.len()),
    );
}
