use manga_core::models::{Chapter, Comic, Tag};
use manga_core::models::{attach_to, headers_clear, reversed_attach_to};
use manga_core::registry::{
    default_paginated_search, find_in, find_platforms, get_extr, platforms, Capability, SourceMeta,
};

#[test]
fn test_find_platforms() {
    let platforms = find_platforms(vec![Tag::Chinese], vec![]);
    assert_eq!(
        platforms.iter().find(|p| p.0 == "www.wnacg.org").map(|p| p.1.clone()),
        Some(String::from("\u{7d33}\u{58eb}\u{6f2b}\u{756b}"))
    );
    let platforms = find_platforms(vec![Tag::Chinese], vec![Tag::NSFW]);
    assert_eq!(platforms.iter().find(|p| p.0 == "www.wnacg.org").map(|p| p.1.clone()), None);
}

#[test]
fn test_favicons() {
    let favicon = get_extr("8comic.se").unwrap().get_favicon().unwrap();
    assert_eq!("https://8comic.se/favicon.ico", favicon);
}

fn meta(domain: &str, tags: Vec<Tag>) -> SourceMeta {
    SourceMeta {
        domain: String::from(domain),
        name: String::from(domain),
        capability: Capability {
            usable: true,
            searchable: false,
            pageable: false,
            pageable_search: false,
            https: false,
            favicon: None,
        },
        tags,
    }
}

#[test]
fn tag_filtering_include_and_exclude() {
    // X carries tag A, Y carries A and B, Z carries B
    let a = Tag::English;
    let b = Tag::NSFW;
    let reg = vec![
        meta("X", vec![a]),
        meta("Y", vec![a, b]),
        meta("Z", vec![b]),
    ];
    let found = find_in(&reg, &vec![a], &vec![]);
    let domains: Vec<&str> = found.iter().map(|p| p.0.as_str()).collect();
    assert_eq!(vec!["X", "Y"], domains);

    // exclusion wins over inclusion on conflict
    let found = find_in(&reg, &vec![a], &vec![b]);
    let domains: Vec<&str> = found.iter().map(|p| p.0.as_str()).collect();
    assert_eq!(vec!["X"], domains);
}

#[test]
fn tag_filtering_empty_includes_keeps_all() {
    let reg = vec![meta("X", vec![Tag::English]), meta("Z", vec![Tag::NSFW])];
    let found = find_in(&reg, &vec![], &vec![]);
    assert_eq!(2, found.len());
    let found = find_in(&reg, &vec![], &vec![Tag::NSFW]);
    assert_eq!(1, found.len());
    assert_eq!("X", found[0].0);
}

#[test]
fn platform_table_lists_every_source() {
    let all = platforms();
    assert_eq!(38, all.len());
    assert_eq!(
        Some(String::from("YYLS\u{6f2b}\u{756b}")),
        all.iter().find(|p| p.0 == "8comic.se").map(|p| p.1.clone())
    );
    assert_eq!(
        Some(String::from("Luscious")),
        all.iter().find(|p| p.0 == "www.luscious.net").map(|p| p.1.clone())
    );
}

#[test]
fn registry_capability_flags_read_directly() {
    let dm5 = get_extr("www.dm5.com").unwrap();
    assert!(dm5.capability.is_usable());
    assert!(dm5.capability.is_searchable());
    assert!(!dm5.capability.is_pageable());
    assert!(dm5.capability.is_pageable_search());
    assert!(dm5.capability.is_https());
    assert!(get_extr("nowhere.example").is_none());
}

#[test]
fn attach_assigns_dense_ordinals() {
    let mut comic = Comic::from_url("https://x/c");
    let chapters = vec![Chapter::from_url("https://x/c/1"), Chapter::from_url("https://x/c/2")];
    attach_to(chapters, &mut comic);
    assert_eq!(2, comic.chapters.len());
    assert_eq!(1, comic.chapters[0].which);
    assert_eq!("https://x/c/1", comic.chapters[0].url);
    assert_eq!(2, comic.chapters[1].which);
}

#[test]
fn reversed_attach_reverses_then_numbers() {
    let mut comic = Comic::from_url("https://x/c");
    let chapters = vec![Chapter::from_url("https://x/c/1"), Chapter::from_url("https://x/c/2")];
    reversed_attach_to(chapters, &mut comic);
    assert_eq!(2, comic.chapters.len());
    assert_eq!("https://x/c/2", comic.chapters[0].url);
    assert_eq!(1, comic.chapters[0].which);
    assert_eq!("https://x/c/1", comic.chapters[1].url);
    assert_eq!(2, comic.chapters[1].which);
}

#[test]
fn headers_clear_empties_every_chapter() {
    let mut c1 = Chapter::from_url("https://x/c/1");
    c1.page_headers.push((String::from("Referer"), String::from("https://x")));
    let c2 = Chapter::from_url("https://x/c/2");
    let cleared = headers_clear(vec![c1, c2]);
    assert_eq!(2, cleared.len());
    assert!(cleared[0].page_headers.is_empty());
    assert_eq!("https://x/c/1", cleared[0].url);
}

#[test]
fn lookup_and_listing_share_one_key_set() {
    // every listed identifier has a record; an uncarried one is unusable,
    // with no tags and no favicon
    for (domain, name) in platforms() {
        let meta = get_extr(&domain).expect("listed source without a record");
        assert_eq!(name, meta.name);
    }
    let bnmanhua = get_extr("www.bnmanhua.com").unwrap();
    assert!(!bnmanhua.capability.is_usable());
    assert!(bnmanhua.tags.is_empty());
    assert!(bnmanhua.get_favicon().is_none());
}

#[test]
fn default_paginated_search_hands_back_search_result() {
    let found = vec![(String::from("x"))];
    let comics: Vec<Comic> = found.iter().map(|t| Comic::from_link(t, "https://x")).collect();
    let r = default_paginated_search(Ok(comics), 7).unwrap();
    assert_eq!(1, r.len());
    assert_eq!("x", r[0].title);
    assert!(default_paginated_search(Err(manga_core::error::ExtractError::Transport), 1).is_err());
}
