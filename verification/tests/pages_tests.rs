use std::cell::Cell;

use manga_core::error::ExtractError;
use manga_core::models::{Chapter, Page};
use manga_core::pages::{full_pages, ChapterPages};

#[test]
fn pagination_determinism_and_replay() {
    let calls = Cell::new(0usize);
    let chapter = Chapter::from_url("https://x/ch1");
    let mut it = ChapterPages::new(chapter, 3, Vec::new(), |pos: usize| {
        calls.set(calls.get() + 1);
        Ok(vec![Page::new(pos, &format!("https://img/{}.jpg", pos))])
    });
    let mut drained: Vec<Page> = Vec::new();
    while let Some(r) = it.next() {
        drained.push(r.unwrap());
    }
    assert_eq!(3, drained.len());
    assert_eq!("https://img/1.jpg", drained[0].address);
    assert_eq!("https://img/2.jpg", drained[1].address);
    assert_eq!("https://img/3.jpg", drained[2].address);
    assert_eq!(3, calls.get());

    // replaying from the start over the same chapter hits the cache only
    let chapter = it.into_chapter();
    assert_eq!(3, chapter.pages.len());
    let mut it2 = ChapterPages::new(chapter, 3, Vec::new(), |pos: usize| {
        calls.set(calls.get() + 1);
        Ok(vec![Page::new(pos, &format!("https://img/{}.jpg", pos))])
    });
    let mut replayed: Vec<Page> = Vec::new();
    while let Some(r) = it2.next() {
        replayed.push(r.unwrap());
    }
    assert_eq!(3, replayed.len());
    assert_eq!("https://img/2.jpg", replayed[1].address);
    assert_eq!(3, calls.get());
}

#[test]
fn pagination_zero_bound_never_fetches() {
    let calls = Cell::new(0usize);
    let chapter = Chapter::from_url("https://x/ch1");
    let mut it = ChapterPages::new(chapter, 0, Vec::new(), |pos: usize| {
        calls.set(calls.get() + 1);
        Ok(vec![Page::new(pos, "https://img/any.jpg")])
    });
    assert!(it.next().is_none());
    assert!(it.next().is_none());
    assert_eq!(0, calls.get());
    assert_eq!(0, it.into_chapter().pages.len());
}

#[test]
fn pagination_unbounded_ends_on_empty_fetch() {
    let chapter = Chapter::from_url("https://x/ch1");
    let mut it = ChapterPages::new(chapter, -1, Vec::new(), |pos: usize| {
        if pos <= 2 {
            Ok(vec![Page::new(pos, &format!("https://img/{}.jpg", pos))])
        } else {
            Ok(Vec::new())
        }
    });
    let mut drained: Vec<Page> = Vec::new();
    while let Some(r) = it.next() {
        drained.push(r.unwrap());
    }
    assert_eq!(2, drained.len());
    assert_eq!("https://img/1.jpg", drained[0].address);
    assert_eq!("https://img/2.jpg", drained[1].address);
    assert_eq!(2, it.into_chapter().pages.len());
}

#[test]
fn pagination_error_occupies_its_slot() {
    let chapter = Chapter::from_url("https://x/ch1");
    let mut it = ChapterPages::new(chapter, 3, Vec::new(), |pos: usize| {
        if pos == 2 {
            Err(ExtractError::Transport)
        } else {
            Ok(vec![Page::new(pos, &format!("https://img/{}.jpg", pos))])
        }
    });
    assert_eq!("https://img/1.jpg", it.next().unwrap().unwrap().address);
    assert_eq!(Err(ExtractError::Transport), it.next().unwrap().map(|p| p.address));
    // the iterator keeps going past the failed slot
    let third = it.next().unwrap().unwrap();
    assert_eq!("https://img/3.jpg", third.address);
    assert!(it.next().is_none());
}

#[test]
fn strict_drain_aborts_on_first_error() {
    let chapter = Chapter::from_url("https://x/ch1");
    let mut it = ChapterPages::new(chapter, 3, Vec::new(), |pos: usize| {
        if pos == 2 {
            Err(ExtractError::Transport)
        } else {
            Ok(vec![Page::new(pos, &format!("https://img/{}.jpg", pos))])
        }
    });
    assert_eq!(Err(ExtractError::Transport), it.fetch_pages_unsafe());
    assert_eq!(1, it.into_chapter().pages.len());
}

#[test]
fn tolerant_drain_discards_errors() {
    let chapter = Chapter::from_url("https://x/ch1");
    let mut it = ChapterPages::new(chapter, 3, Vec::new(), |pos: usize| {
        if pos == 2 {
            Err(ExtractError::Transport)
        } else {
            Ok(vec![Page::new(pos, &format!("https://img/{}.jpg", pos))])
        }
    });
    it.fetch_pages();
    let chapter = it.into_chapter();
    assert_eq!(2, chapter.pages.len());
    assert_eq!("https://img/1.jpg", chapter.pages[0].address);
    assert_eq!("https://img/3.jpg", chapter.pages[1].address);
}

#[test]
fn full_iterator_is_cache_only() {
    let chapter = Chapter::from_link("T1", "https://x/ch1");
    let mut it = full_pages(
        chapter,
        vec![String::from("https://img/a.jpg"), String::from("https://img/b.jpg")],
    );
    assert_eq!(2, it.total);
    assert_eq!("T1", it.chapter_title_clone());
    let first = it.next().unwrap().unwrap();
    assert_eq!(1, first.n);
    assert_eq!("https://img/a.jpg", first.address);
    let second = it.next().unwrap().unwrap();
    assert_eq!(2, second.n);
    assert_eq!("https://img/b.jpg", second.address);
    assert!(it.next().is_none());
}

#[test]
fn seeded_addresses_are_numbered_in_order() {
    let chapter = Chapter::from_url("https://x/ch1");
    let it = ChapterPages::new(
        chapter,
        2,
        vec![String::from("https://img/a.jpg"), String::from("https://img/b.jpg")],
        |_pos: usize| Ok(Vec::new()),
    );
    let chapter = it.into_chapter();
    assert_eq!(2, chapter.pages.len());
    assert_eq!(1, chapter.pages[0].n);
    assert_eq!(2, chapter.pages[1].n);
}

#[test]
fn fuel_bounded_drive_advances_an_unbounded_iterator() {
    let chapter = Chapter::from_url("https://x/ch1");
    let mut it = ChapterPages::new(chapter, -1, Vec::new(), |pos: usize| {
        if pos <= 5 {
            Ok(vec![Page::new(pos, &format!("https://img/{}.jpg", pos))])
        } else {
            Ok(Vec::new())
        }
    });
    // the fuel runs out first
    it.fetch_pages_up_to(3);
    assert_eq!(3, it.current_page);
    assert_eq!(3, it.chapter.pages.len());
    // the sequence ends before this fuel does
    it.fetch_pages_up_to(10);
    assert_eq!(5, it.into_chapter().pages.len());
}

#[test]
fn strict_drain_stops_at_the_first_error() {
    let chapter = Chapter::from_url("https://x/ch1");
    let mut it = ChapterPages::new(chapter, 5, Vec::new(), |pos: usize| {
        if pos == 2 || pos == 4 {
            Err(ExtractError::Transport)
        } else {
            Ok(vec![Page::new(pos, &format!("https://img/{}.jpg", pos))])
        }
    });
    assert_eq!(Err(ExtractError::Transport), it.fetch_pages_unsafe());
    // stopped at position 2, not at the later failure
    assert_eq!(2, it.current_page);
    assert_eq!(1, it.into_chapter().pages.len());
}
