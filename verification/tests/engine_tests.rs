use manga_core::dom::Document;
use manga_core::engine::{extract, trim_string, Entity, ExtractConfig};
use manga_core::engine::{chapters_from, comics_from};
use manga_core::error::ExtractError;
use manga_core::models::{reversed_attach_to, Comic};

fn grouped_doc() -> Document {
    Document::parse(
        r#"<html><body>
        <div class="item"><img src="/c1.jpg"><a class="t" href="/b/1"> First </a></div>
        <div class="item"><span class="lock"></span><img src="/c2.jpg"><a class="t" href="/b/2">Second</a></div>
        <div class="item"><img data-src="/c3.jpg" src="/c3s.jpg"><a class="t" href="/b/3">Third</a></div>
        </body></html>"#,
    )
}

fn grouped_cfg() -> ExtractConfig {
    let mut cfg = ExtractConfig::default();
    cfg.parent_dom = String::from("div.item");
    cfg.link_dom = String::from("a.t");
    cfg.cover_dom = String::from("img");
    cfg.link_prefix = String::from("https://x.com");
    cfg.cover_prefix = String::from("https://img.com");
    cfg.ignore_contains = String::from(".lock");
    cfg
}

#[test]
fn grouped_count_skips_ignored() {
    let doc = grouped_doc();
    let cfg = grouped_cfg();
    let entities: Vec<Entity> = extract(&doc, &cfg).unwrap();
    assert_eq!(2, entities.len());
    assert_eq!("First", entities[0].title);
    assert_eq!("https://x.com/b/1", entities[0].url);
    assert_eq!("https://img.com/c1.jpg", entities[0].cover);
    assert_eq!("Third", entities[1].title);
    assert_eq!("https://x.com/b/3", entities[1].url);
}

#[test]
fn grouped_count_without_ignore() {
    let doc = grouped_doc();
    let mut cfg = grouped_cfg();
    cfg.ignore_contains = String::new();
    let entities = extract(&doc, &cfg).unwrap();
    assert_eq!(3, entities.len());
    assert_eq!("Second", entities[1].title);
}

#[test]
fn cover_candidate_list_first_present_wins() {
    let doc = grouped_doc();
    let mut cfg = grouped_cfg();
    cfg.cover_attrs = vec![String::from("data-src"), String::from("src")];
    let entities = extract(&doc, &cfg).unwrap();
    // the first item has no `data-src`, so the second candidate is taken
    assert_eq!("https://img.com/c1.jpg", entities[0].cover);
    // the last item carries `data-src`, the first candidate
    assert_eq!("https://img.com/c3.jpg", entities[1].cover);
}

#[test]
fn flat_count_skips_ignored() {
    let doc = Document::parse(
        r#"<html><body>
        <a class="chap" href="/ch/1">One</a>
        <a class="chap" href="/ch/2"><span class="lock"></span>Two</a>
        <a class="chap" href="/ch/3">Three</a>
        </body></html>"#,
    );
    let mut cfg = ExtractConfig::default();
    cfg.target_dom = String::from("a.chap");
    cfg.ignore_contains = String::from(".lock");
    let entities = extract(&doc, &cfg).unwrap();
    assert_eq!(2, entities.len());
    assert_eq!("One", entities[0].title);
    assert_eq!("/ch/1", entities[0].url);
    assert_eq!("", entities[0].cover);
    assert_eq!("Three", entities[1].title);
}

#[test]
fn title_prefers_link_text_sub_selector_over_own_text() {
    let doc = Document::parse(
        r#"<html><body>
        <a class="chap" href="/ch/1"> Own Text <span class="tt">Sub Title</span></a>
        </body></html>"#,
    );
    let mut cfg = ExtractConfig::default();
    cfg.target_dom = String::from("a.chap");
    cfg.link_text_dom = String::from(".tt");
    let entities = extract(&doc, &cfg).unwrap();
    assert_eq!(1, entities.len());
    assert_eq!("Sub Title", entities[0].title);
}

#[test]
fn title_attr_precedence_order() {
    let doc = Document::parse(
        r#"<html><body>
        <a class="chap" href="/ch/1" title-a="AttrA" title-b="AttrB">Own</a>
        </body></html>"#,
    );
    let mut cfg = ExtractConfig::default();
    cfg.target_dom = String::from("a.chap");
    cfg.target_text_attr = String::from("title-a");
    cfg.link_text_attr = String::from("title-b");
    let entities = extract(&doc, &cfg).unwrap();
    assert_eq!("AttrA", entities[0].title);

    let mut cfg2 = ExtractConfig::default();
    cfg2.target_dom = String::from("a.chap");
    cfg2.link_text_attr = String::from("title-b");
    let entities2 = extract(&doc, &cfg2).unwrap();
    assert_eq!("AttrB", entities2[0].title);
}

#[test]
fn title_empty_source_falls_back_to_own_text() {
    let doc = Document::parse(
        r#"<html><body>
        <a class="chap" href="/ch/1" title-a="">  Own Text  </a>
        </body></html>"#,
    );
    let mut cfg = ExtractConfig::default();
    cfg.target_dom = String::from("a.chap");
    cfg.target_text_attr = String::from("title-a");
    let entities = extract(&doc, &cfg).unwrap();
    assert_eq!("Own Text", entities[0].title);
}

#[test]
fn configured_title_source_absent_is_error() {
    let doc = Document::parse(r#"<html><body><a class="chap" href="/1">x</a></body></html>"#);
    let mut cfg = ExtractConfig::default();
    cfg.target_dom = String::from("a.chap");
    cfg.target_text_dom = String::from(".absent");
    assert_eq!(Err(ExtractError::MissingNode), extract(&doc, &cfg).map(|v| v.len()));
}

#[test]
fn missing_link_attribute_is_missing_link() {
    let doc = Document::parse(r#"<html><body><a class="chap">no href</a></body></html>"#);
    let mut cfg = ExtractConfig::default();
    cfg.target_dom = String::from("a.chap");
    assert_eq!(Err(ExtractError::MissingLink), extract(&doc, &cfg).map(|v| v.len()));
}

#[test]
fn missing_link_node_in_grouped_mode_is_missing_node() {
    let doc = Document::parse(r#"<html><body><div class="item"><img src="/c.jpg"></div></body></html>"#);
    let cfg = grouped_cfg();
    assert_eq!(Err(ExtractError::MissingNode), extract(&doc, &cfg).map(|v| v.len()));
}

#[test]
fn missing_cover_node_is_missing_node() {
    let doc = Document::parse(
        r#"<html><body><div class="item"><a class="t" href="/b/1">One</a></div></body></html>"#,
    );
    let cfg = grouped_cfg();
    assert_eq!(Err(ExtractError::MissingNode), extract(&doc, &cfg).map(|v| v.len()));
}

#[test]
fn invalid_selector_is_selector_error() {
    let doc = Document::parse("<html><body></body></html>");
    let mut cfg = ExtractConfig::default();
    cfg.target_dom = String::from("li >");
    assert_eq!(Err(ExtractError::Selector), extract(&doc, &cfg).map(|v| v.len()));
    // an unconfigured target selector in flat mode is not a valid selector
    let cfg2 = ExtractConfig::default();
    assert_eq!(Err(ExtractError::Selector), extract(&doc, &cfg2).map(|v| v.len()));
}

#[test]
fn trim_strips_unicode_whitespace() {
    assert_eq!("abc", trim_string(" \t abc \u{3000}\n"));
    assert_eq!("", trim_string(" \u{00a0}\t"));
    assert_eq!("a b", trim_string("a b"));
}

#[test]
fn entity_two_step_construction() {
    let mut e = Entity::from_link(String::from("T"), String::from("U"));
    assert_eq!("", e.cover);
    e.set_cover(String::from("C"));
    assert_eq!("T", e.title);
    assert_eq!("U", e.url);
    assert_eq!("C", e.cover);
}

#[test]
fn chapter_pipeline_assigns_ordinals() {
    let doc = Document::parse(
        r#"<html><body><ul>
        <li><a class="chap" href="/ch/1">C1</a></li>
        <li><a class="chap" href="/ch/2">C2</a></li>
        </ul></body></html>"#,
    );
    let mut cfg = ExtractConfig::default();
    cfg.target_dom = String::from("a.chap");
    cfg.link_prefix = String::from("https://x.com");
    let chapters = chapters_from(extract(&doc, &cfg).unwrap());
    let mut comic = Comic::from_url("https://x.com/c");
    reversed_attach_to(chapters, &mut comic);
    assert_eq!("C2", comic.chapters[0].title);
    assert_eq!(1, comic.chapters[0].which);
    assert_eq!("https://x.com/ch/2", comic.chapters[0].url);
    assert_eq!("C1", comic.chapters[1].title);
    assert_eq!(2, comic.chapters[1].which);
}

#[test]
fn comic_pipeline_carries_covers() {
    let doc = grouped_doc();
    let comics = comics_from(extract(&doc, &grouped_cfg()).unwrap());
    assert_eq!(2, comics.len());
    assert_eq!("First", comics[0].title);
    assert_eq!("https://x.com/b/1", comics[0].url);
    assert_eq!("https://img.com/c1.jpg", comics[0].cover);
    assert!(comics[0].chapters.is_empty());
}

#[test]
fn whitespace_only_title_is_missing_node() {
    let doc = Document::parse(r#"<html><body><a class="chap" href="/1">   </a></body></html>"#);
    let mut cfg = ExtractConfig::default();
    cfg.target_dom = String::from("a.chap");
    assert_eq!(Err(ExtractError::MissingNode), extract(&doc, &cfg).map(|v| v.len()));
}

#[test]
fn empty_link_attribute_value_is_missing_link() {
    let doc = Document::parse(r#"<html><body><a class="chap" href="">x</a></body></html>"#);
    let mut cfg = ExtractConfig::default();
    cfg.target_dom = String::from("a.chap");
    assert_eq!(Err(ExtractError::MissingLink), extract(&doc, &cfg).map(|v| v.len()));
}
