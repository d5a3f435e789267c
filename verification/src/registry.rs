use vstd::prelude::*;

use crate::error::ExtractError;
use crate::models::{Chapter, Comic, Tag};

verus! {

/// The named capability flags of one source, with its optional metadata:
/// read directly, never looked up by name.
#[derive(Debug)]
pub struct Capability {
    pub usable: bool,
    pub searchable: bool,
    pub pageable: bool,
    pub pageable_search: bool,
    pub https: bool,
    pub favicon: Option<String>,
}

impl Capability {
    pub fn is_usable(&self) -> (r: bool)
        ensures
            r == self.usable,
    {
        self.usable
    }

    pub fn is_searchable(&self) -> (r: bool)
        ensures
            r == self.searchable,
    {
        self.searchable
    }

    pub fn is_pageable(&self) -> (r: bool)
        ensures
            r == self.pageable,
    {
        self.pageable
    }

    pub fn is_pageable_search(&self) -> (r: bool)
        ensures
            r == self.pageable_search,
    {
        self.pageable_search
    }

    pub fn is_https(&self) -> (r: bool)
        ensures
            r == self.https,
    {
        self.https
    }
}

/// The per-source adapter surface the core consumes. Implementations live
/// beside their sources' transports, outside the core; the registry hands
/// out the static records below.
pub trait Extractor {
    /// The capability record of this source.
    fn read_status(&self) -> &Capability;

    /// The classification tags of this source.
    fn tags(&self) -> &Vec<Tag>;

    /// List collections, newest first, for one 1-based page; sources
    /// without a listing offer none.
    fn index(&self, _page: u32) -> Result<Vec<Comic>, ExtractError> {
        Ok(vec![])
    }

    /// Discover the subunits of a collection, attaching them in order.
    fn fetch_chapters(&self, _comic: &mut Comic) -> Result<(), ExtractError> {
        Ok(())
    }

    /// Search collections by keywords; sources without search offer none.
    fn search(&self, _keywords: &str) -> Result<Vec<Comic>, ExtractError> {
        Ok(vec![])
    }

    /// Search one 1-based result page; sources without paged search ignore
    /// the page and hand back their keyword search's result unchanged,
    /// through [`default_paginated_search`].
    fn paginated_search(&self, keywords: &str, page: u32) -> Result<Vec<Comic>, ExtractError> {
        default_paginated_search(self.search(keywords), page)
    }

    /// Resolve all pages of a chapter into its page list, tolerating failed
    /// fetches: the tolerant consumption strategy.
    fn fetch_pages(&self, chapter: &mut Chapter) -> Result<(), ExtractError>;

    /// Resolve pages, aborting on the first failed fetch: the strict
    /// consumption strategy on the adapter surface.
    fn fetch_pages_unsafe(&self, chapter: &mut Chapter) -> Result<(), ExtractError>;
}

/// The paged-search default: the page is ignored and the keyword search's
/// result is handed back unchanged.
pub fn default_paginated_search(search_result: Result<Vec<Comic>, ExtractError>, _page: u32) -> (r:
    Result<Vec<Comic>, ExtractError>)
    ensures
        r == search_result,
{
    search_result
}

/// One source's registry record: identifier, display name, capability
/// record and classification tags. Immutable once built.
#[derive(Debug)]
pub struct SourceMeta {
    pub domain: String,
    pub name: String,
    pub capability: Capability,
    pub tags: Vec<Tag>,
}

impl SourceMeta {
    /// The favicon URL, when the record carries one.
    pub fn get_favicon(&self) -> (r: Option<String>)
        ensures
            r == self.capability.favicon,
    {
        match &self.capability.favicon {
            Some(s) => Some(s.clone()),
            None => None,
        }
    }
}

/// The spec twin of a registry record.
#[verifier::ext_equal]
pub struct SourceMetaV {
    pub domain: Seq<char>,
    pub name: Seq<char>,
    pub usable: bool,
    pub searchable: bool,
    pub pageable: bool,
    pub pageable_search: bool,
    pub https: bool,
    pub favicon: Option<Seq<char>>,
    pub tags: Seq<Tag>,
}

/// The view of a record.
pub open spec fn meta_view(m: SourceMeta) -> SourceMetaV {
    SourceMetaV {
        domain: m.domain@,
        name: m.name@,
        usable: m.capability.usable,
        searchable: m.capability.searchable,
        pageable: m.capability.pageable,
        pageable_search: m.capability.pageable_search,
        https: m.capability.https,
        favicon: match m.capability.favicon {
            Some(f) => Some(f@),
            None => None,
        },
        tags: m.tags@,
    }
}

/// The views of a sequence of records.
pub open spec fn metas_view(s: Seq<SourceMeta>) -> Seq<SourceMetaV> {
    s.map_values(|m: SourceMeta| meta_view(m))
}

/// The views of (identifier, display name) pairs.
pub open spec fn pair_views(s: Seq<(String, String)>) -> Seq<(Seq<char>, Seq<char>)> {
    s.map_values(|p: (String, String)| (p.0@, p.1@))
}

/// The record passes the tag filter: its tag set intersects the include
/// tags unless none are given, and does not intersect the exclude tags.
/// An identifier matching both an included and an excluded tag is dropped.
pub open spec fn kept_by_tags(m: SourceMetaV, inc: Seq<Tag>, exc: Seq<Tag>) -> bool {
    &&& (inc.len() == 0 || exists|j: int| 0 <= j < m.tags.len() && inc.contains(#[trigger] m.tags[j]))
    &&& (forall|j: int| 0 <= j < m.tags.len() ==> !exc.contains(#[trigger] m.tags[j]))
}

/// The (identifier, display name) pairs of the first `n` records that pass
/// the tag filter, in registry order.
pub open spec fn found_pairs(regs: Seq<SourceMetaV>, inc: Seq<Tag>, exc: Seq<Tag>, n: int) -> Seq<
    (Seq<char>, Seq<char>),
>
    decreases n,
{
    if n <= 0 {
        Seq::empty()
    } else if kept_by_tags(regs[n - 1], inc, exc) {
        found_pairs(regs, inc, exc, n - 1).push((regs[n - 1].domain, regs[n - 1].name))
    } else {
        found_pairs(regs, inc, exc, n - 1)
    }
}

fn tag_vec_contains(v: &Vec<Tag>, t: Tag) -> (r: bool)
    ensures
        r == v@.contains(t),
{
    let n = v.len();
    let mut i: usize = 0;
    while i < n
        invariant
            n == v@.len(),
            0 <= i <= n,
            forall|j: int| 0 <= j < i ==> v@[j] != t,
        decreases n - i,
    {
        if v[i] == t {
            return true;
        }
        i += 1;
    }
    false
}

fn tags_intersect(tags: &Vec<Tag>, other: &Vec<Tag>) -> (r: bool)
    ensures
        r == exists|j: int| 0 <= j < tags@.len() && other@.contains(#[trigger] tags@[j]),
{
    let n = tags.len();
    let mut i: usize = 0;
    while i < n
        invariant
            n == tags@.len(),
            0 <= i <= n,
            forall|j: int| 0 <= j < i ==> !other@.contains(#[trigger] tags@[j]),
        decreases n - i,
    {
        if tag_vec_contains(other, tags[i]) {
            return true;
        }
        i += 1;
    }
    false
}

/// The tag-filter query over a registry: keep a record iff its tag set
/// intersects `includes` (or `includes` is empty) and does not intersect
/// `excludes`; exclusion always wins on conflict. Both predicates are
/// evaluated independently.
pub fn find_in(registry: &Vec<SourceMeta>, includes: &Vec<Tag>, excludes: &Vec<Tag>) -> (r: Vec<
    (String, String),
>)
    ensures
        pair_views(r@) == found_pairs(
            metas_view(registry@),
            includes@,
            excludes@,
            registry@.len() as int,
        ),
{
    let ghost regs = metas_view(registry@);
    let n = registry.len();
    let mut out: Vec<(String, String)> = Vec::new();
    let mut i: usize = 0;
    proof {
        assert(pair_views(Seq::<(String, String)>::empty()) =~= found_pairs(
            regs,
            includes@,
            excludes@,
            0,
        ));
    }
    while i < n
        invariant
            n == registry@.len(),
            regs == metas_view(registry@),
            0 <= i <= n,
            pair_views(out@) == found_pairs(regs, includes@, excludes@, i as int),
        decreases n - i,
    {
        let m = &registry[i];
        proof {
            assert(regs[i as int] == meta_view(registry@[i as int]));
            assert(regs[i as int].tags == m.tags@);
        }
        let inc_ok = includes.len() == 0 || tags_intersect(&m.tags, includes);
        let exc_ok = !tags_intersect(&m.tags, excludes);
        if inc_ok && exc_ok {
            let ghost prev = out@;
            out.push((m.domain.clone(), m.name.clone()));
            proof {
                assert(kept_by_tags(regs[i as int], includes@, excludes@));
                assert(pair_views(out@) =~= pair_views(prev).push((m.domain@, m.name@)));
            }
        } else {
            proof {
                assert(!kept_by_tags(regs[i as int], includes@, excludes@));
            }
        }
        i += 1;
    }
    out
}

/// The (identifier, display name) pair at index `k` of the platform table.
pub open spec fn platform_pair_spec(k: int) -> (Seq<char>, Seq<char>) {
    if k == 0 {
        ("www.bidongmh.com"@, "壁咚漫画"@)
    }
    else if k == 1 {
        ("www.bnmanhua.com"@, "百年漫画"@)
    }
    else if k == 2 {
        ("www.cartoonmad.com"@, "動漫狂"@)
    }
    else if k == 3 {
        ("www.comico.com.tw"@, "comico"@)
    }
    else if k == 4 {
        ("www.dm5.com"@, "动漫屋（漫画人）"@)
    }
    else if k == 5 {
        ("manhua.dmzj.com"@, "动漫之家"@)
    }
    else if k == 6 {
        ("e-hentai.org"@, "E-Hentai"@)
    }
    else if k == 7 {
        ("18h.animezilla.com"@, "18H 宅宅愛動漫"@)
    }
    else if k == 8 {
        ("www.gufengmh8.com"@, "古风漫画网"@)
    }
    else if k == 9 {
        ("c-upp.com"@, "喵绅士"@)
    }
    else if k == 10 {
        ("www.hhimm.com"@, "汗汗酷漫"@)
    }
    else if k == 11 {
        ("comic.ikkdm.com"@, "KuKu动漫"@)
    }
    else if k == 12 {
        ("www.kuaikanmanhua.com"@, "快看漫画"@)
    }
    else if k == 13 {
        ("loveheaven.net"@, "LoveHeaven"@)
    }
    else if k == 14 {
        ("www.luscious.net"@, "Luscious"@)
    }
    else if k == 15 {
        ("www.mangabz.com"@, "Mangabz"@)
    }
    else if k == 16 {
        ("manganelo.com"@, "Manganelo"@)
    }
    else if k == 17 {
        ("www.mangareader.net"@, "Mangareader"@)
    }
    else if k == 18 {
        ("www.manhuadui.com"@, "漫画堆"@)
    }
    else if k == 19 {
        ("www.manhuadb.com"@, "漫画DB"@)
    }
    else if k == 20 {
        ("www.manhuagui.com"@, "漫画柜"@)
    }
    else if k == 21 {
        ("www.manhuapu.com"@, "漫画铺"@)
    }
    else if k == 22 {
        ("www.mkzhan.com"@, "漫客栈"@)
    }
    else if k == 23 {
        ("nhentai.net"@, "nhentai"@)
    }
    else if k == 24 {
        ("9hentai.com"@, "9hentai"@)
    }
    else if k == 25 {
        ("www.90mh.com"@, "90漫画网"@)
    }
    else if k == 26 {
        ("www.177pic.info"@, "177漫畫"@)
    }
    else if k == 27 {
        ("www.onemanhua.com"@, "ONE漫画"@)
    }
    else if k == 28 {
        ("www.pufei8.com"@, "扑飞漫画"@)
    }
    else if k == 29 {
        ("www.qimiaomh.com"@, "奇妙漫画"@)
    }
    else if k == 30 {
        ("www.tohomh123.com"@, "土豪漫画"@)
    }
    else if k == 31 {
        ("www.tvbsmh.com"@, "TVBS漫畫"@)
    }
    else if k == 32 {
        ("twhentai.com"@, "台灣成人H漫"@)
    }
    else if k == 33 {
        ("www.2animx.com"@, "二次元動漫"@)
    }
    else if k == 34 {
        ("www.wnacg.org"@, "紳士漫畫"@)
    }
    else if k == 35 {
        ("www.wuqimh.com"@, "57漫画网"@)
    }
    else if k == 36 {
        ("www.177mh.net"@, "新新漫画网"@)
    }
    else if k == 37 {
        ("8comic.se"@, "YYLS漫畫"@)
    }
    else {
        (""@, ""@)
    }
}

/// The built-in platform table: every registered source's identifier and
/// display name, in registration order.
pub open spec fn platform_table() -> Seq<(Seq<char>, Seq<char>)> {
    Seq::new(38, |k: int| platform_pair_spec(k))
}

fn push_pair(t: &mut Vec<(String, String)>, domain: &str, name: &str)
    ensures
        final(t)@.len() == old(t)@.len() + 1,
        forall|k: int| 0 <= k < old(t)@.len() ==> final(t)@[k] == old(t)@[k],
        final(t)@.last().0@ == domain@,
        final(t)@.last().1@ == name@,
{
    t.push((domain.to_owned(), name.to_owned()));
}

/// Every registered source: its identifier (domain) and display name. The
/// listing and the registry behind [`get_extr`] share one key set
/// ([`lemma_lookup_iff_listed`]).
#[verifier::rlimit(100)]
pub fn platforms() -> (r: Vec<(String, String)>)
    ensures
        pair_views(r@) =~~= platform_table(),
{
    let mut t: Vec<(String, String)> = Vec::new();
    push_pair(&mut t, "www.bidongmh.com", "壁咚漫画");
    push_pair(&mut t, "www.bnmanhua.com", "百年漫画");
    push_pair(&mut t, "www.cartoonmad.com", "動漫狂");
    push_pair(&mut t, "www.comico.com.tw", "comico");
    push_pair(&mut t, "www.dm5.com", "动漫屋（漫画人）");
    push_pair(&mut t, "manhua.dmzj.com", "动漫之家");
    push_pair(&mut t, "e-hentai.org", "E-Hentai");
    push_pair(&mut t, "18h.animezilla.com", "18H 宅宅愛動漫");
    push_pair(&mut t, "www.gufengmh8.com", "古风漫画网");
    push_pair(&mut t, "c-upp.com", "喵绅士");
    push_pair(&mut t, "www.hhimm.com", "汗汗酷漫");
    push_pair(&mut t, "comic.ikkdm.com", "KuKu动漫");
    push_pair(&mut t, "www.kuaikanmanhua.com", "快看漫画");
    push_pair(&mut t, "loveheaven.net", "LoveHeaven");
    push_pair(&mut t, "www.luscious.net", "Luscious");
    push_pair(&mut t, "www.mangabz.com", "Mangabz");
    push_pair(&mut t, "manganelo.com", "Manganelo");
    push_pair(&mut t, "www.mangareader.net", "Mangareader");
    push_pair(&mut t, "www.manhuadui.com", "漫画堆");
    push_pair(&mut t, "www.manhuadb.com", "漫画DB");
    push_pair(&mut t, "www.manhuagui.com", "漫画柜");
    push_pair(&mut t, "www.manhuapu.com", "漫画铺");
    push_pair(&mut t, "www.mkzhan.com", "漫客栈");
    push_pair(&mut t, "nhentai.net", "nhentai");
    push_pair(&mut t, "9hentai.com", "9hentai");
    push_pair(&mut t, "www.90mh.com", "90漫画网");
    push_pair(&mut t, "www.177pic.info", "177漫畫");
    push_pair(&mut t, "www.onemanhua.com", "ONE漫画");
    push_pair(&mut t, "www.pufei8.com", "扑飞漫画");
    push_pair(&mut t, "www.qimiaomh.com", "奇妙漫画");
    push_pair(&mut t, "www.tohomh123.com", "土豪漫画");
    push_pair(&mut t, "www.tvbsmh.com", "TVBS漫畫");
    push_pair(&mut t, "twhentai.com", "台灣成人H漫");
    push_pair(&mut t, "www.2animx.com", "二次元動漫");
    push_pair(&mut t, "www.wnacg.org", "紳士漫畫");
    push_pair(&mut t, "www.wuqimh.com", "57漫画网");
    push_pair(&mut t, "www.177mh.net", "新新漫画网");
    push_pair(&mut t, "8comic.se", "YYLS漫畫");
    proof {
        assert(pair_views(t@) =~~= platform_table());
    }
    t
}


/// The record at index `k` of the built-in registry, aligned index by
/// index with the platform table: one record per registered source. A
/// source whose adapter metadata the crate does not carry is recorded as
/// administratively unusable, with no capability flags, no favicon and no
/// classification tags.
pub open spec fn registry_entry_spec(k: int) -> SourceMetaV {
    if k == 0 {
        SourceMetaV {
            domain: "www.bidongmh.com"@,
            name: "\u{58c1}\u{549a}\u{6f2b}\u{753b}"@,
            usable: false,
            searchable: false,
            pageable: false,
            pageable_search: false,
            https: false,
            favicon: None,
            tags: Seq::empty(),
        }
    }
    else if k == 1 {
        SourceMetaV {
            domain: "www.bnmanhua.com"@,
            name: "\u{767e}\u{5e74}\u{6f2b}\u{753b}"@,
            usable: false,
            searchable: false,
            pageable: false,
            pageable_search: false,
            https: false,
            favicon: None,
            tags: Seq::empty(),
        }
    }
    else if k == 2 {
        SourceMetaV {
            domain: "www.cartoonmad.com"@,
            name: "\u{52d5}\u{6f2b}\u{72c2}"@,
            usable: false,
            searchable: false,
            pageable: false,
            pageable_search: false,
            https: false,
            favicon: None,
            tags: Seq::empty(),
        }
    }
    else if k == 3 {
        SourceMetaV {
            domain: "www.comico.com.tw"@,
            name: "comico"@,
            usable: false,
            searchable: false,
            pageable: false,
            pageable_search: false,
            https: false,
            favicon: None,
            tags: Seq::empty(),
        }
    }
    else if k == 4 {
        SourceMetaV {
            domain: "www.dm5.com"@,
            name: "\u{52a8}\u{6f2b}\u{5c4b}\u{ff08}\u{6f2b}\u{753b}\u{4eba}\u{ff09}"@,
            usable: true,
            searchable: true,
            pageable: false,
            pageable_search: true,
            https: true,
            favicon: Some("https://www.dm5.com/favicon.ico"@),
            tags: seq![Tag::Chinese],
        }
    }
    else if k == 5 {
        SourceMetaV {
            domain: "manhua.dmzj.com"@,
            name: "\u{52a8}\u{6f2b}\u{4e4b}\u{5bb6}"@,
            usable: false,
            searchable: false,
            pageable: false,
            pageable_search: false,
            https: false,
            favicon: None,
            tags: Seq::empty(),
        }
    }
    else if k == 6 {
        SourceMetaV {
            domain: "e-hentai.org"@,
            name: "E-Hentai"@,
            usable: true,
            searchable: true,
            pageable: true,
            pageable_search: true,
            https: true,
            favicon: Some("https://e-hentai.org/favicon.ico"@),
            tags: seq![Tag::English, Tag::Japanese, Tag::Chinese, Tag::NSFW],
        }
    }
    else if k == 7 {
        SourceMetaV {
            domain: "18h.animezilla.com"@,
            name: "18H \u{5b85}\u{5b85}\u{611b}\u{52d5}\u{6f2b}"@,
            usable: false,
            searchable: false,
            pageable: false,
            pageable_search: false,
            https: false,
            favicon: None,
            tags: Seq::empty(),
        }
    }
    else if k == 8 {
        SourceMetaV {
            domain: "www.gufengmh8.com"@,
            name: "\u{53e4}\u{98ce}\u{6f2b}\u{753b}\u{7f51}"@,
            usable: false,
            searchable: false,
            pageable: false,
            pageable_search: false,
            https: false,
            favicon: None,
            tags: Seq::empty(),
        }
    }
    else if k == 9 {
        SourceMetaV {
            domain: "c-upp.com"@,
            name: "\u{55b5}\u{7ec5}\u{58eb}"@,
            usable: false,
            searchable: false,
            pageable: false,
            pageable_search: false,
            https: false,
            favicon: None,
            tags: Seq::empty(),
        }
    }
    else if k == 10 {
        SourceMetaV {
            domain: "www.hhimm.com"@,
            name: "\u{6c57}\u{6c57}\u{9177}\u{6f2b}"@,
            usable: false,
            searchable: false,
            pageable: false,
            pageable_search: false,
            https: false,
            favicon: None,
            tags: Seq::empty(),
        }
    }
    else if k == 11 {
        SourceMetaV {
            domain: "comic.ikkdm.com"@,
            name: "KuKu\u{52a8}\u{6f2b}"@,
            usable: false,
            searchable: false,
            pageable: false,
            pageable_search: false,
            https: false,
            favicon: None,
            tags: Seq::empty(),
        }
    }
    else if k == 12 {
        SourceMetaV {
            domain: "www.kuaikanmanhua.com"@,
            name: "\u{5feb}\u{770b}\u{6f2b}\u{753b}"@,
            usable: false,
            searchable: false,
            pageable: false,
            pageable_search: false,
            https: false,
            favicon: None,
            tags: Seq::empty(),
        }
    }
    else if k == 13 {
        SourceMetaV {
            domain: "loveheaven.net"@,
            name: "LoveHeaven"@,
            usable: false,
            searchable: false,
            pageable: false,
            pageable_search: false,
            https: false,
            favicon: None,
            tags: Seq::empty(),
        }
    }
    else if k == 14 {
        SourceMetaV {
            domain: "www.luscious.net"@,
            name: "Luscious"@,
            usable: true,
            searchable: true,
            pageable: true,
            pageable_search: true,
            https: true,
            favicon: Some("https://www.luscious.net/favicon.ico"@),
            tags: seq![Tag::English, Tag::Japanese, Tag::Chinese, Tag::NSFW],
        }
    }
    else if k == 15 {
        SourceMetaV {
            domain: "www.mangabz.com"@,
            name: "Mangabz"@,
            usable: false,
            searchable: false,
            pageable: false,
            pageable_search: false,
            https: false,
            favicon: None,
            tags: Seq::empty(),
        }
    }
    else if k == 16 {
        SourceMetaV {
            domain: "manganelo.com"@,
            name: "Manganelo"@,
            usable: false,
            searchable: false,
            pageable: false,
            pageable_search: false,
            https: false,
            favicon: None,
            tags: Seq::empty(),
        }
    }
    else if k == 17 {
        SourceMetaV {
            domain: "www.mangareader.net"@,
            name: "Mangareader"@,
            usable: false,
            searchable: false,
            pageable: false,
            pageable_search: false,
            https: false,
            favicon: None,
            tags: Seq::empty(),
        }
    }
    else if k == 18 {
        SourceMetaV {
            domain: "www.manhuadui.com"@,
            name: "\u{6f2b}\u{753b}\u{5806}"@,
            usable: false,
            searchable: false,
            pageable: false,
            pageable_search: false,
            https: false,
            favicon: None,
            tags: Seq::empty(),
        }
    }
    else if k == 19 {
        SourceMetaV {
            domain: "www.manhuadb.com"@,
            name: "\u{6f2b}\u{753b}DB"@,
            usable: false,
            searchable: false,
            pageable: false,
            pageable_search: false,
            https: false,
            favicon: None,
            tags: Seq::empty(),
        }
    }
    else if k == 20 {
        SourceMetaV {
            domain: "www.manhuagui.com"@,
            name: "\u{6f2b}\u{753b}\u{67dc}"@,
            usable: false,
            searchable: false,
            pageable: false,
            pageable_search: false,
            https: false,
            favicon: None,
            tags: Seq::empty(),
        }
    }
    else if k == 21 {
        SourceMetaV {
            domain: "www.manhuapu.com"@,
            name: "\u{6f2b}\u{753b}\u{94fa}"@,
            usable: false,
            searchable: false,
            pageable: false,
            pageable_search: false,
            https: false,
            favicon: None,
            tags: Seq::empty(),
        }
    }
    else if k == 22 {
        SourceMetaV {
            domain: "www.mkzhan.com"@,
            name: "\u{6f2b}\u{5ba2}\u{6808}"@,
            usable: false,
            searchable: false,
            pageable: false,
            pageable_search: false,
            https: false,
            favicon: None,
            tags: Seq::empty(),
        }
    }
    else if k == 23 {
        SourceMetaV {
            domain: "nhentai.net"@,
            name: "nhentai"@,
            usable: false,
            searchable: false,
            pageable: false,
            pageable_search: false,
            https: false,
            favicon: None,
            tags: Seq::empty(),
        }
    }
    else if k == 24 {
        SourceMetaV {
            domain: "9hentai.com"@,
            name: "9hentai"@,
            usable: false,
            searchable: false,
            pageable: false,
            pageable_search: false,
            https: false,
            favicon: None,
            tags: Seq::empty(),
        }
    }
    else if k == 25 {
        SourceMetaV {
            domain: "www.90mh.com"@,
            name: "90\u{6f2b}\u{753b}\u{7f51}"@,
            usable: false,
            searchable: false,
            pageable: false,
            pageable_search: false,
            https: false,
            favicon: None,
            tags: Seq::empty(),
        }
    }
    else if k == 26 {
        SourceMetaV {
            domain: "www.177pic.info"@,
            name: "177\u{6f2b}\u{756b}"@,
            usable: false,
            searchable: false,
            pageable: false,
            pageable_search: false,
            https: false,
            favicon: None,
            tags: Seq::empty(),
        }
    }
    else if k == 27 {
        SourceMetaV {
            domain: "www.onemanhua.com"@,
            name: "ONE\u{6f2b}\u{753b}"@,
            usable: false,
            searchable: false,
            pageable: false,
            pageable_search: false,
            https: false,
            favicon: None,
            tags: Seq::empty(),
        }
    }
    else if k == 28 {
        SourceMetaV {
            domain: "www.pufei8.com"@,
            name: "\u{6251}\u{98de}\u{6f2b}\u{753b}"@,
            usable: false,
            searchable: false,
            pageable: false,
            pageable_search: false,
            https: false,
            favicon: None,
            tags: Seq::empty(),
        }
    }
    else if k == 29 {
        SourceMetaV {
            domain: "www.qimiaomh.com"@,
            name: "\u{5947}\u{5999}\u{6f2b}\u{753b}"@,
            usable: false,
            searchable: false,
            pageable: false,
            pageable_search: false,
            https: false,
            favicon: None,
            tags: Seq::empty(),
        }
    }
    else if k == 30 {
        SourceMetaV {
            domain: "www.tohomh123.com"@,
            name: "\u{571f}\u{8c6a}\u{6f2b}\u{753b}"@,
            usable: false,
            searchable: false,
            pageable: false,
            pageable_search: false,
            https: false,
            favicon: None,
            tags: Seq::empty(),
        }
    }
    else if k == 31 {
        SourceMetaV {
            domain: "www.tvbsmh.com"@,
            name: "TVBS\u{6f2b}\u{756b}"@,
            usable: false,
            searchable: false,
            pageable: false,
            pageable_search: false,
            https: false,
            favicon: None,
            tags: Seq::empty(),
        }
    }
    else if k == 32 {
        SourceMetaV {
            domain: "twhentai.com"@,
            name: "\u{53f0}\u{7063}\u{6210}\u{4eba}H\u{6f2b}"@,
            usable: false,
            searchable: false,
            pageable: false,
            pageable_search: false,
            https: false,
            favicon: None,
            tags: Seq::empty(),
        }
    }
    else if k == 33 {
        SourceMetaV {
            domain: "www.2animx.com"@,
            name: "\u{4e8c}\u{6b21}\u{5143}\u{52d5}\u{6f2b}"@,
            usable: false,
            searchable: false,
            pageable: false,
            pageable_search: false,
            https: false,
            favicon: None,
            tags: Seq::empty(),
        }
    }
    else if k == 34 {
        SourceMetaV {
            domain: "www.wnacg.org"@,
            name: "\u{7d33}\u{58eb}\u{6f2b}\u{756b}"@,
            usable: true,
            searchable: false,
            pageable: false,
            pageable_search: false,
            https: false,
            favicon: None,
            tags: seq![Tag::Chinese, Tag::NSFW],
        }
    }
    else if k == 35 {
        SourceMetaV {
            domain: "www.wuqimh.com"@,
            name: "57\u{6f2b}\u{753b}\u{7f51}"@,
            usable: false,
            searchable: false,
            pageable: false,
            pageable_search: false,
            https: false,
            favicon: None,
            tags: Seq::empty(),
        }
    }
    else if k == 36 {
        SourceMetaV {
            domain: "www.177mh.net"@,
            name: "\u{65b0}\u{65b0}\u{6f2b}\u{753b}\u{7f51}"@,
            usable: false,
            searchable: false,
            pageable: false,
            pageable_search: false,
            https: false,
            favicon: None,
            tags: Seq::empty(),
        }
    }
    else if k == 37 {
        SourceMetaV {
            domain: "8comic.se"@,
            name: "YYLS\u{6f2b}\u{756b}"@,
            usable: true,
            searchable: false,
            pageable: false,
            pageable_search: false,
            https: false,
            favicon: Some("https://8comic.se/favicon.ico"@),
            tags: Seq::empty(),
        }
    }
    else {
        SourceMetaV {
            domain: ""@,
            name: ""@,
            usable: false,
            searchable: false,
            pageable: false,
            pageable_search: false,
            https: false,
            favicon: None,
            tags: Seq::empty(),
        }
    }
}

/// The built-in registry: one record per registered source, in registration
/// order — the same key set, in the same order, as the platform table.
pub open spec fn registry_table() -> Seq<SourceMetaV> {
    Seq::new(38, |k: int| registry_entry_spec(k))
}

/// Build the built-in registry.
#[verifier::rlimit(100)]
pub fn registry() -> (r: Vec<SourceMeta>)
    ensures
        metas_view(r@) =~~= registry_table(),
{
    let mut t: Vec<SourceMeta> = Vec::new();
    t.push(SourceMeta {
        domain: String::from_str("www.bidongmh.com"),
        name: String::from_str("\u{58c1}\u{549a}\u{6f2b}\u{753b}"),
        capability: Capability {
            usable: false,
            searchable: false,
            pageable: false,
            pageable_search: false,
            https: false,
            favicon: None,
        },
        tags: Vec::new(),
    });
    t.push(SourceMeta {
        domain: String::from_str("www.bnmanhua.com"),
        name: String::from_str("\u{767e}\u{5e74}\u{6f2b}\u{753b}"),
        capability: Capability {
            usable: false,
            searchable: false,
            pageable: false,
            pageable_search: false,
            https: false,
            favicon: None,
        },
        tags: Vec::new(),
    });
    t.push(SourceMeta {
        domain: String::from_str("www.cartoonmad.com"),
        name: String::from_str("\u{52d5}\u{6f2b}\u{72c2}"),
        capability: Capability {
            usable: false,
            searchable: false,
            pageable: false,
            pageable_search: false,
            https: false,
            favicon: None,
        },
        tags: Vec::new(),
    });
    t.push(SourceMeta {
        domain: String::from_str("www.comico.com.tw"),
        name: String::from_str("comico"),
        capability: Capability {
            usable: false,
            searchable: false,
            pageable: false,
            pageable_search: false,
            https: false,
            favicon: None,
        },
        tags: Vec::new(),
    });
    t.push(SourceMeta {
        domain: String::from_str("www.dm5.com"),
        name: String::from_str("\u{52a8}\u{6f2b}\u{5c4b}\u{ff08}\u{6f2b}\u{753b}\u{4eba}\u{ff09}"),
        capability: Capability {
            usable: true,
            searchable: true,
            pageable: false,
            pageable_search: true,
            https: true,
            favicon: Some(String::from_str("https://www.dm5.com/favicon.ico")),
        },
        tags: vec![Tag::Chinese],
    });
    t.push(SourceMeta {
        domain: String::from_str("manhua.dmzj.com"),
        name: String::from_str("\u{52a8}\u{6f2b}\u{4e4b}\u{5bb6}"),
        capability: Capability {
            usable: false,
            searchable: false,
            pageable: false,
            pageable_search: false,
            https: false,
            favicon: None,
        },
        tags: Vec::new(),
    });
    t.push(SourceMeta {
        domain: String::from_str("e-hentai.org"),
        name: String::from_str("E-Hentai"),
        capability: Capability {
            usable: true,
            searchable: true,
            pageable: true,
            pageable_search: true,
            https: true,
            favicon: Some(String::from_str("https://e-hentai.org/favicon.ico")),
        },
        tags: vec![Tag::English, Tag::Japanese, Tag::Chinese, Tag::NSFW],
    });
    t.push(SourceMeta {
        domain: String::from_str("18h.animezilla.com"),
        name: String::from_str("18H \u{5b85}\u{5b85}\u{611b}\u{52d5}\u{6f2b}"),
        capability: Capability {
            usable: false,
            searchable: false,
            pageable: false,
            pageable_search: false,
            https: false,
            favicon: None,
        },
        tags: Vec::new(),
    });
    t.push(SourceMeta {
        domain: String::from_str("www.gufengmh8.com"),
        name: String::from_str("\u{53e4}\u{98ce}\u{6f2b}\u{753b}\u{7f51}"),
        capability: Capability {
            usable: false,
            searchable: false,
            pageable: false,
            pageable_search: false,
            https: false,
            favicon: None,
        },
        tags: Vec::new(),
    });
    t.push(SourceMeta {
        domain: String::from_str("c-upp.com"),
        name: String::from_str("\u{55b5}\u{7ec5}\u{58eb}"),
        capability: Capability {
            usable: false,
            searchable: false,
            pageable: false,
            pageable_search: false,
            https: false,
            favicon: None,
        },
        tags: Vec::new(),
    });
    t.push(SourceMeta {
        domain: String::from_str("www.hhimm.com"),
        name: String::from_str("\u{6c57}\u{6c57}\u{9177}\u{6f2b}"),
        capability: Capability {
            usable: false,
            searchable: false,
            pageable: false,
            pageable_search: false,
            https: false,
            favicon: None,
        },
        tags: Vec::new(),
    });
    t.push(SourceMeta {
        domain: String::from_str("comic.ikkdm.com"),
        name: String::from_str("KuKu\u{52a8}\u{6f2b}"),
        capability: Capability {
            usable: false,
            searchable: false,
            pageable: false,
            pageable_search: false,
            https: false,
            favicon: None,
        },
        tags: Vec::new(),
    });
    t.push(SourceMeta {
        domain: String::from_str("www.kuaikanmanhua.com"),
        name: String::from_str("\u{5feb}\u{770b}\u{6f2b}\u{753b}"),
        capability: Capability {
            usable: false,
            searchable: false,
            pageable: false,
            pageable_search: false,
            https: false,
            favicon: None,
        },
        tags: Vec::new(),
    });
    t.push(SourceMeta {
        domain: String::from_str("loveheaven.net"),
        name: String::from_str("LoveHeaven"),
        capability: Capability {
            usable: false,
            searchable: false,
            pageable: false,
            pageable_search: false,
            https: false,
            favicon: None,
        },
        tags: Vec::new(),
    });
    t.push(SourceMeta {
        domain: String::from_str("www.luscious.net"),
        name: String::from_str("Luscious"),
        capability: Capability {
            usable: true,
            searchable: true,
            pageable: true,
            pageable_search: true,
            https: true,
            favicon: Some(String::from_str("https://www.luscious.net/favicon.ico")),
        },
        tags: vec![Tag::English, Tag::Japanese, Tag::Chinese, Tag::NSFW],
    });
    t.push(SourceMeta {
        domain: String::from_str("www.mangabz.com"),
        name: String::from_str("Mangabz"),
        capability: Capability {
            usable: false,
            searchable: false,
            pageable: false,
            pageable_search: false,
            https: false,
            favicon: None,
        },
        tags: Vec::new(),
    });
    t.push(SourceMeta {
        domain: String::from_str("manganelo.com"),
        name: String::from_str("Manganelo"),
        capability: Capability {
            usable: false,
            searchable: false,
            pageable: false,
            pageable_search: false,
            https: false,
            favicon: None,
        },
        tags: Vec::new(),
    });
    t.push(SourceMeta {
        domain: String::from_str("www.mangareader.net"),
        name: String::from_str("Mangareader"),
        capability: Capability {
            usable: false,
            searchable: false,
            pageable: false,
            pageable_search: false,
            https: false,
            favicon: None,
        },
        tags: Vec::new(),
    });
    t.push(SourceMeta {
        domain: String::from_str("www.manhuadui.com"),
        name: String::from_str("\u{6f2b}\u{753b}\u{5806}"),
        capability: Capability {
            usable: false,
            searchable: false,
            pageable: false,
            pageable_search: false,
            https: false,
            favicon: None,
        },
        tags: Vec::new(),
    });
    t.push(SourceMeta {
        domain: String::from_str("www.manhuadb.com"),
        name: String::from_str("\u{6f2b}\u{753b}DB"),
        capability: Capability {
            usable: false,
            searchable: false,
            pageable: false,
            pageable_search: false,
            https: false,
            favicon: None,
        },
        tags: Vec::new(),
    });
    t.push(SourceMeta {
        domain: String::from_str("www.manhuagui.com"),
        name: String::from_str("\u{6f2b}\u{753b}\u{67dc}"),
        capability: Capability {
            usable: false,
            searchable: false,
            pageable: false,
            pageable_search: false,
            https: false,
            favicon: None,
        },
        tags: Vec::new(),
    });
    t.push(SourceMeta {
        domain: String::from_str("www.manhuapu.com"),
        name: String::from_str("\u{6f2b}\u{753b}\u{94fa}"),
        capability: Capability {
            usable: false,
            searchable: false,
            pageable: false,
            pageable_search: false,
            https: false,
            favicon: None,
        },
        tags: Vec::new(),
    });
    t.push(SourceMeta {
        domain: String::from_str("www.mkzhan.com"),
        name: String::from_str("\u{6f2b}\u{5ba2}\u{6808}"),
        capability: Capability {
            usable: false,
            searchable: false,
            pageable: false,
            pageable_search: false,
            https: false,
            favicon: None,
        },
        tags: Vec::new(),
    });
    t.push(SourceMeta {
        domain: String::from_str("nhentai.net"),
        name: String::from_str("nhentai"),
        capability: Capability {
            usable: false,
            searchable: false,
            pageable: false,
            pageable_search: false,
            https: false,
            favicon: None,
        },
        tags: Vec::new(),
    });
    t.push(SourceMeta {
        domain: String::from_str("9hentai.com"),
        name: String::from_str("9hentai"),
        capability: Capability {
            usable: false,
            searchable: false,
            pageable: false,
            pageable_search: false,
            https: false,
            favicon: None,
        },
        tags: Vec::new(),
    });
    t.push(SourceMeta {
        domain: String::from_str("www.90mh.com"),
        name: String::from_str("90\u{6f2b}\u{753b}\u{7f51}"),
        capability: Capability {
            usable: false,
            searchable: false,
            pageable: false,
            pageable_search: false,
            https: false,
            favicon: None,
        },
        tags: Vec::new(),
    });
    t.push(SourceMeta {
        domain: String::from_str("www.177pic.info"),
        name: String::from_str("177\u{6f2b}\u{756b}"),
        capability: Capability {
            usable: false,
            searchable: false,
            pageable: false,
            pageable_search: false,
            https: false,
            favicon: None,
        },
        tags: Vec::new(),
    });
    t.push(SourceMeta {
        domain: String::from_str("www.onemanhua.com"),
        name: String::from_str("ONE\u{6f2b}\u{753b}"),
        capability: Capability {
            usable: false,
            searchable: false,
            pageable: false,
            pageable_search: false,
            https: false,
            favicon: None,
        },
        tags: Vec::new(),
    });
    t.push(SourceMeta {
        domain: String::from_str("www.pufei8.com"),
        name: String::from_str("\u{6251}\u{98de}\u{6f2b}\u{753b}"),
        capability: Capability {
            usable: false,
            searchable: false,
            pageable: false,
            pageable_search: false,
            https: false,
            favicon: None,
        },
        tags: Vec::new(),
    });
    t.push(SourceMeta {
        domain: String::from_str("www.qimiaomh.com"),
        name: String::from_str("\u{5947}\u{5999}\u{6f2b}\u{753b}"),
        capability: Capability {
            usable: false,
            searchable: false,
            pageable: false,
            pageable_search: false,
            https: false,
            favicon: None,
        },
        tags: Vec::new(),
    });
    t.push(SourceMeta {
        domain: String::from_str("www.tohomh123.com"),
        name: String::from_str("\u{571f}\u{8c6a}\u{6f2b}\u{753b}"),
        capability: Capability {
            usable: false,
            searchable: false,
            pageable: false,
            pageable_search: false,
            https: false,
            favicon: None,
        },
        tags: Vec::new(),
    });
    t.push(SourceMeta {
        domain: String::from_str("www.tvbsmh.com"),
        name: String::from_str("TVBS\u{6f2b}\u{756b}"),
        capability: Capability {
            usable: false,
            searchable: false,
            pageable: false,
            pageable_search: false,
            https: false,
            favicon: None,
        },
        tags: Vec::new(),
    });
    t.push(SourceMeta {
        domain: String::from_str("twhentai.com"),
        name: String::from_str("\u{53f0}\u{7063}\u{6210}\u{4eba}H\u{6f2b}"),
        capability: Capability {
            usable: false,
            searchable: false,
            pageable: false,
            pageable_search: false,
            https: false,
            favicon: None,
        },
        tags: Vec::new(),
    });
    t.push(SourceMeta {
        domain: String::from_str("www.2animx.com"),
        name: String::from_str("\u{4e8c}\u{6b21}\u{5143}\u{52d5}\u{6f2b}"),
        capability: Capability {
            usable: false,
            searchable: false,
            pageable: false,
            pageable_search: false,
            https: false,
            favicon: None,
        },
        tags: Vec::new(),
    });
    t.push(SourceMeta {
        domain: String::from_str("www.wnacg.org"),
        name: String::from_str("\u{7d33}\u{58eb}\u{6f2b}\u{756b}"),
        capability: Capability {
            usable: true,
            searchable: false,
            pageable: false,
            pageable_search: false,
            https: false,
            favicon: None,
        },
        tags: vec![Tag::Chinese, Tag::NSFW],
    });
    t.push(SourceMeta {
        domain: String::from_str("www.wuqimh.com"),
        name: String::from_str("57\u{6f2b}\u{753b}\u{7f51}"),
        capability: Capability {
            usable: false,
            searchable: false,
            pageable: false,
            pageable_search: false,
            https: false,
            favicon: None,
        },
        tags: Vec::new(),
    });
    t.push(SourceMeta {
        domain: String::from_str("www.177mh.net"),
        name: String::from_str("\u{65b0}\u{65b0}\u{6f2b}\u{753b}\u{7f51}"),
        capability: Capability {
            usable: false,
            searchable: false,
            pageable: false,
            pageable_search: false,
            https: false,
            favicon: None,
        },
        tags: Vec::new(),
    });
    t.push(SourceMeta {
        domain: String::from_str("8comic.se"),
        name: String::from_str("YYLS\u{6f2b}\u{756b}"),
        capability: Capability {
            usable: true,
            searchable: false,
            pageable: false,
            pageable_search: false,
            https: false,
            favicon: Some(String::from_str("https://8comic.se/favicon.ico")),
        },
        tags: Vec::new(),
    });
    proof {
        assert(metas_view(t@) =~~= registry_table());
    }
    t
}

/// The tag-filter query over the built-in registry. Sources whose adapter
/// metadata the crate does not carry have no recorded tags, so a non-empty
/// include filter never finds them.
pub fn find_platforms(includes: Vec<Tag>, excludes: Vec<Tag>) -> (r: Vec<(String, String)>)
    ensures
        pair_views(r@) == found_pairs(registry_table(), includes@, excludes@, 38),
{
    let reg = registry();
    find_in(&reg, &includes, &excludes)
}

/// The first record from index `k` on whose identifier is `domain`.
pub open spec fn lookup_meta(regs: Seq<SourceMetaV>, domain: Seq<char>, k: int) -> Option<
    SourceMetaV,
>
    decreases regs.len() - k,
{
    if k < 0 || k >= regs.len() {
        None
    } else if regs[k].domain == domain {
        Some(regs[k])
    } else {
        lookup_meta(regs, domain, k + 1)
    }
}

/// The view of an optional record.
pub open spec fn opt_meta_view(r: Option<SourceMeta>) -> Option<SourceMetaV> {
    match r {
        Some(m) => Some(meta_view(m)),
        None => None,
    }
}

/// The registry record of the source with this identifier: present exactly
/// for the identifiers `platforms()` lists ([`lemma_lookup_iff_listed`]).
/// A record without carried adapter metadata is marked unusable.
pub fn get_extr(domain: &str) -> (r: Option<SourceMeta>)
    ensures
        opt_meta_view(r) == lookup_meta(registry_table(), domain@, 0),
{
    let mut reg = registry();
    let d = domain.to_owned();
    let n = reg.len();
    let mut k: usize = 0;
    while k < n
        invariant
            n == reg@.len(),
            metas_view(reg@) == registry_table(),
            0 <= k <= n,
            lookup_meta(registry_table(), domain@, 0) == lookup_meta(
                registry_table(),
                domain@,
                k as int,
            ),
            d@ == domain@,
        decreases n - k,
    {
        proof {
            assert(registry_table()[k as int] == meta_view(reg@[k as int]));
        }
        if reg[k].domain == d {
            let m = reg.remove(k);
            return Some(m);
        }
        k += 1;
    }
    None
}


/// The identifier is a key of the platform table.
pub open spec fn platform_key(domain: Seq<char>) -> bool {
    exists|k: int| 0 <= k < platform_table().len() && #[trigger] platform_table()[k].0 == domain
}

/// The lookup from index `k` on succeeds exactly when some record from `k`
/// on carries the identifier.
proof fn lemma_lookup_some(regs: Seq<SourceMetaV>, domain: Seq<char>, k: int)
    requires
        0 <= k <= regs.len(),
    ensures
        lookup_meta(regs, domain, k) is Some <==> exists|j: int|
            k <= j < regs.len() && (#[trigger] regs[j]).domain == domain,
    decreases regs.len() - k,
{
    if k < regs.len() {
        lemma_lookup_some(regs, domain, k + 1);
    }
}

/// The lookup and the listing agree on one key set: a source identifier has
/// a registry record exactly when the platform table lists it, so
/// `get_extr` succeeds precisely for the identifiers `platforms` exposes.
pub proof fn lemma_lookup_iff_listed(domain: Seq<char>)
    ensures
        lookup_meta(registry_table(), domain, 0) is Some <==> platform_key(domain),
{
    lemma_lookup_some(registry_table(), domain, 0);
    assert(forall|k: int|
        0 <= k < 38 ==> (#[trigger] registry_table()[k]).domain == platform_table()[k].0);
    if platform_key(domain) {
        let k = choose|k: int|
            0 <= k < platform_table().len() && #[trigger] platform_table()[k].0 == domain;
        assert(registry_table()[k].domain == domain);
    }
    if lookup_meta(registry_table(), domain, 0) is Some {
        let j = choose|j: int|
            0 <= j < registry_table().len() && (#[trigger] registry_table()[j]).domain == domain;
        assert(platform_table()[j].0 == domain);
    }
}

} // verus!
