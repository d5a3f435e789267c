use vstd::prelude::*;

verus! {

/// Whether a pattern is a valid regular expression, as `regex::Regex::new`
/// decides it.
pub uninterp spec fn valid_regex(pat: Seq<char>) -> bool;

/// Whether the regular expression `pat` matches somewhere in `text`.
pub uninterp spec fn re_is_match(pat: Seq<char>, text: Seq<char>) -> bool;

/// Relies on regex::Regex::new and regex::Regex::is_match: `None` when the
/// pattern does not compile, else whether it matches somewhere in `text`.
#[verifier::external_body]
pub fn regex_match(pat: &str, text: &str) -> (r: Option<bool>)
    ensures
        r is Some <==> valid_regex(pat@),
        r matches Some(b) ==> b == re_is_match(pat@, text@),
{
    match regex::Regex::new(pat) {
        Ok(re) => Some(re.is_match(text)),
        Err(_) => None,
    }
}

/// What a URL identifies: the collection, or one subunit, of a source.
#[derive(Debug, PartialEq, Eq)]
pub enum DomainRoute {
    Comic(String),
    Chapter(String),
}

/// The spec twin of [`DomainRoute`], over character sequences.
pub enum DomainRouteV {
    Comic(Seq<char>),
    Chapter(Seq<char>),
}

/// The view of a classification result.
pub open spec fn route_view(r: Option<DomainRoute>) -> Option<DomainRouteV> {
    match r {
        Some(DomainRoute::Comic(d)) => Some(DomainRouteV::Comic(d@)),
        Some(DomainRoute::Chapter(d)) => Some(DomainRouteV::Chapter(d@)),
        None => None,
    }
}

/// One route table entry: a source identifier, its collection URL pattern
/// and its subunit URL pattern. A source with no distinct collection URL
/// shape uses a pattern that matches nothing.
pub struct RouteEntry {
    pub domain: String,
    pub comic_re: String,
    pub chapter_re: String,
}

/// The (identifier, collection pattern, subunit pattern) views of a table.
pub open spec fn entries_view(table: Seq<RouteEntry>) -> Seq<(Seq<char>, Seq<char>, Seq<char>)> {
    table.map_values(|e: RouteEntry| (e.domain@, e.comic_re@, e.chapter_re@))
}

/// Classification over the table from entry `k` on: linear, first match
/// wins, and within one entry the subunit pattern is tested before the
/// collection pattern. A pattern that does not compile matches nothing. No
/// match across the whole table is no classification.
pub open spec fn route_spec(
    table: Seq<(Seq<char>, Seq<char>, Seq<char>)>,
    url: Seq<char>,
    k: int,
) -> Option<DomainRouteV>
    decreases table.len() - k,
{
    if k < 0 || k >= table.len() {
        None
    } else if valid_regex(table[k].2) && re_is_match(table[k].2, url) {
        Some(DomainRouteV::Chapter(table[k].0))
    } else if valid_regex(table[k].1) && re_is_match(table[k].1, url) {
        Some(DomainRouteV::Comic(table[k].0))
    } else {
        route_spec(table, url, k + 1)
    }
}

/// Classify a URL against an ordered route table.
pub fn classify(table: &Vec<RouteEntry>, url: &str) -> (r: Option<DomainRoute>)
    ensures
        route_view(r) == route_spec(entries_view(table@), url@, 0),
{
    let ghost tv = entries_view(table@);
    let n = table.len();
    let mut k: usize = 0;
    while k < n
        invariant
            n == table@.len(),
            tv == entries_view(table@),
            0 <= k <= n,
            route_spec(tv, url@, 0) == route_spec(tv, url@, k as int),
        decreases n - k,
    {
        let entry = &table[k];
        match regex_match(entry.chapter_re.as_str(), url) {
            Some(true) => {
                return Some(DomainRoute::Chapter(entry.domain.clone()));
            },
            _ => {},
        }
        match regex_match(entry.comic_re.as_str(), url) {
            Some(true) => {
                return Some(DomainRoute::Comic(entry.domain.clone()));
            },
            _ => {},
        }
        k += 1;
    }
    None
}

/// No pattern of the entry matches the URL (an invalid pattern matches
/// nothing).
pub open spec fn entry_passed(e: (Seq<char>, Seq<char>, Seq<char>), url: Seq<char>) -> bool {
    &&& !(valid_regex(e.2) && re_is_match(e.2, url))
    &&& !(valid_regex(e.1) && re_is_match(e.1, url))
}

/// Routing precedence: when no entry before `k` matches the URL and entry
/// `k`'s subunit pattern matches, the URL classifies as that entry's
/// subunit — even when its collection pattern matches too.
pub proof fn lemma_route_precedence(
    table: Seq<(Seq<char>, Seq<char>, Seq<char>)>,
    url: Seq<char>,
    k: int,
)
    requires
        0 <= k < table.len(),
        forall|j: int| 0 <= j < k ==> entry_passed(#[trigger] table[j], url),
        valid_regex(table[k].2) && re_is_match(table[k].2, url),
    ensures
        route_spec(table, url, 0) == Some(DomainRouteV::Chapter(table[k].0)),
{
    lemma_route_skip(table, url, 0, k);
}

/// Classification from `j` equals classification from `k` when every entry
/// in between matches nothing.
pub proof fn lemma_route_skip(
    table: Seq<(Seq<char>, Seq<char>, Seq<char>)>,
    url: Seq<char>,
    j: int,
    k: int,
)
    requires
        0 <= j <= k <= table.len(),
        forall|m: int| j <= m < k ==> entry_passed(#[trigger] table[m], url),
    ensures
        route_spec(table, url, j) == route_spec(table, url, k),
    decreases k - j,
{
    if j < k {
        lemma_route_skip(table, url, j + 1, k);
    }
}

/// The entry at index `k` of the built-in route table.
pub open spec fn route_entry_spec(k: int) -> (Seq<char>, Seq<char>, Seq<char>) {
    if k == 0 {
        ("www.bidongmh.com"@, "^https?://www\\.bidongmh\\.com/book/\\d+"@, "^https?://www\\.bidongmh\\.com/chapter/\\d+"@)
    }
    else if k == 1 {
        ("www.bnmanhua.com"@, "^https?://www\\.bnmanhua\\.com/comic/\\d+\\.html"@, "^https?://www\\.bnmanhua\\.com/comic/\\d+/\\d+\\.html"@)
    }
    else if k == 2 {
        ("www.cartoonmad.com"@, "^https?://www\\.cartoonmad\\.com/comic/\\d{1,5}\\.html"@, "^https?://www\\.cartoonmad\\.com/comic/\\d{11,}.html"@)
    }
    else if k == 3 {
        ("www.comico.com.tw"@, "^https?://www\\.comico\\.com\\.tw/challenge/\\d+"@, "^https?://www\\.comico\\.com\\.tw/challenge/\\d+/\\d+/"@)
    }
    else if k == 4 {
        ("www.dm5.com"@, "^https?://www\\.dm5\\.com/[^/]+/"@, "^https?://www\\.dm5\\.com/m\\d+/"@)
    }
    else if k == 5 {
        ("manhua.dmzj.com"@, "^https?://manhua\\.dmzj\\.com/[^/]+/"@, "^https?://manhua\\.dmzj\\.com/[^/]+/\\d+\\.shtml"@)
    }
    else if k == 6 {
        ("e-hentai.org"@, "^-NONE-$"@, "^https?://e-hentai\\.org/g/\\d+/[^/]+/"@)
    }
    else if k == 7 {
        ("18h.animezilla.com"@, "^-NONE-$"@, "^https?://18h\\.animezilla\\.com/manga/\\d+"@)
    }
    else if k == 8 {
        ("www.gufengmh8.com"@, "^https?://www\\.gufengmh8\\.com/manhua/.+"@, "^https?://www\\.gufengmh8\\.com/manhua/[^/]+/\\d+\\.html"@)
    }
    else if k == 9 {
        ("c-upp.com"@, "^-NONE-$"@, "^https?://c-upp\\.com/ja/s/\\d+"@)
    }
    else if k == 10 {
        ("www.hhimm.com"@, "^https?://www\\.hhimm\\.com/manhua/\\d+\\.html"@, "^https?://www\\.hhimm\\.com/cool\\d+/\\d+\\.html"@)
    }
    else if k == 11 {
        ("www.pufei8.com"@, "^https?://www\\.pufei8\\.com/manhua/\\d+/index\\.html"@, "^https?://www\\.pufei8\\.com/manhua/\\d+/\\d+\\.html"@)
    }
    else if k == 12 {
        ("www.kuaikanmanhua.com"@, "^https?://www\\.kuaikanmanhua\\.com/web/topic/\\d+"@, "^https?://www\\.kuaikanmanhua\\.com/web/comic/\\d+"@)
    }
    else if k == 13 {
        ("comic.ikkdm.com"@, "^https?://comic\\.ikkdm\\.com/comiclist/\\d+/index.htm"@, "^https?://comic\\d?\\.ikkdm\\.com/comiclist/\\d+/\\d+/\\d+.htm"@)
    }
    else if k == 14 {
        ("loveheaven.net"@, "^https?://loveheaven\\.net/manga-.+\\.html"@, "^https?://loveheaven\\.net/read-.+\\.html"@)
    }
    else if k == 15 {
        ("www.luscious.net"@, "^-NONE-$"@, "^https?://www\\.luscious\\.net/albums/.+"@)
    }
    else if k == 16 {
        ("www.mangabz.com"@, "^https?://www\\.mangabz\\.com/.+"@, "^https?://www\\.mangabz\\.com/m\\d+"@)
    }
    else if k == 17 {
        ("manganelo.com"@, "^https?://manganelo\\.com/manga/.+"@, "^https?://manganelo\\.com/chapter/[^/]+/chapter_.+"@)
    }
    else if k == 18 {
        ("www.manhuadb.com"@, "^https?://www\\.manhuadb\\.com/manhua/.+"@, "^https?://www\\.manhuadb\\.com/manhua/\\d+/\\d+_\\d+\\.html"@)
    }
    else if k == 19 {
        ("www.manhuadui.com"@, "^https?://www\\.manhuadui\\.com/manhua/.+"@, "^https?://www\\.manhuadui\\.com/manhua/[^/]+/\\d+\\.html"@)
    }
    else if k == 20 {
        ("www.manhuagui.com"@, "^https?://www\\.manhuagui\\.com/comic/\\d+/"@, "^https?://www\\.manhuagui\\.com/comic/\\d+/\\d+\\.html"@)
    }
    else if k == 21 {
        ("www.manhuapu.com"@, "^https?://www\\.manhuapu\\.com/[^/]+/.+"@, "^https?://www\\.manhuapu\\.com/[^/]+/[^/]+/\\d+\\.html"@)
    }
    else if k == 22 {
        ("nhentai.net"@, "^-NONE-$"@, "^https?://nhentai\\.net/g/\\d+"@)
    }
    else if k == 23 {
        ("9hentai.com"@, "^-NONE-$"@, "^https?://9hentai\\.com/g/\\d+"@)
    }
    else if k == 24 {
        ("www.90mh.com"@, "^https?://www\\.90mh\\.com/manhua/.+"@, "^https?://www\\.90mh\\.com/manhua/[^/]+/\\d+\\.html"@)
    }
    else if k == 25 {
        ("www.177pic.info"@, "^-NONE-$"@, "^https?://www\\.177pic\\.info/html/\\d+/\\d+/\\d+\\.html"@)
    }
    else if k == 26 {
        ("www.onemanhua.com"@, "^https?://www\\.onemanhua\\.com/\\d+"@, "^https?://www\\.onemanhua\\.com/\\d+/\\d+/\\d+\\.html"@)
    }
    else if k == 27 {
        ("www.qimiaomh.com"@, "^https?://www\\.qimiaomh\\.com/manhua/\\d+\\.html"@, "^https?://www\\.qimiaomh\\.com/manhua/\\d+/\\d+\\.html"@)
    }
    else if k == 28 {
        ("www.tohomh123.com"@, "^https?://www\\.tohomh123\\.com/.+"@, "^https?://www\\.tohomh123\\.com/[^/]+/\\d+\\.html"@)
    }
    else if k == 29 {
        ("twhentai.com"@, "^-NONE-$"@, "^https?://twhentai\\.com/[^/]+/\\d+"@)
    }
    else if k == 30 {
        ("www.2animx.com"@, "^https?://www\\.2animx\\.com/index-comic-name-.+-id-\\d+"@, "^https?://www\\.2animx\\.com/index-look-name-.+-cid-\\d+-id-\\d+"@)
    }
    else if k == 31 {
        ("www.wnacg.org"@, "^-NONE-$"@, "^https?://www\\.wnacg\\.org/photos-index-(page-\\d+-)?aid-\\d+\\.html"@)
    }
    else if k == 32 {
        ("www.wuqimh.com"@, "^https?://www\\.wuqimh\\.com/\\d+"@, "^https?://www\\.wuqimh\\.com/\\d+/\\d+\\.html"@)
    }
    else if k == 33 {
        ("www.177mh.net"@, "^https?://www\\.177mh\\.net/colist_\\d+\\.html"@, "^https?://www.177mh.net/\\d+/\\d+\\.html"@)
    }
    else if k == 34 {
        ("8comic.se"@, "^-NONE-$"@, "^https?://8comic\\.se/\\d+"@)
    }
    else {
        (""@, ""@, ""@)
    }
}

/// The built-in route table: one entry per registered source, in
/// registration order.
pub open spec fn route_table() -> Seq<(Seq<char>, Seq<char>, Seq<char>)> {
    Seq::new(35, |k: int| route_entry_spec(k))
}

fn push_entry(t: &mut Vec<RouteEntry>, domain: &str, comic_re: &str, chapter_re: &str)
    ensures
        final(t)@.len() == old(t)@.len() + 1,
        forall|k: int| 0 <= k < old(t)@.len() ==> final(t)@[k] == old(t)@[k],
        final(t)@.last().domain@ == domain@,
        final(t)@.last().comic_re@ == comic_re@,
        final(t)@.last().chapter_re@ == chapter_re@,
{
    t.push(RouteEntry {
        domain: domain.to_owned(),
        comic_re: comic_re.to_owned(),
        chapter_re: chapter_re.to_owned(),
    });
}

/// Build the built-in route table.
#[verifier::rlimit(100)]
pub fn routes() -> (r: Vec<RouteEntry>)
    ensures
        entries_view(r@) =~~= route_table(),
{
    let mut t: Vec<RouteEntry> = Vec::new();
    push_entry(&mut t, "www.bidongmh.com", "^https?://www\\.bidongmh\\.com/book/\\d+", "^https?://www\\.bidongmh\\.com/chapter/\\d+");
    push_entry(&mut t, "www.bnmanhua.com", "^https?://www\\.bnmanhua\\.com/comic/\\d+\\.html", "^https?://www\\.bnmanhua\\.com/comic/\\d+/\\d+\\.html");
    push_entry(&mut t, "www.cartoonmad.com", "^https?://www\\.cartoonmad\\.com/comic/\\d{1,5}\\.html", "^https?://www\\.cartoonmad\\.com/comic/\\d{11,}.html");
    push_entry(&mut t, "www.comico.com.tw", "^https?://www\\.comico\\.com\\.tw/challenge/\\d+", "^https?://www\\.comico\\.com\\.tw/challenge/\\d+/\\d+/");
    push_entry(&mut t, "www.dm5.com", "^https?://www\\.dm5\\.com/[^/]+/", "^https?://www\\.dm5\\.com/m\\d+/");
    push_entry(&mut t, "manhua.dmzj.com", "^https?://manhua\\.dmzj\\.com/[^/]+/", "^https?://manhua\\.dmzj\\.com/[^/]+/\\d+\\.shtml");
    push_entry(&mut t, "e-hentai.org", "^-NONE-$", "^https?://e-hentai\\.org/g/\\d+/[^/]+/");
    push_entry(&mut t, "18h.animezilla.com", "^-NONE-$", "^https?://18h\\.animezilla\\.com/manga/\\d+");
    push_entry(&mut t, "www.gufengmh8.com", "^https?://www\\.gufengmh8\\.com/manhua/.+", "^https?://www\\.gufengmh8\\.com/manhua/[^/]+/\\d+\\.html");
    push_entry(&mut t, "c-upp.com", "^-NONE-$", "^https?://c-upp\\.com/ja/s/\\d+");
    push_entry(&mut t, "www.hhimm.com", "^https?://www\\.hhimm\\.com/manhua/\\d+\\.html", "^https?://www\\.hhimm\\.com/cool\\d+/\\d+\\.html");
    push_entry(&mut t, "www.pufei8.com", "^https?://www\\.pufei8\\.com/manhua/\\d+/index\\.html", "^https?://www\\.pufei8\\.com/manhua/\\d+/\\d+\\.html");
    push_entry(&mut t, "www.kuaikanmanhua.com", "^https?://www\\.kuaikanmanhua\\.com/web/topic/\\d+", "^https?://www\\.kuaikanmanhua\\.com/web/comic/\\d+");
    push_entry(&mut t, "comic.ikkdm.com", "^https?://comic\\.ikkdm\\.com/comiclist/\\d+/index.htm", "^https?://comic\\d?\\.ikkdm\\.com/comiclist/\\d+/\\d+/\\d+.htm");
    push_entry(&mut t, "loveheaven.net", "^https?://loveheaven\\.net/manga-.+\\.html", "^https?://loveheaven\\.net/read-.+\\.html");
    push_entry(&mut t, "www.luscious.net", "^-NONE-$", "^https?://www\\.luscious\\.net/albums/.+");
    push_entry(&mut t, "www.mangabz.com", "^https?://www\\.mangabz\\.com/.+", "^https?://www\\.mangabz\\.com/m\\d+");
    push_entry(&mut t, "manganelo.com", "^https?://manganelo\\.com/manga/.+", "^https?://manganelo\\.com/chapter/[^/]+/chapter_.+");
    push_entry(&mut t, "www.manhuadb.com", "^https?://www\\.manhuadb\\.com/manhua/.+", "^https?://www\\.manhuadb\\.com/manhua/\\d+/\\d+_\\d+\\.html");
    push_entry(&mut t, "www.manhuadui.com", "^https?://www\\.manhuadui\\.com/manhua/.+", "^https?://www\\.manhuadui\\.com/manhua/[^/]+/\\d+\\.html");
    push_entry(&mut t, "www.manhuagui.com", "^https?://www\\.manhuagui\\.com/comic/\\d+/", "^https?://www\\.manhuagui\\.com/comic/\\d+/\\d+\\.html");
    push_entry(&mut t, "www.manhuapu.com", "^https?://www\\.manhuapu\\.com/[^/]+/.+", "^https?://www\\.manhuapu\\.com/[^/]+/[^/]+/\\d+\\.html");
    push_entry(&mut t, "nhentai.net", "^-NONE-$", "^https?://nhentai\\.net/g/\\d+");
    push_entry(&mut t, "9hentai.com", "^-NONE-$", "^https?://9hentai\\.com/g/\\d+");
    push_entry(&mut t, "www.90mh.com", "^https?://www\\.90mh\\.com/manhua/.+", "^https?://www\\.90mh\\.com/manhua/[^/]+/\\d+\\.html");
    push_entry(&mut t, "www.177pic.info", "^-NONE-$", "^https?://www\\.177pic\\.info/html/\\d+/\\d+/\\d+\\.html");
    push_entry(&mut t, "www.onemanhua.com", "^https?://www\\.onemanhua\\.com/\\d+", "^https?://www\\.onemanhua\\.com/\\d+/\\d+/\\d+\\.html");
    push_entry(&mut t, "www.qimiaomh.com", "^https?://www\\.qimiaomh\\.com/manhua/\\d+\\.html", "^https?://www\\.qimiaomh\\.com/manhua/\\d+/\\d+\\.html");
    push_entry(&mut t, "www.tohomh123.com", "^https?://www\\.tohomh123\\.com/.+", "^https?://www\\.tohomh123\\.com/[^/]+/\\d+\\.html");
    push_entry(&mut t, "twhentai.com", "^-NONE-$", "^https?://twhentai\\.com/[^/]+/\\d+");
    push_entry(&mut t, "www.2animx.com", "^https?://www\\.2animx\\.com/index-comic-name-.+-id-\\d+", "^https?://www\\.2animx\\.com/index-look-name-.+-cid-\\d+-id-\\d+");
    push_entry(&mut t, "www.wnacg.org", "^-NONE-$", "^https?://www\\.wnacg\\.org/photos-index-(page-\\d+-)?aid-\\d+\\.html");
    push_entry(&mut t, "www.wuqimh.com", "^https?://www\\.wuqimh\\.com/\\d+", "^https?://www\\.wuqimh\\.com/\\d+/\\d+\\.html");
    push_entry(&mut t, "www.177mh.net", "^https?://www\\.177mh\\.net/colist_\\d+\\.html", "^https?://www.177mh.net/\\d+/\\d+\\.html");
    push_entry(&mut t, "8comic.se", "^-NONE-$", "^https?://8comic\\.se/\\d+");
    proof {
        assert(entries_view(t@) =~~= route_table());
    }
    t
}

/// Classify a URL against the built-in route table: the source and entity
/// kind it identifies, or nothing.
pub fn domain_route(url: &str) -> (r: Option<DomainRoute>)
    ensures
        route_view(r) == route_spec(route_table(), url@, 0),
{
    let table = routes();
    classify(&table, url)
}

} // verus!
