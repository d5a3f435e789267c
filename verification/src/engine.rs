use vstd::prelude::*;

use crate::dom::{
    all_valid, check_selector, doc_count, doc_matches, elem_attr, elem_attr_of, elem_count,
    elem_exists, elem_matches, elem_text, elem_text_of, opt_view, valid_selector, views_of,
    Document,
};
use crate::error::ExtractError;
use crate::models::{Chapter, Comic};

verus! {

/// The declarative configuration of one extraction: selector strings,
/// attribute names and prefixes, all optional with defined defaults. An
/// empty string means "not configured". A configured parent container
/// selector chooses grouped mode; otherwise links are selected directly by
/// the target selector (flat mode).
pub struct ExtractConfig {
    /// Grouped mode: the parent container selector.
    pub parent_dom: String,
    /// Flat mode: the link selector, applied to the whole document.
    pub target_dom: String,
    /// Title source: a sub-selector under the link element, first text.
    pub target_text_dom: String,
    /// Title source: a sub-selector under the link element, first text.
    pub link_text_dom: String,
    /// Title source: an attribute of the link element.
    pub target_text_attr: String,
    /// Title source: an attribute of the link element.
    pub link_text_attr: String,
    /// Grouped mode: the link selector, scoped to the container.
    pub link_dom: String,
    /// The link URL attribute; defaults to `href`.
    pub link_attr: String,
    /// Prepended to every resolved link URL.
    pub link_prefix: String,
    /// Grouped mode: the cover selector, scoped to the container.
    pub cover_dom: String,
    /// The cover URL attribute; defaults to `src`.
    pub cover_attr: String,
    /// An ordered candidate list of cover attributes; first present wins.
    pub cover_attrs: Vec<String>,
    /// Prepended to every resolved cover URL.
    pub cover_prefix: String,
    /// Matched elements containing a match of this sub-selector are dropped.
    pub ignore_contains: String,
}

impl Default for ExtractConfig {
    /// Everything unconfigured, with the default link attribute `href` and
    /// the default cover attribute `src`.
    fn default() -> (c: ExtractConfig)
        ensures
            c.parent_dom@ == Seq::<char>::empty(),
            c.target_dom@ == Seq::<char>::empty(),
            c.target_text_dom@ == Seq::<char>::empty(),
            c.link_text_dom@ == Seq::<char>::empty(),
            c.target_text_attr@ == Seq::<char>::empty(),
            c.link_text_attr@ == Seq::<char>::empty(),
            c.link_dom@ == Seq::<char>::empty(),
            c.link_attr@ == "href"@,
            c.link_prefix@ == Seq::<char>::empty(),
            c.cover_dom@ == Seq::<char>::empty(),
            c.cover_attr@ == "src"@,
            c.cover_attrs@ =~= Seq::<String>::empty(),
            c.cover_prefix@ == Seq::<char>::empty(),
            c.ignore_contains@ == Seq::<char>::empty(),
    {
        proof {
            reveal_strlit("");
            assert(""@ =~= Seq::<char>::empty());
        }
        ExtractConfig {
            parent_dom: String::new(),
            target_dom: String::new(),
            target_text_dom: String::new(),
            link_text_dom: String::new(),
            target_text_attr: String::new(),
            link_text_attr: String::new(),
            link_dom: String::new(),
            link_attr: String::from_str("href"),
            link_prefix: String::new(),
            cover_dom: String::new(),
            cover_attr: String::from_str("src"),
            cover_attrs: Vec::new(),
            cover_prefix: String::new(),
            ignore_contains: String::new(),
        }
    }
}

/// An extracted entity: the mandatory (title, URL) pair, and the cover
/// attached afterwards where the mode resolves one.
pub struct Entity {
    pub title: String,
    pub url: String,
    pub cover: String,
}

impl Entity {
    /// The mandatory first step: an entity from a discovered link.
    pub fn from_link(title: String, url: String) -> (e: Entity)
        ensures
            e.title == title,
            e.url == url,
            e.cover@ == Seq::<char>::empty(),
    {
        Entity { title, url, cover: String::new() }
    }

    /// The optional second step: attach a resolved cover.
    pub fn set_cover(&mut self, cover: String)
        ensures
            final(self).title == old(self).title,
            final(self).url == old(self).url,
            final(self).cover == cover,
    {
        self.cover = cover;
    }
}

/// The (title, URL, cover) views of an entity.
pub open spec fn entity_view(e: Entity) -> (Seq<char>, Seq<char>, Seq<char>) {
    (e.title@, e.url@, e.cover@)
}

/// The views of a sequence of entities.
pub open spec fn entity_views(s: Seq<Entity>) -> Seq<(Seq<char>, Seq<char>, Seq<char>)> {
    s.map_values(|e: Entity| entity_view(e))
}

/// A character with the Unicode `White_Space` property, those that
/// `str::trim` strips.
pub open spec fn is_ws_char(c: char) -> bool {
    ||| c as u32 == 0x09
    ||| c as u32 == 0x0A
    ||| c as u32 == 0x0B
    ||| c as u32 == 0x0C
    ||| c as u32 == 0x0D
    ||| c as u32 == 0x20
    ||| c as u32 == 0x85
    ||| c as u32 == 0xA0
    ||| c as u32 == 0x1680
    ||| (0x2000 <= c as u32 && c as u32 <= 0x200A)
    ||| c as u32 == 0x2028
    ||| c as u32 == 0x2029
    ||| c as u32 == 0x202F
    ||| c as u32 == 0x205F
    ||| c as u32 == 0x3000
}

pub open spec fn trim_start_spec(s: Seq<char>) -> Seq<char>
    decreases s.len(),
{
    if s.len() > 0 && is_ws_char(s[0]) {
        trim_start_spec(s.drop_first())
    } else {
        s
    }
}

pub open spec fn trim_end_spec(s: Seq<char>) -> Seq<char>
    decreases s.len(),
{
    if s.len() > 0 && is_ws_char(s.last()) {
        trim_end_spec(s.drop_last())
    } else {
        s
    }
}

/// `s` with leading and trailing whitespace removed.
pub open spec fn trim_spec(s: Seq<char>) -> Seq<char> {
    trim_end_spec(trim_start_spec(s))
}

pub fn is_ws(c: char) -> (b: bool)
    ensures
        b == is_ws_char(c),
{
    let u = c as u32;
    u == 0x09 || u == 0x0A || u == 0x0B || u == 0x0C || u == 0x0D || u == 0x20 || u == 0x85
        || u == 0xA0 || u == 0x1680 || (0x2000 <= u && u <= 0x200A) || u == 0x2028 || u == 0x2029
        || u == 0x202F || u == 0x205F || u == 0x3000
}

proof fn lemma_trim_start(s: Seq<char>, k: int)
    requires
        0 <= k <= s.len(),
        forall|j: int| 0 <= j < k ==> is_ws_char(s[j]),
        k < s.len() ==> !is_ws_char(s[k]),
    ensures
        trim_start_spec(s) =~= s.subrange(k, s.len() as int),
    decreases k,
{
    if k == 0 {
        assert(s.subrange(0, s.len() as int) =~= s);
    } else {
        assert(is_ws_char(s[0]));
        lemma_trim_start(s.drop_first(), k - 1);
        assert(s.drop_first().subrange(k - 1, s.drop_first().len() as int) =~= s.subrange(
            k,
            s.len() as int,
        ));
    }
}

proof fn lemma_trim_end(s: Seq<char>, m: int)
    requires
        0 <= m <= s.len(),
        forall|j: int| m <= j < s.len() ==> is_ws_char(s[j]),
        m > 0 ==> !is_ws_char(s[m - 1]),
    ensures
        trim_end_spec(s) =~= s.subrange(0, m),
    decreases s.len() - m,
{
    if m == s.len() {
        if s.len() > 0 && is_ws_char(s.last()) {
            assert(!is_ws_char(s[m - 1]));
            assert(false);
        } else {
            assert(s.subrange(0, s.len() as int) =~= s);
        }
    } else {
        assert(is_ws_char(s.last()));
        lemma_trim_end(s.drop_last(), m);
        assert(s.drop_last().subrange(0, m) =~= s.subrange(0, m));
    }
}

/// Whitespace-trim a string, per the Unicode `White_Space` property.
pub fn trim_string(s: &str) -> (r: String)
    ensures
        r@ == trim_spec(s@),
{
    let n = s.unicode_len();
    let mut start: usize = 0;
    while start < n && is_ws(s.get_char(start))
        invariant
            n == s@.len(),
            0 <= start <= n,
            forall|j: int| 0 <= j < start ==> is_ws_char(s@[j]),
        decreases n - start,
    {
        start += 1;
    }
    if start == n {
        proof {
            lemma_trim_start(s@, n as int);
            assert(trim_start_spec(s@) =~= Seq::<char>::empty());
            assert(trim_spec(s@) =~= Seq::<char>::empty());
        }
        return String::new();
    }
    let mut end: usize = n;
    while is_ws(s.get_char(end - 1))
        invariant
            n == s@.len(),
            start < n,
            !is_ws_char(s@[start as int]),
            start < end <= n,
            forall|j: int| end <= j < n ==> is_ws_char(s@[j]),
        decreases end,
    {
        end -= 1;
    }
    let sub = s.substring_char(start, end);
    proof {
        lemma_trim_start(s@, start as int);
        lemma_trim_end(s@.subrange(start as int, n as int), end - start);
        assert(s@.subrange(start as int, n as int).subrange(0, end - start) =~= s@.subrange(
            start as int,
            end as int,
        ));
    }
    sub.to_owned()
}

/// Grouped mode is chosen by a configured parent container selector.
pub open spec fn grouped(cfg: ExtractConfig) -> bool {
    cfg.parent_dom@.len() > 0
}

/// The selector whose matches are the extraction candidates: containers in
/// grouped mode, links in flat mode.
pub open spec fn base_sel(cfg: ExtractConfig) -> Seq<char> {
    if grouped(cfg) {
        cfg.parent_dom@
    } else {
        cfg.target_dom@
    }
}

/// The path from a candidate to its link element: one scoped selector step
/// in grouped mode, the candidate itself in flat mode.
pub open spec fn link_within(cfg: ExtractConfig) -> Seq<Seq<char>> {
    if grouped(cfg) {
        seq![cfg.link_dom@]
    } else {
        Seq::empty()
    }
}

/// Every selector the configuration makes the extraction use is valid.
pub open spec fn cfg_valid(cfg: ExtractConfig) -> bool {
    &&& valid_selector(base_sel(cfg))
    &&& (grouped(cfg) ==> valid_selector(cfg.link_dom@) && valid_selector(cfg.cover_dom@))
    &&& (cfg.ignore_contains@.len() > 0 ==> valid_selector(cfg.ignore_contains@))
    &&& (cfg.target_text_dom@.len() > 0 ==> valid_selector(cfg.target_text_dom@))
    &&& (cfg.link_text_dom@.len() > 0 ==> valid_selector(cfg.link_text_dom@))
}

/// Candidate `i` is dropped by the configured ignore filter: it contains at
/// least one match of the ignore sub-selector.
pub open spec fn ignored(html: Seq<char>, cfg: ExtractConfig, i: int) -> bool {
    cfg.ignore_contains@.len() > 0 && elem_matches(
        html,
        base_sel(cfg),
        i,
        Seq::empty(),
        cfg.ignore_contains@,
    ) > 0
}

/// Candidate `i` has a link element: scoped to the container in grouped
/// mode, itself in flat mode.
pub open spec fn link_found(html: Seq<char>, cfg: ExtractConfig, i: int) -> bool {
    grouped(cfg) ==> elem_matches(html, base_sel(cfg), i, Seq::empty(), cfg.link_dom@) > 0
}

/// The resolved link URL of candidate `i`: the configured link attribute of
/// the link element, with the configured prefix prepended; `None` when the
/// attribute is absent or the resolved URL is empty — an entity built from a
/// discovered link always carries a non-empty URL.
pub open spec fn url_of(html: Seq<char>, cfg: ExtractConfig, i: int) -> Option<Seq<char>> {
    match elem_attr(html, base_sel(cfg), i, link_within(cfg), cfg.link_attr@) {
        Some(u) => if (cfg.link_prefix@ + u).len() > 0 {
            Some(cfg.link_prefix@ + u)
        } else {
            None
        },
        None => None,
    }
}

/// The outcome of one title source: not configured, configured but yielding
/// nothing, or a value (possibly empty).
pub enum Resolved {
    Skip,
    Missing,
    Found(Seq<char>),
}

/// A sub-selector title source: the first text of the first match of `dom`
/// under the link element.
pub open spec fn title_src_dom(
    html: Seq<char>,
    cfg: ExtractConfig,
    i: int,
    dom: Seq<char>,
) -> Resolved {
    if dom.len() == 0 {
        Resolved::Skip
    } else if elem_matches(html, base_sel(cfg), i, link_within(cfg), dom) == 0 {
        Resolved::Missing
    } else {
        match elem_text(html, base_sel(cfg), i, link_within(cfg).push(dom)) {
            Some(t) => Resolved::Found(t),
            None => Resolved::Missing,
        }
    }
}

/// An attribute title source: the value of `attr` on the link element.
pub open spec fn title_src_attr(
    html: Seq<char>,
    cfg: ExtractConfig,
    i: int,
    attr: Seq<char>,
) -> Resolved {
    if attr.len() == 0 {
        Resolved::Skip
    } else {
        match elem_attr(html, base_sel(cfg), i, link_within(cfg), attr) {
            Some(v) => Resolved::Found(v),
            None => Resolved::Missing,
        }
    }
}

/// The title sources of candidate `i`, in precedence order: target text
/// sub-selector, link text sub-selector, target text attribute, link text
/// attribute.
pub open spec fn title_sources(html: Seq<char>, cfg: ExtractConfig, i: int) -> Seq<Resolved> {
    seq![
        title_src_dom(html, cfg, i, cfg.target_text_dom@),
        title_src_dom(html, cfg, i, cfg.link_text_dom@),
        title_src_attr(html, cfg, i, cfg.target_text_attr@),
        title_src_attr(html, cfg, i, cfg.link_text_attr@),
    ]
}

/// Some configured title source yields nothing: an error, never a skip.
pub open spec fn any_missing(rs: Seq<Resolved>) -> bool {
    exists|k: int| 0 <= k < rs.len() && rs[k] is Missing
}

/// The first source from index `k` on that yields a non-empty value.
pub open spec fn first_nonempty_from(rs: Seq<Resolved>, k: int) -> Option<Seq<char>>
    decreases rs.len() - k,
{
    if k < 0 || k >= rs.len() {
        None
    } else {
        match rs[k] {
            Resolved::Found(t) => if t.len() > 0 {
                Some(t)
            } else {
                first_nonempty_from(rs, k + 1)
            },
            _ => first_nonempty_from(rs, k + 1),
        }
    }
}

/// The first source that yields a non-empty value, in order.
pub open spec fn first_nonempty(rs: Seq<Resolved>) -> Option<Seq<char>> {
    first_nonempty_from(rs, 0)
}

/// The trimmed text, when anything but whitespace remains.
pub open spec fn nonempty_trim(t: Seq<char>) -> Option<Seq<char>> {
    if trim_spec(t).len() > 0 {
        Some(trim_spec(t))
    } else {
        None
    }
}

/// The resolved title of candidate `i`: the first non-empty configured
/// source wins, in the precedence order; when none is configured or none is
/// non-empty, the link element's own first text; the result is
/// whitespace-trimmed. `None` when a configured source, or the needed
/// fallback, yields nothing, or when the chosen text trims away to nothing —
/// an entity built from a discovered link always carries a non-empty title.
pub open spec fn title_of(html: Seq<char>, cfg: ExtractConfig, i: int) -> Option<Seq<char>> {
    if any_missing(title_sources(html, cfg, i)) {
        None
    } else {
        match first_nonempty(title_sources(html, cfg, i)) {
            Some(t) => nonempty_trim(t),
            None => match elem_text(html, base_sel(cfg), i, link_within(cfg)) {
                Some(t) => nonempty_trim(t),
                None => None,
            },
        }
    }
}

/// The first candidate cover attribute, from index `k` on, present on the
/// cover element of candidate `i`.
pub open spec fn first_present_attr(
    html: Seq<char>,
    cfg: ExtractConfig,
    i: int,
    k: int,
) -> Option<Seq<char>>
    decreases cfg.cover_attrs@.len() - k,
{
    if k < 0 || k >= cfg.cover_attrs@.len() {
        None
    } else {
        match elem_attr(html, base_sel(cfg), i, seq![cfg.cover_dom@], cfg.cover_attrs@[k]@) {
            Some(v) => Some(v),
            None => first_present_attr(html, cfg, i, k + 1),
        }
    }
}

/// The resolved cover of candidate `i`. Flat mode resolves no cover and
/// leaves it empty. Grouped mode takes the first present candidate attribute
/// when a candidate list is configured, else the single configured
/// attribute, prepends the prefix, and treats an absent cover element or
/// attribute as an error.
pub open spec fn cover_of(html: Seq<char>, cfg: ExtractConfig, i: int) -> Option<Seq<char>> {
    if !grouped(cfg) {
        Some(Seq::empty())
    } else if elem_matches(html, base_sel(cfg), i, Seq::empty(), cfg.cover_dom@) == 0 {
        None
    } else if cfg.cover_attrs@.len() > 0 {
        match first_present_attr(html, cfg, i, 0) {
            Some(v) => Some(cfg.cover_prefix@ + v),
            None => None,
        }
    } else {
        match elem_attr(html, base_sel(cfg), i, seq![cfg.cover_dom@], cfg.cover_attr@) {
            Some(v) => Some(cfg.cover_prefix@ + v),
            None => None,
        }
    }
}

/// Candidate `i` resolves completely.
pub open spec fn entity_ok(html: Seq<char>, cfg: ExtractConfig, i: int) -> bool {
    &&& link_found(html, cfg, i)
    &&& url_of(html, cfg, i) is Some
    &&& title_of(html, cfg, i) is Some
    &&& cover_of(html, cfg, i) is Some
}

/// The (title, URL, cover) of a completely resolved candidate.
pub open spec fn entity_at(html: Seq<char>, cfg: ExtractConfig, i: int) -> (
    Seq<char>,
    Seq<char>,
    Seq<char>,
) {
    (
        title_of(html, cfg, i)->Some_0,
        url_of(html, cfg, i)->Some_0,
        cover_of(html, cfg, i)->Some_0,
    )
}

/// The error a failed candidate reports, in the order the resolution runs:
/// a missing link element is a missing node; a link element without the link
/// attribute is a missing link; everything else is a missing node.
pub open spec fn err_at(html: Seq<char>, cfg: ExtractConfig, i: int) -> ExtractError {
    if link_found(html, cfg, i) && url_of(html, cfg, i) is None {
        ExtractError::MissingLink
    } else {
        ExtractError::MissingNode
    }
}

/// The entities of the first `n` candidates that the ignore filter keeps,
/// in document order.
pub open spec fn entities(html: Seq<char>, cfg: ExtractConfig, n: int) -> Seq<
    (Seq<char>, Seq<char>, Seq<char>),
>
    decreases n,
{
    if n <= 0 {
        Seq::empty()
    } else if ignored(html, cfg, n - 1) {
        entities(html, cfg, n - 1)
    } else {
        entities(html, cfg, n - 1).push(entity_at(html, cfg, n - 1))
    }
}

/// The first kept candidate among the first `n` that does not resolve.
pub open spec fn first_bad(html: Seq<char>, cfg: ExtractConfig, n: int) -> Option<int>
    decreases n,
{
    if n <= 0 {
        None
    } else {
        match first_bad(html, cfg, n - 1) {
            Some(i) => Some(i),
            None => if !ignored(html, cfg, n - 1) && !entity_ok(html, cfg, n - 1) {
                Some(n - 1)
            } else {
                None
            },
        }
    }
}

/// `prefix` then `s`.
pub fn concat_str(prefix: &str, s: &str) -> (r: String)
    ensures
        r@ == prefix@ + s@,
{
    let mut r = prefix.to_owned();
    r.append(s);
    r
}

/// The outcome of one title source, carrying the found value.
enum SourceHit {
    Skip,
    Missing,
    Found(String),
}

spec fn hit_view(h: SourceHit) -> Resolved {
    match h {
        SourceHit::Skip => Resolved::Skip,
        SourceHit::Missing => Resolved::Missing,
        SourceHit::Found(s) => Resolved::Found(s@),
    }
}

fn eval_src_dom(
    doc: &Document,
    cfg: &ExtractConfig,
    base: &str,
    i: usize,
    link_w: &Vec<&str>,
    dom: &String,
) -> (r: SourceHit)
    requires
        cfg_valid(*cfg),
        base@ == base_sel(*cfg),
        0 <= (i as int) < doc_matches(doc@, base_sel(*cfg)),
        views_of(link_w@) == link_within(*cfg),
        elem_exists(doc@, base_sel(*cfg), i as int, link_within(*cfg)),
        dom@.len() > 0 ==> valid_selector(dom@),
    ensures
        hit_view(r) == title_src_dom(doc@, *cfg, i as int, dom@),
{
    if dom.as_str().is_empty() {
        return SourceHit::Skip;
    }
    let c = elem_count(doc, base, i, link_w, dom.as_str());
    if c == 0 {
        return SourceHit::Missing;
    }
    let mut w2: Vec<&str> = Vec::new();
    let mut j: usize = 0;
    while j < link_w.len()
        invariant
            0 <= j <= link_w@.len(),
            w2@ =~= link_w@.subrange(0, j as int),
        decreases link_w@.len() - j,
    {
        let s: &str = link_w[j];
        w2.push(s);
        j += 1;
    }
    w2.push(dom.as_str());
    proof {
        assert(w2@.drop_last() =~= link_w@);
        assert(views_of(w2@) =~= link_within(*cfg).push(dom@));
        assert(views_of(w2@).drop_last() =~= link_within(*cfg));
        assert(all_valid(views_of(w2@))) by {
            assert(forall|k: int|
                0 <= k < link_within(*cfg).len() ==> valid_selector(
                    #[trigger] link_within(*cfg)[k],
                ));
            assert(forall|k: int|
                0 <= k < views_of(w2@).len() - 1 ==> views_of(w2@)[k] == link_within(*cfg)[k]);
            assert(views_of(w2@).last() == dom@);
        }
        assert(elem_exists(doc@, base_sel(*cfg), i as int, views_of(w2@)));
    }
    match elem_text_of(doc, base, i, &w2) {
        Some(t) => SourceHit::Found(t),
        None => SourceHit::Missing,
    }
}

fn eval_src_attr(
    doc: &Document,
    cfg: &ExtractConfig,
    base: &str,
    i: usize,
    link_w: &Vec<&str>,
    attr: &String,
) -> (r: SourceHit)
    requires
        cfg_valid(*cfg),
        base@ == base_sel(*cfg),
        0 <= (i as int) < doc_matches(doc@, base_sel(*cfg)),
        views_of(link_w@) == link_within(*cfg),
        elem_exists(doc@, base_sel(*cfg), i as int, link_within(*cfg)),
    ensures
        hit_view(r) == title_src_attr(doc@, *cfg, i as int, attr@),
{
    if attr.as_str().is_empty() {
        return SourceHit::Skip;
    }
    proof {
        assert(all_valid(link_within(*cfg)));
    }
    match elem_attr_of(doc, base, i, link_w, attr.as_str()) {
        Some(v) => SourceHit::Found(v),
        None => SourceHit::Missing,
    }
}

/// Resolve one kept candidate: link element, then link URL, then title by
/// the precedence order, then the cover in grouped mode.
fn extract_one(doc: &Document, cfg: &ExtractConfig, base: &str, i: usize) -> (r: Result<
    Entity,
    ExtractError,
>)
    requires
        cfg_valid(*cfg),
        base@ == base_sel(*cfg),
        0 <= (i as int) < doc_matches(doc@, base_sel(*cfg)),
    ensures
        entity_ok(doc@, *cfg, i as int) ==> (r matches Ok(e) && entity_view(e) == entity_at(
            doc@,
            *cfg,
            i as int,
        )),
        !entity_ok(doc@, *cfg, i as int) ==> r == Result::<Entity, ExtractError>::Err(
            err_at(doc@, *cfg, i as int),
        ),
{
    let ghost html = doc@;
    let ghost ii = i as int;
    let is_grouped = !cfg.parent_dom.as_str().is_empty();
    proof {
        assert(is_grouped == grouped(*cfg));
    }
    let empty_w: Vec<&str> = Vec::new();
    proof {
        assert(views_of(empty_w@) =~= Seq::<Seq<char>>::empty());
        assert(all_valid(views_of(empty_w@)));
        assert(elem_exists(html, base_sel(*cfg), ii, views_of(empty_w@)));
    }
    let mut link_w: Vec<&str> = Vec::new();
    if is_grouped {
        let c = elem_count(doc, base, i, &empty_w, cfg.link_dom.as_str());
        if c == 0 {
            proof {
                assert(!link_found(html, *cfg, ii));
                assert(err_at(html, *cfg, ii) == ExtractError::MissingNode);
            }
            return Err(ExtractError::MissingNode);
        }
        link_w.push(cfg.link_dom.as_str());
    }
    proof {
        assert(views_of(link_w@) =~= link_within(*cfg));
        assert(link_found(html, *cfg, ii));
        assert(elem_exists(html, base_sel(*cfg), ii, link_within(*cfg))) by {
            if grouped(*cfg) {
                assert(link_within(*cfg).drop_last() =~= Seq::<Seq<char>>::empty());
                assert(link_within(*cfg).last() == cfg.link_dom@);
            }
        }
        assert(all_valid(views_of(link_w@)));
    }
    let got_url = elem_attr_of(doc, base, i, &link_w, cfg.link_attr.as_str());
    let url_val: String = match got_url {
        None => {
            proof {
                assert(url_of(html, *cfg, ii) is None);
                assert(err_at(html, *cfg, ii) == ExtractError::MissingLink);
            }
            return Err(ExtractError::MissingLink);
        },
        Some(u) => concat_str(cfg.link_prefix.as_str(), u.as_str()),
    };
    if url_val.as_str().is_empty() {
        proof {
            assert(url_of(html, *cfg, ii) is None);
            assert(err_at(html, *cfg, ii) == ExtractError::MissingLink);
        }
        return Err(ExtractError::MissingLink);
    }
    proof {
        assert(url_of(html, *cfg, ii) == Some(url_val@));
    }
    let ghost srcs = title_sources(html, *cfg, ii);
    let s1 = eval_src_dom(doc, cfg, base, i, &link_w, &cfg.target_text_dom);
    let s2 = eval_src_dom(doc, cfg, base, i, &link_w, &cfg.link_text_dom);
    let s3 = eval_src_attr(doc, cfg, base, i, &link_w, &cfg.target_text_attr);
    let s4 = eval_src_attr(doc, cfg, base, i, &link_w, &cfg.link_text_attr);
    proof {
        assert(srcs.len() == 4);
        assert(srcs[0] == hit_view(s1));
        assert(srcs[1] == hit_view(s2));
        assert(srcs[2] == hit_view(s3));
        assert(srcs[3] == hit_view(s4));
    }
    let mut picked: Option<String> = None;
    match s1 {
        SourceHit::Missing => {
            proof {
                assert(any_missing(srcs));
            }
            return Err(ExtractError::MissingNode);
        },
        SourceHit::Found(t) => {
            if !t.as_str().is_empty() {
                picked = Some(t);
            }
        },
        SourceHit::Skip => {},
    }
    match s2 {
        SourceHit::Missing => {
            proof {
                assert(any_missing(srcs));
            }
            return Err(ExtractError::MissingNode);
        },
        SourceHit::Found(t) => {
            if picked.is_none() && !t.as_str().is_empty() {
                picked = Some(t);
            }
        },
        SourceHit::Skip => {},
    }
    match s3 {
        SourceHit::Missing => {
            proof {
                assert(any_missing(srcs));
            }
            return Err(ExtractError::MissingNode);
        },
        SourceHit::Found(t) => {
            if picked.is_none() && !t.as_str().is_empty() {
                picked = Some(t);
            }
        },
        SourceHit::Skip => {},
    }
    match s4 {
        SourceHit::Missing => {
            proof {
                assert(any_missing(srcs));
            }
            return Err(ExtractError::MissingNode);
        },
        SourceHit::Found(t) => {
            if picked.is_none() && !t.as_str().is_empty() {
                picked = Some(t);
            }
        },
        SourceHit::Skip => {},
    }
    proof {
        assert(!any_missing(srcs));
        reveal_with_fuel(first_nonempty_from, 6);
        assert(opt_view(picked) == first_nonempty(srcs));
    }
    let title_raw: String = match picked {
        Some(t) => t,
        None => {
            match elem_text_of(doc, base, i, &link_w) {
                Some(t) => t,
                None => {
                    proof {
                        assert(title_of(html, *cfg, ii) is None);
                    }
                    return Err(ExtractError::MissingNode);
                },
            }
        },
    };
    let title = trim_string(title_raw.as_str());
    if title.as_str().is_empty() {
        proof {
            assert(title_of(html, *cfg, ii) is None);
        }
        return Err(ExtractError::MissingNode);
    }
    proof {
        assert(title_of(html, *cfg, ii) == Some(title@));
    }
    let mut cover_val: Option<String> = None;
    if is_grouped {
        let cc = elem_count(doc, base, i, &empty_w, cfg.cover_dom.as_str());
        if cc == 0 {
            proof {
                assert(cover_of(html, *cfg, ii) is None);
            }
            return Err(ExtractError::MissingNode);
        }
        let mut cover_w: Vec<&str> = Vec::new();
        cover_w.push(cfg.cover_dom.as_str());
        proof {
            assert(views_of(cover_w@) =~= seq![cfg.cover_dom@]);
            assert(all_valid(views_of(cover_w@)));
            assert(views_of(cover_w@).drop_last() =~= Seq::<Seq<char>>::empty());
            assert(elem_exists(html, base_sel(*cfg), ii, views_of(cover_w@)));
        }
        if cfg.cover_attrs.len() > 0 {
            let mut k: usize = 0;
            let mut found: Option<String> = None;
            while k < cfg.cover_attrs.len()
                invariant
                    cfg_valid(*cfg),
                    base@ == base_sel(*cfg),
                    0 <= ii < doc_matches(html, base_sel(*cfg)),
                    ii == i as int,
                    html == doc@,
                    0 <= k <= cfg.cover_attrs@.len(),
                    views_of(cover_w@) =~= seq![cfg.cover_dom@],
                    all_valid(views_of(cover_w@)),
                    elem_exists(html, base_sel(*cfg), ii, views_of(cover_w@)),
                    found is None ==> first_present_attr(html, *cfg, ii, 0) == first_present_attr(
                        html,
                        *cfg,
                        ii,
                        k as int,
                    ),
                    found matches Some(v) ==> first_present_attr(html, *cfg, ii, 0) == Some(v@),
                decreases cfg.cover_attrs@.len() - k,
            {
                if found.is_none() {
                    let a = elem_attr_of(doc, base, i, &cover_w, cfg.cover_attrs[k].as_str());
                    match a {
                        Some(v) => {
                            found = Some(v);
                        },
                        None => {},
                    }
                }
                k += 1;
            }
            match found {
                None => {
                    proof {
                        assert(cover_of(html, *cfg, ii) is None);
                    }
                    return Err(ExtractError::MissingNode);
                },
                Some(v) => {
                    cover_val = Some(concat_str(cfg.cover_prefix.as_str(), v.as_str()));
                },
            }
        } else {
            match elem_attr_of(doc, base, i, &cover_w, cfg.cover_attr.as_str()) {
                None => {
                    proof {
                        assert(cover_of(html, *cfg, ii) is None);
                    }
                    return Err(ExtractError::MissingNode);
                },
                Some(v) => {
                    cover_val = Some(concat_str(cfg.cover_prefix.as_str(), v.as_str()));
                },
            }
        }
    }
    proof {
        assert(cover_of(html, *cfg, ii) is Some);
        assert(entity_ok(html, *cfg, ii));
    }
    let mut e = Entity::from_link(title, url_val);
    if let Some(cv) = cover_val {
        e.set_cover(cv);
    }
    proof {
        assert(entity_view(e) == entity_at(html, *cfg, ii));
    }
    Ok(e)
}

/// What `extract` returns, exactly. An invalid configured selector is a
/// selector error. Otherwise, with `n` the number of candidates: if every
/// kept candidate resolves, the entities of the kept candidates in document
/// order; else the error of the first kept candidate that does not resolve.
pub open spec fn extract_post(
    html: Seq<char>,
    cfg: ExtractConfig,
    r: Result<Vec<Entity>, ExtractError>,
) -> bool {
    if !cfg_valid(cfg) {
        r == Result::<Vec<Entity>, ExtractError>::Err(ExtractError::Selector)
    } else {
        match first_bad(html, cfg, doc_matches(html, base_sel(cfg))) {
            Some(i) => r == Result::<Vec<Entity>, ExtractError>::Err(err_at(html, cfg, i)),
            None => r matches Ok(v) && entity_views(v@) == entities(
                html,
                cfg,
                doc_matches(html, base_sel(cfg)),
            ),
        }
    }
}


proof fn lemma_first_bad_stable(html: Seq<char>, cfg: ExtractConfig, i: int, m: int)
    requires
        0 <= i < m,
        first_bad(html, cfg, i) is None,
        !ignored(html, cfg, i),
        !entity_ok(html, cfg, i),
    ensures
        first_bad(html, cfg, m) == Some(i),
    decreases m,
{
    if m > i + 1 {
        lemma_first_bad_stable(html, cfg, i, m - 1);
    }
}

/// Run the declarative extraction over a parsed document: select the
/// candidates, drop the ignored ones, and resolve each kept candidate to an
/// entity, failing on the first one that does not resolve.
pub fn extract(doc: &Document, cfg: &ExtractConfig) -> (r: Result<Vec<Entity>, ExtractError>)
    ensures
        extract_post(doc@, *cfg, r),
{
    let ghost html = doc@;
    let is_grouped = !cfg.parent_dom.as_str().is_empty();
    let base: &str = if is_grouped {
        cfg.parent_dom.as_str()
    } else {
        cfg.target_dom.as_str()
    };
    proof {
        assert(base@ == base_sel(*cfg));
    }
    if !check_selector(base) {
        return Err(ExtractError::Selector);
    }
    if is_grouped {
        if !check_selector(cfg.link_dom.as_str()) {
            return Err(ExtractError::Selector);
        }
        if !check_selector(cfg.cover_dom.as_str()) {
            return Err(ExtractError::Selector);
        }
    }
    if !cfg.ignore_contains.as_str().is_empty() {
        if !check_selector(cfg.ignore_contains.as_str()) {
            return Err(ExtractError::Selector);
        }
    }
    if !cfg.target_text_dom.as_str().is_empty() {
        if !check_selector(cfg.target_text_dom.as_str()) {
            return Err(ExtractError::Selector);
        }
    }
    if !cfg.link_text_dom.as_str().is_empty() {
        if !check_selector(cfg.link_text_dom.as_str()) {
            return Err(ExtractError::Selector);
        }
    }
    proof {
        assert(cfg_valid(*cfg));
    }
    let n = doc_count(doc, base);
    let empty_w: Vec<&str> = Vec::new();
    proof {
        assert(views_of(empty_w@) =~= Seq::<Seq<char>>::empty());
        assert(entity_views(Seq::<Entity>::empty()) =~= entities(html, *cfg, 0));
    }
    let mut out: Vec<Entity> = Vec::new();
    let mut i: usize = 0;
    while i < n
        invariant
            html == doc@,
            cfg_valid(*cfg),
            base@ == base_sel(*cfg),
            n == doc_matches(html, base_sel(*cfg)),
            views_of(empty_w@) == Seq::<Seq<char>>::empty(),
            0 <= i <= n,
            first_bad(html, *cfg, i as int) is None,
            entity_views(out@) == entities(html, *cfg, i as int),
        decreases n - i,
    {
        let mut skip = false;
        if !cfg.ignore_contains.as_str().is_empty() {
            let cnt = elem_count(doc, base, i, &empty_w, cfg.ignore_contains.as_str());
            if cnt > 0 {
                skip = true;
            }
        }
        proof {
            assert(skip == ignored(html, *cfg, i as int));
        }
        if !skip {
            match extract_one(doc, cfg, base, i) {
                Ok(e) => {
                    let ghost ev = entity_view(e);
                    let ghost prev = out@;
                    out.push(e);
                    proof {
                        assert(entity_views(out@) =~= entity_views(prev).push(ev));
                    }
                },
                Err(er) => {
                    proof {
                        lemma_first_bad_stable(html, *cfg, i as int, n as int);
                    }
                    return Err(er);
                },
            }
        }
        i += 1;
    }
    Ok(out)
}


/// The number of the first `n` candidates that the ignore filter keeps.
pub open spec fn kept_count(html: Seq<char>, cfg: ExtractConfig, n: int) -> int
    decreases n,
{
    if n <= 0 {
        0
    } else if ignored(html, cfg, n - 1) {
        kept_count(html, cfg, n - 1)
    } else {
        kept_count(html, cfg, n - 1) + 1
    }
}

/// For every extraction, the number of results equals the number of
/// candidate matches not excluded by the ignore filter: container matches in
/// grouped mode, link matches in flat mode.
pub proof fn lemma_extract_count(html: Seq<char>, cfg: ExtractConfig, n: int)
    ensures
        entities(html, cfg, n).len() == kept_count(html, cfg, n),
    decreases n,
{
    if n > 0 {
        lemma_extract_count(html, cfg, n - 1);
    }
}

/// Title precedence: when the link-text sub-selector is configured and
/// yields a text that does not trim away, that text is the title — trimmed —
/// no matter what the link element's own text holds, as long as no
/// configured source is missing and no earlier source precedes it.
pub proof fn lemma_title_precedence(html: Seq<char>, cfg: ExtractConfig, i: int, t: Seq<char>)
    requires
        cfg.target_text_dom@.len() == 0,
        title_src_dom(html, cfg, i, cfg.link_text_dom@) == Resolved::Found(t),
        t.len() > 0,
        trim_spec(t).len() > 0,
        !any_missing(title_sources(html, cfg, i)),
    ensures
        title_of(html, cfg, i) == Some(trim_spec(t)),
{
    let srcs = title_sources(html, cfg, i);
    assert(srcs[0] is Skip);
    assert(srcs[1] == Resolved::Found(t));
    reveal_with_fuel(first_nonempty_from, 3);
    assert(first_nonempty(srcs) == Some(t));
}

/// The cover candidate list: with configured candidates `[a, b]` where
/// attribute `a` is absent on the cover element and `b` carries a value, the
/// resolved cover is `b`'s value with the prefix applied.
pub proof fn lemma_cover_candidates(html: Seq<char>, cfg: ExtractConfig, i: int, v: Seq<char>)
    requires
        grouped(cfg),
        elem_matches(html, base_sel(cfg), i, Seq::empty(), cfg.cover_dom@) > 0,
        cfg.cover_attrs@.len() == 2,
        elem_attr(html, base_sel(cfg), i, seq![cfg.cover_dom@], cfg.cover_attrs@[0]@) is None,
        elem_attr(html, base_sel(cfg), i, seq![cfg.cover_dom@], cfg.cover_attrs@[1]@) == Some(v),
    ensures
        cover_of(html, cfg, i) == Some(cfg.cover_prefix@ + v),
{
    reveal_with_fuel(first_present_attr, 3);
    assert(first_present_attr(html, cfg, i, 0) == Some(v));
}

/// An entity constructed from a discovered link carries a non-empty title
/// and a non-empty URL; only the cover may stay empty until resolved.
pub proof fn lemma_entity_nonempty(html: Seq<char>, cfg: ExtractConfig, i: int)
    requires
        entity_ok(html, cfg, i),
    ensures
        entity_at(html, cfg, i).0.len() > 0,
        entity_at(html, cfg, i).1.len() > 0,
{
}


/// Entities as collections, in order: title, URL and cover carried over,
/// with no chapters yet.
pub fn comics_from(list: Vec<Entity>) -> (r: Vec<Comic>)
    ensures
        r@.len() == list@.len(),
        forall|k: int|
            0 <= k < list@.len() ==> {
                &&& (#[trigger] r@[k]).title@ == list@[k].title@
                &&& r@[k].url@ == list@[k].url@
                &&& r@[k].cover@ == list@[k].cover@
                &&& r@[k].chapters@ =~= Seq::<Chapter>::empty()
            },
{
    let ghost orig = list@;
    let mut rest = list;
    let mut out: Vec<Comic> = Vec::new();
    let n = rest.len();
    let mut i: usize = 0;
    while i < n
        invariant
            n == orig.len(),
            0 <= i <= n,
            rest@ =~= orig.subrange(i as int, n as int),
            out@.len() == i,
            forall|k: int|
                0 <= k < i ==> {
                    &&& (#[trigger] out@[k]).title@ == orig[k].title@
                    &&& out@[k].url@ == orig[k].url@
                    &&& out@[k].cover@ == orig[k].cover@
                    &&& out@[k].chapters@ =~= Seq::<Chapter>::empty()
                },
        decreases n - i,
    {
        let e = rest.remove(0);
        out.push(Comic::from_index(e.title.as_str(), e.url.as_str(), e.cover.as_str()));
        i += 1;
    }
    out
}

/// Entities as chapters, in order: title and URL carried over, ordinals not
/// yet assigned, covers dropped as chapters carry none.
pub fn chapters_from(list: Vec<Entity>) -> (r: Vec<Chapter>)
    ensures
        r@.len() == list@.len(),
        forall|k: int|
            0 <= k < list@.len() ==> {
                &&& (#[trigger] r@[k]).title@ == list@[k].title@
                &&& r@[k].url@ == list@[k].url@
                &&& r@[k].which == 0
                &&& r@[k].pages@ =~= Seq::<crate::models::Page>::empty()
                &&& r@[k].page_headers@ =~= Seq::<(String, String)>::empty()
            },
{
    let ghost orig = list@;
    let mut rest = list;
    let mut out: Vec<Chapter> = Vec::new();
    let n = rest.len();
    let mut i: usize = 0;
    while i < n
        invariant
            n == orig.len(),
            0 <= i <= n,
            rest@ =~= orig.subrange(i as int, n as int),
            out@.len() == i,
            forall|k: int|
                0 <= k < i ==> {
                    &&& (#[trigger] out@[k]).title@ == orig[k].title@
                    &&& out@[k].url@ == orig[k].url@
                    &&& out@[k].which == 0
                    &&& out@[k].pages@ =~= Seq::<crate::models::Page>::empty()
                    &&& out@[k].page_headers@ =~= Seq::<(String, String)>::empty()
                },
        decreases n - i,
    {
        let e = rest.remove(0);
        out.push(Chapter::from_link(e.title.as_str(), e.url.as_str()));
        i += 1;
    }
    out
}

} // verus!
