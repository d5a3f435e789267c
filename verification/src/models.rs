use vstd::prelude::*;

verus! {

/// A classification label carried by a source's registry record.
#[derive(Clone, Copy, Debug, PartialEq, Eq, Structural)]
pub enum Tag {
    Chinese,
    English,
    Japanese,
    NSFW,
}

/// One leaf content unit of a subunit: a 1-based index and a resolved
/// address. Immutable once created and cheap to duplicate; the page iterator
/// hands out copies while the owning chapter keeps the authoritative list.
#[derive(Debug)]
pub struct Page {
    pub n: usize,
    pub address: String,
}

impl Page {
    pub fn new(n: usize, address: &str) -> (p: Page)
        ensures
            p.n == n,
            p.address@ == address@,
    {
        Page { n, address: address.to_owned() }
    }
}

impl Clone for Page {
    fn clone(&self) -> (r: Self)
        ensures
            r == *self,
    {
        Page { n: self.n, address: self.address.clone() }
    }
}

/// One ordered division of a collection: an ordinal assigned at attach time,
/// a title, a source URL, the ordered pages, and optional per-request
/// headers cleared independently of content.
#[derive(Debug)]
pub struct Chapter {
    pub title: String,
    pub url: String,
    pub which: u32,
    pub pages: Vec<Page>,
    pub page_headers: Vec<(String, String)>,
}

impl Chapter {
    pub fn from_link(title: &str, url: &str) -> (c: Chapter)
        ensures
            c.title@ == title@,
            c.url@ == url@,
            c.which == 0,
            c.pages@ =~= Seq::<Page>::empty(),
            c.page_headers@ =~= Seq::<(String, String)>::empty(),
    {
        Chapter {
            title: title.to_owned(),
            url: url.to_owned(),
            which: 0,
            pages: Vec::new(),
            page_headers: Vec::new(),
        }
    }

    pub fn from_url(url: &str) -> (c: Chapter)
        ensures
            c.title@ == Seq::<char>::empty(),
            c.url@ == url@,
            c.which == 0,
            c.pages@ =~= Seq::<Page>::empty(),
            c.page_headers@ =~= Seq::<(String, String)>::empty(),
    {
        proof {
            reveal_strlit("");
            assert(""@ =~= Seq::<char>::empty());
        }
        Chapter::from_link("", url)
    }

    /// A chapter standing for a whole single-chapter collection.
    pub fn from_comic(comic: &Comic) -> (c: Chapter)
        ensures
            c.title@ == comic.title@,
            c.url@ == comic.url@,
            c.which == 0,
            c.pages@ =~= Seq::<Page>::empty(),
            c.page_headers@ =~= Seq::<(String, String)>::empty(),
    {
        Chapter::from_link(comic.title.as_str(), comic.url.as_str())
    }

    pub fn set_title(&mut self, title: &str)
        ensures
            final(self).title@ == title@,
            final(self).url == old(self).url,
            final(self).which == old(self).which,
            final(self).pages == old(self).pages,
            final(self).page_headers == old(self).page_headers,
    {
        self.title = title.to_owned();
    }
}

/// A titled work: title, source URL, cover image URL, and the ordered
/// chapters in narrative order. The cover may stay empty until resolved.
#[derive(Debug)]
pub struct Comic {
    pub title: String,
    pub url: String,
    pub cover: String,
    pub chapters: Vec<Chapter>,
}

impl Comic {
    pub fn from_link(title: &str, url: &str) -> (c: Comic)
        ensures
            c.title@ == title@,
            c.url@ == url@,
            c.cover@ == Seq::<char>::empty(),
            c.chapters@ =~= Seq::<Chapter>::empty(),
    {
        Comic {
            title: title.to_owned(),
            url: url.to_owned(),
            cover: String::new(),
            chapters: Vec::new(),
        }
    }

    pub fn from_url(url: &str) -> (c: Comic)
        ensures
            c.title@ == Seq::<char>::empty(),
            c.url@ == url@,
            c.cover@ == Seq::<char>::empty(),
            c.chapters@ =~= Seq::<Chapter>::empty(),
    {
        proof {
            reveal_strlit("");
            assert(""@ =~= Seq::<char>::empty());
        }
        Comic::from_link("", url)
    }

    pub fn from_index(title: &str, url: &str, cover: &str) -> (c: Comic)
        ensures
            c.title@ == title@,
            c.url@ == url@,
            c.cover@ == cover@,
            c.chapters@ =~= Seq::<Chapter>::empty(),
    {
        Comic {
            title: title.to_owned(),
            url: url.to_owned(),
            cover: cover.to_owned(),
            chapters: Vec::new(),
        }
    }

    pub fn set_cover(&mut self, cover: &str)
        ensures
            final(self).cover@ == cover@,
            final(self).title == old(self).title,
            final(self).url == old(self).url,
            final(self).chapters == old(self).chapters,
    {
        self.cover = cover.to_owned();
    }

    pub fn push_chapter(&mut self, chapter: Chapter)
        ensures
            final(self).chapters@ == old(self).chapters@.push(chapter),
            final(self).title == old(self).title,
            final(self).url == old(self).url,
            final(self).cover == old(self).cover,
    {
        self.chapters.push(chapter);
    }
}

/// `d` is `c` renumbered to ordinal `w`, all other attributes kept.
pub open spec fn renumbered(c: Chapter, d: Chapter, w: u32) -> bool {
    &&& d.title == c.title
    &&& d.url == c.url
    &&& d.which == w
    &&& d.pages == c.pages
    &&& d.page_headers == c.page_headers
}

/// Attach chapters to a comic in the given order, assigning dense 1-based
/// ordinals by attach position within this batch.
pub fn attach_to(chapters: Vec<Chapter>, comic: &mut Comic)
    requires
        chapters@.len() <= u32::MAX,
    ensures
        final(comic).chapters@.len() == old(comic).chapters@.len() + chapters@.len(),
        forall|k: int|
            0 <= k < old(comic).chapters@.len() ==> final(comic).chapters@[k] == old(
                comic,
            ).chapters@[k],
        forall|k: int|
            0 <= k < chapters@.len() ==> renumbered(
                chapters@[k],
                #[trigger] final(comic).chapters@[old(comic).chapters@.len() + k],
                (k + 1) as u32,
            ),
        final(comic).title == old(comic).title,
        final(comic).url == old(comic).url,
        final(comic).cover == old(comic).cover,
{
    let ghost base = comic.chapters@.len() as int;
    let ghost orig = chapters@;
    let mut i: usize = 0;
    let mut rest = chapters;
    let n = rest.len();
    while i < n
        invariant
            base == old(comic).chapters@.len(),
            n == orig.len() <= u32::MAX,
            0 <= i <= n,
            rest@ =~= orig.subrange(i as int, n as int),
            comic.chapters@.len() == base + i,
            forall|k: int| 0 <= k < base ==> comic.chapters@[k] == old(comic).chapters@[k],
            forall|k: int|
                0 <= k < i ==> renumbered(
                    orig[k],
                    #[trigger] comic.chapters@[base + k],
                    (k + 1) as u32,
                ),
            comic.title == old(comic).title,
            comic.url == old(comic).url,
            comic.cover == old(comic).cover,
        decreases n - i,
    {
        let ghost prev = comic.chapters@;
        let mut chapter = rest.remove(0);
        proof {
            assert(chapter == orig[i as int]);
        }
        chapter.which = (i as u32) + 1;
        let ghost ch = chapter;
        comic.push_chapter(chapter);
        proof {
            assert(comic.chapters@ == prev.push(ch));
            assert(comic.chapters@[base + i as int] == ch);
            assert(renumbered(orig[i as int], ch, (i + 1) as u32));
            assert(prev.len() == base + i);
            assert forall|k: int| 0 <= k < i implies #[trigger] comic.chapters@[base + k]
                == prev[base + k] by {
                vstd::seq::axiom_seq_push_index_different(prev, ch, base + k);
            }
        }
        i += 1;
    }
}

/// Attach chapters in reversed order, then renumber as `attach_to` does.
pub fn reversed_attach_to(chapters: Vec<Chapter>, comic: &mut Comic)
    requires
        chapters@.len() <= u32::MAX,
    ensures
        final(comic).chapters@.len() == old(comic).chapters@.len() + chapters@.len(),
        forall|k: int|
            0 <= k < old(comic).chapters@.len() ==> final(comic).chapters@[k] == old(
                comic,
            ).chapters@[k],
        forall|k: int|
            0 <= k < chapters@.len() ==> renumbered(
                chapters@[chapters@.len() - 1 - k],
                #[trigger] final(comic).chapters@[old(comic).chapters@.len() + k],
                (k + 1) as u32,
            ),
        final(comic).title == old(comic).title,
        final(comic).url == old(comic).url,
        final(comic).cover == old(comic).cover,
{
    let ghost orig = chapters@;
    let mut reversed: Vec<Chapter> = Vec::new();
    let mut rest = chapters;
    while rest.len() > 0
        invariant
            rest@.len() + reversed@.len() == orig.len(),
            rest@ =~= orig.subrange(0, rest@.len() as int),
            forall|k: int|
                0 <= k < reversed@.len() ==> reversed@[k] == orig[orig.len() - 1 - k],
        decreases rest@.len(),
    {
        let c = rest.pop().unwrap();
        reversed.push(c);
    }
    attach_to(reversed, comic);
}

/// Clear the per-request headers of every chapter, keeping everything else.
pub fn headers_clear(chapters: Vec<Chapter>) -> (r: Vec<Chapter>)
    ensures
        r@.len() == chapters@.len(),
        forall|k: int|
            0 <= k < chapters@.len() ==> {
                &&& (#[trigger] r@[k]).title == chapters@[k].title
                &&& r@[k].url == chapters@[k].url
                &&& r@[k].which == chapters@[k].which
                &&& r@[k].pages == chapters@[k].pages
                &&& r@[k].page_headers@ =~= Seq::<(String, String)>::empty()
            },
{
    let ghost orig = chapters@;
    let mut rest = chapters;
    let mut out: Vec<Chapter> = Vec::new();
    let n = rest.len();
    let mut i: usize = 0;
    while i < n
        invariant
            n == orig.len(),
            0 <= i <= n,
            rest@ =~= orig.subrange(i as int, n as int),
            out@.len() == i,
            forall|k: int|
                0 <= k < i ==> {
                    &&& (#[trigger] out@[k]).title == orig[k].title
                    &&& out@[k].url == orig[k].url
                    &&& out@[k].which == orig[k].which
                    &&& out@[k].pages == orig[k].pages
                    &&& out@[k].page_headers@ =~= Seq::<(String, String)>::empty()
                },
        decreases n - i,
    {
        let mut c = rest.remove(0);
        c.page_headers = Vec::new();
        out.push(c);
        i += 1;
    }
    out
}

} // verus!
