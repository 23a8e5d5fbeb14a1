//! ePub books: their structure, and the conversion of a document into
//! chapters, package, navigation and the text of the package files. Reading
//! assets and writing the archive are done by the caller.

use vstd::prelude::*;
use crate::text::{chars_of, push_str, push_all, string_from_chars, string_views, decimal_seq, push_decimal, str_eq, to_lowercase, spec_to_lowercase};
use crate::database::models::research::{path_extension, spec_path_extension};
use crate::text::{is_blank, all_whitespace, contains_seq, occurs_at};
use crate::error::AppError;
use crate::database::enhanced_database_sqlx::{hex_digit, hex_digit_of};
use crate::timeutil::DateTimeUtc;
use crate::strmap::StrMap;
use crate::export::{TextAlignment, SectionBreakStyle};

verus! {

/// ePub versions.
#[derive(Debug, Clone, Copy, PartialEq, Eq, Structural)]
pub enum EpubVersion {
    V2,
    V3,
}

/// Page progression direction.
#[derive(Debug, Clone, Copy, PartialEq, Eq, Structural)]
pub enum PageProgressionDirection {
    LeftToRight,
    RightToLeft,
    Default,
}

/// CSS rule for ePub styling.
#[derive(Debug, Clone)]
pub struct CssRule {
    pub selector: String,
    pub properties: StrMap<String>,
    pub media_query: Option<String>,
    pub priority: u32,
}

/// ePub metadata structure.
#[derive(Debug, Clone)]
pub struct EpubMetadata {
    pub title: String,
    pub creator: String,
    pub language: String,
    pub identifier: String,
    pub publisher: Option<String>,
    pub publication_date: Option<DateTimeUtc>,
    pub rights: Option<String>,
    pub subject: Vec<String>,
    pub description: Option<String>,
    pub contributor: Vec<String>,
    pub coverage: Option<String>,
    pub relation: Vec<String>,
    pub source: Option<String>,
    pub type_: Option<String>,
    pub format: Option<String>,
    pub source_identifier: Option<String>,
    pub isbn: Option<String>,
    pub unique_identifier: String,
}

/// ePub export configuration (the cover image by its path).
#[derive(Debug, Clone)]
pub struct EpubExportConfig {
    pub epub_version: EpubVersion,
    pub language: String,
    pub identifier: String,
    pub cover_image: Option<String>,
    pub navigation_enabled: bool,
    pub adaptive_layout: bool,
    pub toc_depth: u8,
    pub page_progression: PageProgressionDirection,
    pub reading_order: Vec<String>,
    pub landmarks_enabled: bool,
    pub metadata: EpubMetadata,
    pub css_rules: Vec<CssRule>,
    pub javascript_enabled: bool,
}

/// Navigation point.
#[derive(Debug)]
pub struct NavPoint {
    pub id: String,
    pub text: String,
    pub content_src: String,
    pub nav_label: String,
    pub children: Vec<NavPoint>,
}

/// Navigation table of contents.
#[derive(Debug)]
pub struct NavigationTOC {
    pub title: String,
    pub nav_points: Vec<NavPoint>,
}

/// Landmark definition.
#[derive(Debug, Clone)]
pub struct Landmark {
    pub type_: String,
    pub title: String,
    pub href: String,
    pub description: Option<String>,
}

/// Page entry for page navigation.
#[derive(Debug, Clone)]
pub struct PageEntry {
    pub id: String,
    pub page_number: String,
    pub content_src: String,
    pub nav_label: String,
}

/// ePub navigation structure.
#[derive(Debug)]
pub struct EpubNavigation {
    pub toc: NavigationTOC,
    pub landmarks: Vec<Landmark>,
    pub page_list: Vec<PageEntry>,
    pub nav_points: Vec<NavPoint>,
}

/// Manifest item definition.
#[derive(Debug, Clone)]
pub struct ManifestItem {
    pub id: String,
    pub href: String,
    pub media_type: String,
    pub properties: Option<String>,
    pub fallback: Option<String>,
    pub required_namespace: Option<String>,
}

/// Spine item for reading order.
#[derive(Debug, Clone)]
pub struct SpineItem {
    pub idref: String,
    pub linear: bool,
    pub properties: Option<String>,
}

/// Guide reference.
#[derive(Debug, Clone)]
pub struct GuideItem {
    pub type_: String,
    pub title: String,
    pub href: String,
}

/// ePub package information; the manifest keeps its items in the order in
/// which they were first added.
#[derive(Debug, Clone)]
pub struct EpubPackage {
    pub version: EpubVersion,
    pub identifier: String,
    pub metadata: EpubMetadata,
    pub manifest: StrMap<ManifestItem>,
    pub spine: Vec<SpineItem>,
    pub guide: Option<Vec<GuideItem>>,
    pub bindings: Option<StrMap<String>>,
}

/// Note types.
#[derive(Debug, Clone, Copy, PartialEq, Eq, Structural)]
pub enum NoteType {
    Footnote,
    Endnote,
    Citation,
    Definition,
    Explanation,
}

/// Callout types.
#[derive(Debug, Clone, Copy, PartialEq, Eq, Structural)]
pub enum CalloutType {
    Figure,
    Table,
    Code,
    Equation,
    Reference,
}

/// ePub content elements.
#[derive(Debug)]
pub enum EpubContent {
    Heading { level: u8, text: String, id: Option<String> },
    Paragraph { text: String, class: Option<String>, id: Option<String> },
    Image {
        src: String,
        alt: String,
        width: Option<u32>,
        height: Option<u32>,
        class: Option<String>,
        id: Option<String>,
    },
    Link { href: String, text: String, type_: Option<String>, class: Option<String> },
    List { ordered: bool, items: Vec<EpubListItem>, class: Option<String> },
    Table { summary: Option<String>, headers: Vec<String>, rows: Vec<Vec<String>>, class: Option<String> },
    Note { type_: NoteType, content: String, backref: Option<String> },
    Callout { type_: CalloutType, number: u32, content: String, target: Option<String> },
}

/// ePub list item.
#[derive(Debug)]
pub struct EpubListItem {
    pub content: Vec<EpubContent>,
    pub id: Option<String>,
}

/// ePub chapter structure.
#[derive(Debug)]
pub struct EpubChapter {
    pub chapter_id: String,
    pub title: String,
    pub content: Vec<EpubContent>,
    pub navigation: Option<String>,
    pub landmarks: Vec<Landmark>,
}

/// List item with sub-items.
#[derive(Debug)]
pub struct ListItem {
    pub text: String,
    pub sub_items: Vec<ListItem>,
    pub checked: Option<bool>,
}

/// Document structure elements (an image by its path and its size in pixels).
#[derive(Debug)]
pub enum DocumentElement {
    Heading { level: u8, text: String, id: String },
    Paragraph { text: String, alignment: TextAlignment },
    List { items: Vec<ListItem>, ordered: bool },
    Table { headers: Vec<String>, rows: Vec<Vec<String>> },
    Image { path: String, caption: Option<String>, width: Option<u32>, height: Option<u32> },
    CodeBlock { content: String, language: Option<String>, line_numbers: bool },
    Quote { text: String, author: Option<String> },
    PageBreak,
    SectionBreak { title: Option<String>, style: SectionBreakStyle },
    Bookmark { title: String, target: String },
    Link { url: String, text: String },
}

/// The texts of a list item and its sub-items, the item first and each
/// sub-item's texts in turn after it.
pub open spec fn item_texts(item: ListItem) -> Seq<Seq<char>>
    decreases item,
{
    seq![item.text@] + items_texts(item.sub_items@)
}

/// The texts of list items in order, each followed by those of its sub-items.
pub open spec fn items_texts(items: Seq<ListItem>) -> Seq<Seq<char>>
    decreases items,
{
    if items.len() == 0 {
        Seq::empty()
    } else {
        item_texts(items[0]) + items_texts(items.drop_first())
    }
}

/// Texts of list items extend item by item.
pub proof fn lemma_items_texts_push(items: Seq<ListItem>, x: ListItem)
    ensures
        items_texts(items.push(x)) == items_texts(items) + item_texts(x),
    decreases items.len(),
{
    if items.len() == 0 {
        assert(items.push(x).drop_first() =~= Seq::<ListItem>::empty());
        assert(items_texts(items.push(x).drop_first()) == Seq::<Seq<char>>::empty());
        assert(items.push(x)[0] == x);
        assert(items_texts(items) == Seq::<Seq<char>>::empty());
        assert(items_texts(items.push(x)) =~= items_texts(items) + item_texts(x));
    } else {
        assert(items.push(x).drop_first() =~= items.drop_first().push(x));
        lemma_items_texts_push(items.drop_first(), x);
        assert(items.push(x)[0] == items[0]);
        assert(items_texts(items.push(x)) =~= items_texts(items) + item_texts(x));
    }
}

/// A list item of the book that holds one paragraph with a text, with no
/// class, identifier or item identifier.
pub open spec fn is_text_item(li: EpubListItem, text: Seq<char>) -> bool {
    &&& li.id is None
    &&& li.content@.len() == 1
    &&& li.content@[0] matches EpubContent::Paragraph { text: t, class: None, id: None } && t@ == text
}

/// The list items of the book hold the texts, one each, in order.
pub open spec fn text_items(v: Seq<EpubListItem>, texts: Seq<Seq<char>>) -> bool {
    &&& v.len() == texts.len()
    &&& forall|i: int| 0 <= i < v.len() ==> is_text_item(#[trigger] v[i], texts[i])
}

fn text_item(text: String) -> (li: EpubListItem)
    ensures
        is_text_item(li, text@),
{
    let mut content: Vec<EpubContent> = Vec::new();
    content.push(EpubContent::Paragraph { text, class: None, id: None });
    EpubListItem { content, id: None }
}

/// Converts list items into the book's list items: one paragraph item per
/// item, its sub-items' items directly after it (the nesting is flattened).
pub fn convert_list_items(items: &Vec<ListItem>) -> (r: Vec<EpubListItem>)
    ensures
        text_items(r@, items_texts(items@)),
    decreases items@,
{
    let mut out: Vec<EpubListItem> = Vec::new();
    let mut i: usize = 0;
    assert(items@.take(0) =~= Seq::<ListItem>::empty());
    while i < items.len()
        invariant
            i <= items@.len(),
            text_items(out@, items_texts(items@.take(i as int))),
        decreases items@.len() - i,
    {
        let item = &items[i];
        proof {
            lemma_items_texts_push(items@.take(i as int), items@[i as int]);
            assert(items@.take(i + 1) =~= items@.take(i as int).push(items@[i as int]));
        }
        let ghost before = out@;
        let ghost t0 = items_texts(items@.take(i as int));
        out.push(text_item(item.text.clone()));
        assert(text_items(out@, t0.push(item.text@)));
        if item.sub_items.len() > 0 {
            let mut subs = convert_list_items(&item.sub_items);
            let ghost mid = out@;
            let ghost sv = subs@;
            out.append(&mut subs);
            assert(out@ == mid + sv);
            assert(t0.push(item.text@) + items_texts(item.sub_items@) =~= t0 + item_texts(*item));
            assert forall|k: int| 0 <= k < out@.len() implies is_text_item(#[trigger] out@[k],
                (t0 + item_texts(*item))[k]) by {
                if k < mid.len() {
                    assert(out@[k] == mid[k]);
                } else {
                    assert(out@[k] == sv[k - mid.len()]);
                }
            }
        } else {
            assert(item.sub_items@ =~= Seq::<ListItem>::empty());
            assert(items_texts(item.sub_items@) =~= Seq::<Seq<char>>::empty());
            assert(t0.push(item.text@) =~= t0 + item_texts(*item));
        }
        i += 1;
    }
    assert(items@.take(i as int) =~= items@);
    out
}

/// The elements that become book content: headings, paragraphs, lists and
/// images (other elements are left out).
pub open spec fn is_kept(e: DocumentElement) -> bool {
    e is Heading || e is Paragraph || e is List || e is Image
}

/// Where every image of the book is stored.
pub open spec fn image_src() -> Seq<char> {
    "images/processed_image.jpg"@
}

/// `x` is the book content for the element `e`: a heading keeps its level,
/// text and identifier; a paragraph its text; a list whether it is ordered
/// and its items' texts (flattened); an image its size and its caption as
/// alternative text (`Image` without one), stored under `image_src()`.
pub open spec fn content_matches(x: EpubContent, e: DocumentElement) -> bool {
    match e {
        DocumentElement::Heading { level, text, id } => x matches EpubContent::Heading { level: l, text: t, id: Some(i) }
            && l == level && t == text && i == id,
        DocumentElement::Paragraph { text, .. } => x matches EpubContent::Paragraph { text: t, class: None, id: None }
            && t == text,
        DocumentElement::List { items, ordered } => x matches EpubContent::List { ordered: o, items: v, class: None }
            && o == ordered && text_items(v@, items_texts(items@)),
        DocumentElement::Image { caption, width, height, .. } => x matches EpubContent::Image {
            src, alt, width: w, height: h, class: None, id: None }
            && src@ == image_src()
            && alt@ == (match caption { Some(c) => c@, None => "Image"@ })
            && w == width && h == height,
        _ => false,
    }
}

/// Converts one element into book content, if it becomes any.
pub fn convert_element(e: DocumentElement) -> (r: Option<EpubContent>)
    ensures
        match r {
            Some(x) => is_kept(e) && content_matches(x, e),
            None => !is_kept(e),
        },
{
    match e {
        DocumentElement::Heading { level, text, id } => Some(EpubContent::Heading { level, text, id: Some(id) }),
        DocumentElement::Paragraph { text, .. } => Some(EpubContent::Paragraph { text, class: None, id: None }),
        DocumentElement::List { items, ordered } => {
            let v = convert_list_items(&items);
            Some(EpubContent::List { ordered, items: v, class: None })
        },
        DocumentElement::Image { path: _, caption, width, height } => {
            let alt = match caption {
                Some(c) => c,
                None => "Image".to_string(),
            };
            Some(EpubContent::Image {
                src: "images/processed_image.jpg".to_string(),
                alt,
                width,
                height,
                class: None,
                id: None,
            })
        },
        _ => None,
    }
}

/// The elements of a document that become book content, in order.
pub open spec fn kept_elements(els: Seq<DocumentElement>) -> Seq<DocumentElement>
    decreases els.len(),
{
    if els.len() == 0 {
        Seq::empty()
    } else if is_kept(els.last()) {
        kept_elements(els.drop_last()).push(els.last())
    } else {
        kept_elements(els.drop_last())
    }
}

/// A first-level heading.
pub open spec fn is_top_heading(e: DocumentElement) -> bool {
    e matches DocumentElement::Heading { level, .. } && level == 1
}

/// Where the chapters begin among the kept elements: the first element
/// begins the first chapter, and every later first-level heading begins a
/// new one.
pub open spec fn chapter_starts(k: Seq<DocumentElement>) -> Seq<int>
    decreases k.len(),
{
    if k.len() == 0 {
        Seq::empty()
    } else {
        let s = chapter_starts(k.drop_last());
        if s.len() == 0 {
            seq![0]
        } else if is_top_heading(k.last()) {
            s.push(k.len() - 1)
        } else {
            s
        }
    }
}

/// Where chapter `c` ends among `n` kept elements.
pub open spec fn chapter_end(s: Seq<int>, c: int, n: int) -> int {
    if c + 1 < s.len() { s[c + 1] } else { n }
}

/// The title of chapter `c`: `Chapter 1` for the first, the text of the
/// heading that begins it for any other.
pub open spec fn chapter_title(k: Seq<DocumentElement>, s: Seq<int>, c: int) -> Seq<char> {
    if c == 0 {
        "Chapter 1"@
    } else {
        match k[s[c]] {
            DocumentElement::Heading { text, .. } => text@,
            _ => Seq::empty(),
        }
    }
}

/// The identifier of chapter `c` (counted from one in the text).
pub open spec fn chapter_id_text(c: int) -> Seq<char> {
    "chapter_"@ + decimal_seq((c + 1) as nat)
}

/// `ch` is chapter `c` of the kept elements `k` with chapter starts `s`,
/// where the chapter runs to `end`.
pub open spec fn chapter_holds(ch: EpubChapter, k: Seq<DocumentElement>, s: Seq<int>, c: int, end: int) -> bool {
    &&& ch.chapter_id@ == chapter_id_text(c)
    &&& ch.title@ == chapter_title(k, s, c)
    &&& ch.navigation is None
    &&& ch.landmarks@.len() == 0
    &&& ch.content@.len() == end - s[c]
    &&& forall|j: int| 0 <= j < ch.content@.len() ==> content_matches(#[trigger] ch.content@[j], k[s[c] + j])
}

proof fn lemma_starts_shape(k: Seq<DocumentElement>)
    ensures
        k.len() == 0 <==> chapter_starts(k).len() == 0,
        chapter_starts(k).len() <= k.len(),
        chapter_starts(k).len() > 0 ==> chapter_starts(k)[0] == 0,
        forall|a: int, b: int| 0 <= a < b < chapter_starts(k).len() ==> chapter_starts(k)[a] < chapter_starts(k)[b],
        forall|a: int| 0 <= a < chapter_starts(k).len() ==> 0 <= #[trigger] chapter_starts(k)[a] < k.len(),
        forall|a: int| 0 < a < chapter_starts(k).len() ==> is_top_heading(k[#[trigger] chapter_starts(k)[a]]),
    decreases k.len(),
{
    if k.len() > 0 {
        lemma_starts_shape(k.drop_last());
        let s = chapter_starts(k.drop_last());
        assert forall|a: int| 0 < a < s.len() implies is_top_heading(k[#[trigger] s[a]]) by {
            assert(k[s[a]] == k.drop_last()[s[a]]);
        }
    }
}

proof fn lemma_kept_len(els: Seq<DocumentElement>)
    ensures
        kept_elements(els).len() <= els.len(),
    decreases els.len(),
{
    if els.len() > 0 {
        lemma_kept_len(els.drop_last());
    }
}

/// A chapter stays what it was when elements are added behind it and the
/// chapter starts only grow.
proof fn lemma_chapter_kept(ch: EpubChapter, k: Seq<DocumentElement>, s: Seq<int>, k2: Seq<DocumentElement>, s2: Seq<int>, c: int, end: int)
    requires
        chapter_holds(ch, k, s, c, end),
        0 <= c < s.len(),
        s.len() <= s2.len(),
        forall|a: int| 0 <= a < s.len() ==> #[trigger] s2[a] == s[a],
        k.len() <= k2.len(),
        forall|a: int| 0 <= a < k.len() ==> #[trigger] k2[a] == k[a],
        0 <= s[c] <= end <= k.len(),
        s[c] < k.len(),
    ensures
        chapter_holds(ch, k2, s2, c, end),
{
    assert(s2[c] == s[c]);
    if c > 0 {
        assert(k2[s[c]] == k[s[c]]);
    }
    assert forall|j: int| 0 <= j < ch.content@.len() implies content_matches(#[trigger] ch.content@[j], k2[s2[c] + j]) by {
        assert(k2[s[c] + j] == k[s[c] + j]);
    }
}

fn chapter_id_of(n: u64) -> (r: String)
    requires
        n >= 1,
    ensures
        r@ == chapter_id_text(n - 1),
{
    let mut v = chars_of("chapter_");
    push_decimal(&mut v, n);
    string_from_chars(&v)
}

/// The chapters finished so far and the current one for the kept elements `k`.
pub open spec fn conversion_state(chs: Seq<EpubChapter>, cur: EpubChapter, k: Seq<DocumentElement>) -> bool {
    let s = chapter_starts(k);
    &&& k.len() == 0 ==> {
        &&& chs.len() == 0
        &&& cur.content@.len() == 0
        &&& cur.chapter_id@ == chapter_id_text(0)
        &&& cur.title@ == "Chapter 1"@
        &&& cur.navigation is None
        &&& cur.landmarks@.len() == 0
    }
    &&& k.len() > 0 ==> {
        &&& chs.len() + 1 == s.len()
        &&& forall|c: int| 0 <= c < chs.len() ==> chapter_holds(#[trigger] chs[c], k, s, c, s[c + 1])
        &&& chapter_holds(cur, k, s, s.len() - 1, k.len() as int)
    }
}

/// Splits a document into chapters. The elements that become content are
/// kept in order; the first begins the first chapter (`chapter_1`, titled
/// `Chapter 1`), and every later first-level heading begins a new chapter
/// titled by it. A document without such elements has no chapters.
pub fn convert_to_epub_content(content: Vec<DocumentElement>) -> (r: Vec<EpubChapter>)
    ensures
        r@.len() == chapter_starts(kept_elements(content@)).len(),
        forall|c: int| 0 <= c < r@.len() ==> chapter_holds(
            #[trigger] r@[c],
            kept_elements(content@),
            chapter_starts(kept_elements(content@)),
            c,
            chapter_end(chapter_starts(kept_elements(content@)), c, kept_elements(content@).len() as int),
        ),
{
    let ghost all = content@;
    let n = content.len();
    let mut rest = content;
    let mut chapters: Vec<EpubChapter> = Vec::new();
    let mut current = EpubChapter {
        chapter_id: chapter_id_of(1),
        title: "Chapter 1".to_string(),
        content: Vec::new(),
        navigation: None,
        landmarks: Vec::new(),
    };
    let mut i: usize = 0;
    proof {
        assert(all.take(0) =~= Seq::<DocumentElement>::empty());
    }
    while rest.len() > 0
        invariant
            i <= n,
            all.len() == n,
            rest@ == all.subrange(i as int, n as int),
            conversion_state(chapters@, current, kept_elements(all.take(i as int))),
        decreases rest@.len(),
    {
        let e = rest.remove(0);
        let ghost k = kept_elements(all.take(i as int));
        let ghost s = chapter_starts(k);
        proof {
            assert(e == all[i as int]);
            assert(all.take(i + 1).drop_last() =~= all.take(i as int));
            assert(all.take(i + 1).last() == e);
            lemma_starts_shape(k);
            lemma_kept_len(all.take(i as int));
        }
        let ghost k2 = kept_elements(all.take(i + 1));
        let top = match &e {
            DocumentElement::Heading { level, .. } => *level == 1,
            _ => false,
        };
        let heading_text = match &e {
            DocumentElement::Heading { text, .. } => text.clone(),
            _ => String::new(),
        };
        let ghost ev = e;
        match convert_element(e) {
            None => {
                assert(k2 == k);
                assert(conversion_state(chapters@, current, k2));
            },
            Some(x) => {
                assert(k2 == k.push(ev));
                let ghost s2 = chapter_starts(k2);
                assert(k2.drop_last() =~= k);
                if top && current.content.len() > 0 {
                    assert(s2 == s.push(k.len() as int));
                    let cid = chapter_id_of((chapters.len() as u64) + 2);
                    let mut fresh = EpubChapter {
                        chapter_id: cid,
                        title: heading_text,
                        content: Vec::new(),
                        navigation: None,
                        landmarks: Vec::new(),
                    };
                    fresh.content.push(x);
                    let ghost old_chapters = chapters@;
                    let ghost finished = current;
                    std::mem::swap(&mut current, &mut fresh);
                    chapters.push(fresh);
                    proof {
                        assert forall|c: int| 0 <= c < chapters@.len() implies chapter_holds(#[trigger] chapters@[c], k2, s2, c, s2[c + 1]) by {
                            if c < old_chapters.len() {
                                assert(chapters@[c] == old_chapters[c]);
                                lemma_chapter_kept(old_chapters[c], k, s, k2, s2, c, s[c + 1]);
                            } else {
                                lemma_chapter_kept(finished, k, s, k2, s2, c, k.len() as int);
                            }
                        }
                        assert(k2[s2[s2.len() - 1]] == ev);
                        assert(current.content@[0] == x);
                        assert(chapter_holds(current, k2, s2, s2.len() - 1, k2.len() as int));
                        assert(conversion_state(chapters@, current, k2));
                    }
                } else {
                    proof {
                        if k.len() == 0 {
                            assert(s2 == seq![0int]);
                        } else {
                            assert(s2 == s);
                        }
                    }
                    let ghost old_content = current.content@;
                    current.content.push(x);
                    proof {
                        if k.len() > 0 {
                            assert forall|c: int| 0 <= c < chapters@.len() implies chapter_holds(#[trigger] chapters@[c], k2, s2, c, s2[c + 1]) by {
                                lemma_chapter_kept(chapters@[c], k, s, k2, s2, c, s[c + 1]);
                            }
                            let last = s.len() - 1;
                            assert forall|j: int| 0 <= j < current.content@.len() implies content_matches(#[trigger] current.content@[j], k2[s2[last] + j]) by {
                                if j < old_content.len() {
                                    assert(current.content@[j] == old_content[j]);
                                    assert(k2[s[last] + j] == k[s[last] + j]);
                                }
                            }
                            if last > 0 {
                                assert(k2[s[last]] == k[s[last]]);
                            }
                        } else {
                            assert(current.content@[0] == x);
                            assert(k2[0] == ev);
                        }
                        assert(conversion_state(chapters@, current, k2));
                    }
                }
            },
        }
        i += 1;
        assert(rest@ =~= all.subrange(i as int, n as int));
    }
    proof {
        assert(all.take(i as int) =~= all);
    }
    let ghost k = kept_elements(all);
    let ghost s = chapter_starts(k);
    if current.content.len() > 0 {
        chapters.push(current);
    }
    proof {
        lemma_starts_shape(k);
    }
    chapters
}

/// Asset types.
#[derive(Debug, Clone, Copy, PartialEq, Eq, Structural)]
pub enum AssetType {
    Image,
    Font,
    Audio,
    Video,
    Stylesheet,
    Script,
    Metadata,
}

/// Asset formats.
#[derive(Debug, Clone)]
pub enum AssetFormat {
    Optimized,
    Compressed,
    Resized,
    Converted(String),
}

/// An asset of the book (its source file by its path).
#[derive(Debug, Clone)]
pub struct AssetData {
    pub asset_id: String,
    pub file_path: String,
    pub asset_type: AssetType,
    pub processed_data: Vec<u8>,
    pub media_type: String,
    pub size_bytes: u64,
    pub checksum: String,
}

/// The media types of ePub resources.
#[derive(Debug, Clone, Copy)]
pub struct EpubMediaTypes {
    pub xhtml: &'static str,
    pub html: &'static str,
    pub css: &'static str,
    pub jpg: &'static str,
    pub jpeg: &'static str,
    pub png: &'static str,
    pub gif: &'static str,
    pub svg: &'static str,
    pub ttf: &'static str,
    pub otf: &'static str,
    pub woff: &'static str,
    pub woff2: &'static str,
    pub mp3: &'static str,
    pub mp4: &'static str,
    pub smil: &'static str,
    pub ncximage: &'static str,
    pub drm_message: &'static str,
    pub nav: &'static str,
}

/// The media type of XHTML documents.
pub open spec fn xhtml_media_type() -> Seq<char> {
    "application/xhtml+xml"@
}

/// What a manifest item says: its identifier, address and media type, and
/// that it has no properties, fallback or required namespace.
pub open spec fn item_view(m: ManifestItem) -> (Seq<char>, Seq<char>, Seq<char>, bool) {
    (m.id@, m.href@, m.media_type@, m.properties is None && m.fallback is None && m.required_namespace is None)
}

/// The address of the file of chapter `i` (counted from one in the text).
pub open spec fn chapter_href(i: int) -> Seq<char> {
    "xhtml/chapter_"@ + decimal_seq((i + 1) as nat) + ".xhtml"@
}

/// The manifest entries of a package, in the order they are added: the
/// chapters' documents, then the assets under their identifiers.
pub open spec fn manifest_plan(n: nat, assets: Seq<AssetData>) -> Seq<(Seq<char>, (Seq<char>, Seq<char>, Seq<char>, bool))> {
    Seq::new(n, |i: int| (chapter_id_text(i), (chapter_id_text(i), chapter_href(i), xhtml_media_type(), true)))
        + assets.map_values(|a: AssetData| (a.asset_id@, (a.asset_id@, a.file_path@, a.media_type@, true)))
}

/// The map that adding entries in order gives (a later entry replaces an
/// earlier one under the same key).
pub open spec fn plan_map<V>(plan: Seq<(Seq<char>, V)>) -> Map<Seq<char>, V>
    decreases plan.len(),
{
    if plan.len() == 0 {
        Map::empty()
    } else {
        plan_map(plan.drop_last()).insert(plan.last().0, plan.last().1)
    }
}

/// The keys that adding entries in order gives, each at its first addition.
pub open spec fn plan_keys<V>(plan: Seq<(Seq<char>, V)>) -> Seq<Seq<char>>
    decreases plan.len(),
{
    if plan.len() == 0 {
        Seq::empty()
    } else {
        let ks = plan_keys(plan.drop_last());
        if ks.contains(plan.last().0) { ks } else { ks.push(plan.last().0) }
    }
}

/// The manifest's items as they are described.
pub open spec fn manifest_view(m: StrMap<ManifestItem>) -> Map<Seq<char>, (Seq<char>, Seq<char>, Seq<char>, bool)> {
    m.map().map_values(|i: ManifestItem| item_view(i))
}

fn add_to_manifest(
    manifest: &mut StrMap<ManifestItem>,
    key: String,
    item: ManifestItem,
    Ghost(plan): Ghost<Seq<(Seq<char>, (Seq<char>, Seq<char>, Seq<char>, bool))>>,
)
    requires
        old(manifest).wf(),
        manifest_view(*old(manifest)) == plan_map(plan),
        old(manifest).keys() == plan_keys(plan),
    ensures
        final(manifest).wf(),
        manifest_view(*final(manifest)) == plan_map(plan.push((key@, item_view(item)))),
        final(manifest).keys() == plan_keys(plan.push((key@, item_view(item)))),
{
    let ghost e = (key@, item_view(item));
    proof {
        crate::strmap::lemma_entries_map_domain(manifest.entries@, key@);
        assert(plan.push(e).drop_last() =~= plan);
    }
    manifest.insert(key, item);
    assert(manifest_view(*manifest) =~= plan_map(plan.push(e)));
}

fn manifest_item(id: String, href: String, media_type: String) -> (m: ManifestItem)
    ensures
        item_view(m) == (id@, href@, media_type@, true),
{
    ManifestItem { id, href, media_type, properties: None, fallback: None, required_namespace: None }
}

fn chapter_href_of(n: u64) -> (r: String)
    requires
        n >= 1,
    ensures
        r@ == chapter_href(n - 1),
{
    let mut v = chars_of("xhtml/chapter_");
    push_decimal(&mut v, n);
    push_str(&mut v, ".xhtml");
    string_from_chars(&v)
}

/// Builds the package of a book: a manifest entry and a spine entry (in the
/// reading order) for each chapter's document, then a manifest entry for
/// each asset; the configuration's version and metadata, identified by the
/// metadata's unique identifier.
pub fn build_epub_package(chapters: &Vec<EpubChapter>, config: EpubExportConfig, assets: &Vec<AssetData>) -> (p: EpubPackage)
    ensures
        p.version == config.epub_version,
        p.identifier == config.metadata.unique_identifier,
        p.metadata == config.metadata,
        p.manifest.wf(),
        manifest_view(p.manifest) == plan_map(manifest_plan(chapters@.len(), assets@)),
        p.manifest.keys() == plan_keys(manifest_plan(chapters@.len(), assets@)),
        p.spine@.len() == chapters@.len(),
        forall|i: int| 0 <= i < chapters@.len() ==> (#[trigger] p.spine@[i]).idref@ == chapter_id_text(i)
            && p.spine@[i].linear && p.spine@[i].properties is None,
        p.guide is None,
        p.bindings is None,
{
    let chapter_count = chapters.len();
    let ghost plan = manifest_plan(chapter_count as nat, assets@);
    let mut manifest: StrMap<ManifestItem> = StrMap::new();
    let mut spine: Vec<SpineItem> = Vec::new();
    let mut i: usize = 0;
    assert(plan.take(0) =~= Seq::<(Seq<char>, (Seq<char>, Seq<char>, Seq<char>, bool))>::empty());
    assert(manifest_view(manifest) =~= Map::<Seq<char>, (Seq<char>, Seq<char>, Seq<char>, bool)>::empty());
    while i < chapter_count
        invariant
            i <= chapter_count,
            plan == manifest_plan(chapter_count as nat, assets@),
            manifest.wf(),
            manifest_view(manifest) == plan_map(plan.take(i as int)),
            manifest.keys() == plan_keys(plan.take(i as int)),
            spine@.len() == i,
            forall|j: int| 0 <= j < i ==> (#[trigger] spine@[j]).idref@ == chapter_id_text(j)
                && spine@[j].linear && spine@[j].properties is None,
        decreases chapter_count - i,
    {
        let id = chapter_id_of((i as u64) + 1);
        let href = chapter_href_of((i as u64) + 1);
        let item = manifest_item(id.clone(), href, "application/xhtml+xml".to_string());
        assert(plan[i as int] == (id@, item_view(item)));
        assert(plan.take(i + 1) =~= plan.take(i as int).push(plan[i as int]));
        add_to_manifest(&mut manifest, id.clone(), item, Ghost(plan.take(i as int)));
        spine.push(SpineItem { idref: id, linear: true, properties: None });
        i += 1;
    }
    let mut j: usize = 0;
    while j < assets.len()
        invariant
            j <= assets@.len(),
            plan == manifest_plan(chapter_count as nat, assets@),
            plan.len() == chapter_count + assets@.len(),
            manifest.wf(),
            manifest_view(manifest) == plan_map(plan.take(chapter_count + j)),
            manifest.keys() == plan_keys(plan.take(chapter_count + j)),
        decreases assets@.len() - j,
    {
        let a = &assets[j];
        let item = manifest_item(a.asset_id.clone(), a.file_path.clone(), a.media_type.clone());
        assert(plan[chapter_count + j] == (a.asset_id@, item_view(item)));
        assert(plan.take(chapter_count + j + 1) =~= plan.take(chapter_count + j).push(plan[chapter_count + j]));
        add_to_manifest(&mut manifest, a.asset_id.clone(), item, Ghost(plan.take(chapter_count + j)));
        j += 1;
    }
    assert(plan.take(chapter_count + j) =~= plan);
    EpubPackage {
        version: config.epub_version,
        identifier: config.metadata.unique_identifier.clone(),
        metadata: config.metadata,
        manifest,
        spine,
        guide: None,
        bindings: None,
    }
}

/// The spine positions whose item is in the manifest, with the address of
/// that item, in reading order.
pub open spec fn nav_plan(spine: Seq<SpineItem>, manifest: Map<Seq<char>, (Seq<char>, Seq<char>, Seq<char>, bool)>) -> Seq<(int, Seq<char>)>
    decreases spine.len(),
{
    if spine.len() == 0 {
        Seq::empty()
    } else {
        let p = nav_plan(spine.drop_last(), manifest);
        if manifest.contains_key(spine.last().idref@) {
            p.push(((spine.len() - 1) as int, manifest[spine.last().idref@].1))
        } else {
            p
        }
    }
}

/// The label of the chapter at spine position `i`.
pub open spec fn chapter_label(i: int) -> Seq<char> {
    "Chapter "@ + decimal_seq((i + 1) as nat)
}

/// `p` is the navigation point for spine position `i` with address `href`.
pub open spec fn nav_point_holds(p: NavPoint, i: int, href: Seq<char>) -> bool {
    &&& p.id@ == "navpoint_"@ + decimal_seq((i + 1) as nat)
    &&& p.text@ == chapter_label(i)
    &&& p.content_src@ == href
    &&& p.nav_label@ == chapter_label(i)
    &&& p.children@.len() == 0
}

/// The navigation of a package: a table of contents titled `Table of
/// Contents` with a point for each spine item found in the manifest; no
/// landmarks, page list or further points.
pub fn generate_epub_navigation(package: &EpubPackage) -> (nav: EpubNavigation)
    requires
        package.manifest.wf(),
    ensures
        nav.toc.title@ == "Table of Contents"@,
        nav.toc.nav_points@.len() == nav_plan(package.spine@, manifest_view(package.manifest)).len(),
        forall|j: int| 0 <= j < nav.toc.nav_points@.len() ==> nav_point_holds(
            #[trigger] nav.toc.nav_points@[j],
            nav_plan(package.spine@, manifest_view(package.manifest))[j].0,
            nav_plan(package.spine@, manifest_view(package.manifest))[j].1,
        ),
        nav.landmarks@.len() == 0,
        nav.page_list@.len() == 0,
        nav.nav_points@.len() == 0,
{
    let ghost mv = manifest_view(package.manifest);
    let mut points: Vec<NavPoint> = Vec::new();
    let mut i: usize = 0;
    assert(package.spine@.take(0) =~= Seq::<SpineItem>::empty());
    while i < package.spine.len()
        invariant
            i <= package.spine@.len(),
            package.manifest.wf(),
            mv == manifest_view(package.manifest),
            points@.len() == nav_plan(package.spine@.take(i as int), mv).len(),
            forall|j: int| 0 <= j < points@.len() ==> nav_point_holds(
                #[trigger] points@[j],
                nav_plan(package.spine@.take(i as int), mv)[j].0,
                nav_plan(package.spine@.take(i as int), mv)[j].1,
            ),
        decreases package.spine@.len() - i,
    {
        let item = &package.spine[i];
        let ghost before = nav_plan(package.spine@.take(i as int), mv);
        proof {
            assert(package.spine@.take(i + 1).drop_last() =~= package.spine@.take(i as int));
            assert(package.spine@.take(i + 1).last() == *item);
        }
        match package.manifest.get(item.idref.as_str()) {
            Some(m) => {
                let mut id = chars_of("navpoint_");
                push_decimal(&mut id, (i as u64) + 1);
                let mut label = chars_of("Chapter ");
                push_decimal(&mut label, (i as u64) + 1);
                let p = NavPoint {
                    id: string_from_chars(&id),
                    text: string_from_chars(&label),
                    content_src: m.href.clone(),
                    nav_label: string_from_chars(&label),
                    children: Vec::new(),
                };
                assert(mv[item.idref@].1 == m.href@);
                points.push(p);
                proof {
                    let after = nav_plan(package.spine@.take(i + 1), mv);
                    assert(after == before.push((i as int, m.href@)));
                    assert forall|j: int| 0 <= j < points@.len() implies nav_point_holds(
                        #[trigger] points@[j], after[j].0, after[j].1) by {
                        if j < before.len() {
                            assert(after[j] == before[j]);
                        }
                    }
                }
            },
            None => {
                assert(nav_plan(package.spine@.take(i + 1), mv) == before);
            },
        }
        i += 1;
    }
    assert(package.spine@.take(i as int) =~= package.spine@);
    EpubNavigation {
        toc: NavigationTOC { title: "Table of Contents".to_string(), nav_points: points },
        landmarks: Vec::new(),
        page_list: Vec::new(),
        nav_points: Vec::new(),
    }
}

proof fn lemma_plan_map_value<V>(plan: Seq<(Seq<char>, V)>, k: Seq<char>, v: V, at: int)
    requires
        0 <= at < plan.len(),
        plan[at].0 == k,
        forall|j: int| 0 <= j < plan.len() && (#[trigger] plan[j]).0 == k ==> plan[j].1 == v,
    ensures
        plan_map(plan).contains_key(k),
        plan_map(plan)[k] == v,
    decreases plan.len(),
{
    let rest = plan.drop_last();
    if at < plan.len() - 1 {
        assert forall|j: int| 0 <= j < rest.len() && (#[trigger] rest[j]).0 == k implies rest[j].1 == v by {
            assert(rest[j] == plan[j]);
        }
        assert(rest[at] == plan[at]);
        lemma_plan_map_value(rest, k, v, at);
    }
}

proof fn lemma_chapter_id_injective(a: int, b: int)
    requires
        0 <= a,
        0 <= b,
        chapter_id_text(a) == chapter_id_text(b),
    ensures
        a == b,
{
    reveal_strlit("chapter_");
    let da = decimal_seq((a + 1) as nat);
    let db = decimal_seq((b + 1) as nat);
    let prefix = "chapter_"@;
    assert((prefix + da).subrange(8, (prefix + da).len() as int) =~= da);
    assert((prefix + db).subrange(8, (prefix + db).len() as int) =~= db);
    crate::text::lemma_decimal_round_trip((a + 1) as nat);
    crate::text::lemma_decimal_round_trip((b + 1) as nat);
}

proof fn lemma_nav_plan_prefix(
    spine: Seq<SpineItem>,
    mv: Map<Seq<char>, (Seq<char>, Seq<char>, Seq<char>, bool)>,
    m: int,
)
    requires
        0 <= m <= spine.len(),
        forall|i: int| 0 <= i < spine.len() ==> mv.contains_key((#[trigger] spine[i]).idref@)
            && mv[spine[i].idref@].1 == chapter_href(i),
    ensures
        nav_plan(spine.take(m), mv) == Seq::new(m as nat, |i: int| (i, chapter_href(i))),
    decreases m,
{
    if m == 0 {
        assert(nav_plan(spine.take(0), mv) =~= Seq::new(0, |i: int| (i, chapter_href(i))));
    } else {
        lemma_nav_plan_prefix(spine, mv, m - 1);
        assert(spine.take(m).drop_last() =~= spine.take(m - 1));
        assert(spine.take(m).last() == spine[m - 1]);
        assert(nav_plan(spine.take(m), mv) =~= Seq::new(m as nat, |i: int| (i, chapter_href(i))));
    }
}

/// A book's table of contents lists every chapter in reading order: for a
/// package as `build_epub_package` builds it from `n` chapters and from
/// assets none of which takes a chapter's identifier, the navigation that
/// `generate_epub_navigation` gives has one point per chapter, the one at
/// position `i` leading to the document of chapter `i`.
pub proof fn law_navigation_lists_every_chapter(p: EpubPackage, n: nat, assets: Seq<AssetData>)
    requires
        p.manifest.wf(),
        manifest_view(p.manifest) == plan_map(manifest_plan(n, assets)),
        p.spine@.len() == n,
        forall|i: int| 0 <= i < n ==> (#[trigger] p.spine@[i]).idref@ == chapter_id_text(i),
        forall|a: int, i: int| 0 <= a < assets.len() && 0 <= i < n
            ==> (#[trigger] assets[a]).asset_id@ != #[trigger] chapter_id_text(i),
    ensures
        nav_plan(p.spine@, manifest_view(p.manifest)) == Seq::new(n, |i: int| (i, chapter_href(i))),
{
    let plan = manifest_plan(n, assets);
    let mv = manifest_view(p.manifest);
    assert forall|i: int| 0 <= i < p.spine@.len() implies mv.contains_key((#[trigger] p.spine@[i]).idref@)
        && mv[p.spine@[i].idref@].1 == chapter_href(i) by {
        let k = chapter_id_text(i);
        let v = (k, chapter_href(i), xhtml_media_type(), true);
        assert forall|j: int| 0 <= j < plan.len() && (#[trigger] plan[j]).0 == k implies plan[j].1 == v by {
            if j < n {
                lemma_chapter_id_injective(j, i);
            } else {
                assert(plan[j].0 == assets[j - n].asset_id@);
            }
        }
        assert(plan[i].0 == k);
        lemma_plan_map_value(plan, k, v, i);
    }
    lemma_nav_plan_prefix(p.spine@, mv, n as int);
    assert(p.spine@.take(n as int) =~= p.spine@);
}

/// The container document of an ePub archive, pointing at the package file.
pub open spec fn container_xml_text() -> Seq<char> {
    "<?xml version=\"1.0\" encoding=\"UTF-8\"?>\n<container version=\"1.0\" xmlns=\"urn:oasis:names:tc:opendocument:xmlns:container\">\n    <rootfiles>\n        <rootfile full-path=\"OEBPS/content.opf\" media-type=\"application/oebps-package+xml\"/>\n    </rootfiles>\n</container>"@
}

/// The container document of an ePub archive.
pub fn generate_container_xml() -> (r: String)
    ensures
        r@ == container_xml_text(),
{
    "<?xml version=\"1.0\" encoding=\"UTF-8\"?>\n<container version=\"1.0\" xmlns=\"urn:oasis:names:tc:opendocument:xmlns:container\">\n    <rootfiles>\n        <rootfile full-path=\"OEBPS/content.opf\" media-type=\"application/oebps-package+xml\"/>\n    </rootfiles>\n</container>".to_string()
}

/// The version attribute of a package.
pub open spec fn version_text(v: EpubVersion) -> Seq<char> {
    match v {
        EpubVersion::V2 => "2.0"@,
        EpubVersion::V3 => "3.0"@,
    }
}

/// The items, each between `before` and `after`, one after another.
pub open spec fn wrapped_lines(before: Seq<char>, after: Seq<char>, items: Seq<Seq<char>>) -> Seq<char>
    decreases items.len(),
{
    if items.len() == 0 {
        Seq::empty()
    } else {
        wrapped_lines(before, after, items.drop_last()) + before + items.last() + after
    }
}

/// A line for an optional value, or nothing.
pub open spec fn optional_line(before: Seq<char>, after: Seq<char>, o: Option<String>) -> Seq<char> {
    match o {
        Some(s) => before + s@ + after,
        None => Seq::empty(),
    }
}

/// The manifest lines: one item per entry, by the entry's key.
pub open spec fn manifest_lines(entries: Seq<(String, ManifestItem)>) -> Seq<char>
    decreases entries.len(),
{
    if entries.len() == 0 {
        Seq::empty()
    } else {
        manifest_lines(entries.drop_last()) + "        <item id=\""@ + entries.last().0@ + "\" href=\""@
            + entries.last().1.href@ + "\" media-type=\""@ + entries.last().1.media_type@ + "\"/>\n"@
    }
}

/// The reference of each spine item.
pub open spec fn spine_refs(spine: Seq<SpineItem>) -> Seq<Seq<char>> {
    spine.map_values(|s: SpineItem| s.idref@)
}

/// The opening of the package file, up to its time of modification.
pub open spec fn opf_head(p: EpubPackage, modified: Seq<char>) -> Seq<char> {
    "<?xml version=\"1.0\" encoding=\"utf-8\"?>\n<package version=\""@ + version_text(p.version) + "\" xmlns=\"http://www.idpf.org/2007/opf\" unique-identifier=\"BookId\">\n    <metadata xmlns:dc=\"http://purl.org/dc/elements/1.1/\" xmlns:opf=\"http://www.idpf.org/2007/opf\">\n        <dc:identifier id=\"BookId\">"@ + p.metadata.identifier@
        + "</dc:identifier>\n        <dc:title>"@ + p.metadata.title@ + "</dc:title>\n        <dc:creator>"@ + p.metadata.creator@
        + "</dc:creator>\n        <dc:language>"@ + p.metadata.language@ + "</dc:language>\n        <meta property=\"dcterms:modified\">"@ + modified + "</meta>\n"@

}

/// The opening of the package file and its metadata.
pub open spec fn opf_metadata_part(p: EpubPackage, modified: Seq<char>) -> Seq<char> {
    opf_head(p, modified)
        + optional_line("        <dc:publisher>"@, "</dc:publisher>\n"@, p.metadata.publisher)
        + optional_line("        <dc:rights>"@, "</dc:rights>\n"@, p.metadata.rights)
        + wrapped_lines("        <dc:subject>"@, "</dc:subject>\n"@, string_views(p.metadata.subject@))
        + "    </metadata>\n"@
}

/// The manifest of the package file.
pub open spec fn opf_manifest_part(p: EpubPackage) -> Seq<char> {
    "    <manifest>\n"@
        + manifest_lines(p.manifest.entries@)
        + "        <item id=\"ncx\" href=\"toc.ncx\" media-type=\"application/x-dtbncx+xml\"/>\n"@
        + "        <item id=\"nav\" href=\"nav.xhtml\" media-type=\"application/xhtml+xml\" properties=\"nav\"/>\n"@
        + "    </manifest>\n"@
}

/// The spine of the package file and its end.
pub open spec fn opf_spine_part(p: EpubPackage) -> Seq<char> {
    "    <spine toc=\"ncx\">\n"@
        + wrapped_lines("        <itemref idref=\""@, "\"/>\n"@, spine_refs(p.spine@))
        + "    </spine>\n"@ + "</package>"@
}

/// The package file of a book modified at the time printed as `modified`:
/// its metadata, its manifest (the package's entries in order, then the
/// navigation files) and its spine.
pub open spec fn content_opf_text(p: EpubPackage, modified: Seq<char>) -> Seq<char> {
    opf_metadata_part(p, modified) + opf_manifest_part(p) + opf_spine_part(p)
}

fn push_wrapped(out: &mut Vec<char>, before: &str, after: &str, items: &Vec<String>)
    ensures
        final(out)@ == old(out)@ + wrapped_lines(before@, after@, string_views(items@)),
{
    let ghost start = out@;
    let mut i: usize = 0;
    assert(string_views(items@).take(0) =~= Seq::<Seq<char>>::empty());
    while i < items.len()
        invariant
            i <= items@.len(),
            out@ == start + wrapped_lines(before@, after@, string_views(items@).take(i as int)),
        decreases items@.len() - i,
    {
        push_str(out, before);
        push_str(out, items[i].as_str());
        push_str(out, after);
        assert(string_views(items@).take(i + 1).drop_last() =~= string_views(items@).take(i as int));
        assert(out@ =~= start + wrapped_lines(before@, after@, string_views(items@).take(i + 1)));
        i += 1;
    }
    assert(string_views(items@).take(i as int) =~= string_views(items@));
}

fn push_opf_head(v: &mut Vec<char>, package: &EpubPackage, modified: &str)
    ensures
        final(v)@ == old(v)@ + opf_head(*package, modified@),
{
    let ghost start = v@;
    push_str(v, "<?xml version=\"1.0\" encoding=\"utf-8\"?>\n<package version=\"");
    match package.version {
        EpubVersion::V2 => push_str(v, "2.0"),
        EpubVersion::V3 => push_str(v, "3.0"),
    }
    push_str(v, "\" xmlns=\"http://www.idpf.org/2007/opf\" unique-identifier=\"BookId\">\n    <metadata xmlns:dc=\"http://purl.org/dc/elements/1.1/\" xmlns:opf=\"http://www.idpf.org/2007/opf\">\n        <dc:identifier id=\"BookId\">");
    push_str(v, package.metadata.identifier.as_str());
    push_str(v, "</dc:identifier>\n        <dc:title>");
    push_str(v, package.metadata.title.as_str());
    push_str(v, "</dc:title>\n        <dc:creator>");
    push_str(v, package.metadata.creator.as_str());
    push_str(v, "</dc:creator>\n        <dc:language>");
    push_str(v, package.metadata.language.as_str());
    push_str(v, "</dc:language>\n        <meta property=\"dcterms:modified\">");
    push_str(v, modified);
    push_str(v, "</meta>\n");
    assert(v@ =~= start + opf_head(*package, modified@));
}

fn push_opf_metadata(v: &mut Vec<char>, package: &EpubPackage, modified: &str)
    ensures
        final(v)@ == old(v)@ + opf_metadata_part(*package, modified@),
{
    let ghost start = v@;
    push_opf_head(v, package, modified);
    let ghost h = v@;
    match &package.metadata.publisher {
        Some(p) => {
            push_str(v, "        <dc:publisher>");
            push_str(v, p.as_str());
            push_str(v, "</dc:publisher>\n");
        },
        None => {},
    }
    match &package.metadata.rights {
        Some(p) => {
            push_str(v, "        <dc:rights>");
            push_str(v, p.as_str());
            push_str(v, "</dc:rights>\n");
        },
        None => {},
    }
    push_wrapped(v, "        <dc:subject>", "</dc:subject>\n", &package.metadata.subject);
    push_str(v, "    </metadata>\n");
    assert(v@ =~= start + opf_metadata_part(*package, modified@));
}

fn push_opf_manifest(v: &mut Vec<char>, package: &EpubPackage)
    ensures
        final(v)@ == old(v)@ + opf_manifest_part(*package),
{
    let ghost start = v@;
    push_str(v, "    <manifest>\n");
    let ghost mid = v@;
    let entries = &package.manifest.entries;
    let mut i: usize = 0;
    assert(entries@.take(0) =~= Seq::<(String, ManifestItem)>::empty());
    while i < entries.len()
        invariant
            i <= entries@.len(),
            v@ == mid + manifest_lines(entries@.take(i as int)),
        decreases entries@.len() - i,
    {
        push_str(v, "        <item id=\"");
        push_str(v, entries[i].0.as_str());
        push_str(v, "\" href=\"");
        push_str(v, entries[i].1.href.as_str());
        push_str(v, "\" media-type=\"");
        push_str(v, entries[i].1.media_type.as_str());
        push_str(v, "\"/>\n");
        assert(entries@.take(i + 1).drop_last() =~= entries@.take(i as int));
        assert(v@ =~= mid + manifest_lines(entries@.take(i + 1)));
        i += 1;
    }
    assert(entries@.take(i as int) =~= entries@);
    push_str(v, "        <item id=\"ncx\" href=\"toc.ncx\" media-type=\"application/x-dtbncx+xml\"/>\n");
    push_str(v, "        <item id=\"nav\" href=\"nav.xhtml\" media-type=\"application/xhtml+xml\" properties=\"nav\"/>\n");
    push_str(v, "    </manifest>\n");
    assert(v@ =~= start + opf_manifest_part(*package));
}

fn push_opf_spine(v: &mut Vec<char>, package: &EpubPackage)
    ensures
        final(v)@ == old(v)@ + opf_spine_part(*package),
{
    let ghost start = v@;
    push_str(v, "    <spine toc=\"ncx\">\n");
    let ghost mid2 = v@;
    let mut j: usize = 0;
    assert(spine_refs(package.spine@).take(0) =~= Seq::<Seq<char>>::empty());
    while j < package.spine.len()
        invariant
            j <= package.spine@.len(),
            v@ == mid2 + wrapped_lines("        <itemref idref=\""@, "\"/>\n"@, spine_refs(package.spine@).take(j as int)),
        decreases package.spine@.len() - j,
    {
        push_str(v, "        <itemref idref=\"");
        push_str(v, package.spine[j].idref.as_str());
        push_str(v, "\"/>\n");
        assert(spine_refs(package.spine@).take(j + 1).drop_last() =~= spine_refs(package.spine@).take(j as int));
        assert(v@ =~= mid2 + wrapped_lines("        <itemref idref=\""@, "\"/>\n"@, spine_refs(package.spine@).take(j + 1)));
        j += 1;
    }
    assert(spine_refs(package.spine@).take(j as int) =~= spine_refs(package.spine@));
    push_str(v, "    </spine>\n");
    push_str(v, "</package>");
    assert(v@ =~= start + opf_spine_part(*package));
}

/// The package file of a book, modified at a given time.
pub fn content_opf_at(package: &EpubPackage, modified: DateTimeUtc) -> (r: String)
    ensures
        r@ == content_opf_text(*package, crate::timeutil::spec_datetime_format(modified.secs, modified.nanos, "%Y-%m-%dT%H:%M:%SZ"@)),
{
    let m = crate::timeutil::format_datetime(modified, "%Y-%m-%dT%H:%M:%SZ");
    let mut v: Vec<char> = Vec::new();
    push_opf_metadata(&mut v, package, m.as_str());
    push_opf_manifest(&mut v, package);
    push_opf_spine(&mut v, package);
    assert(v@ =~= content_opf_text(*package, m@));
    string_from_chars(&v)
}

/// The package file of a book, modified now.
pub fn generate_content_opf(package: &EpubPackage) -> (r: String)
    ensures
        exists|t: DateTimeUtc| r@ == content_opf_text(*package, crate::timeutil::spec_datetime_format(t.secs, t.nanos, "%Y-%m-%dT%H:%M:%SZ"@)),
{
    let now = crate::timeutil::utc_now();
    content_opf_at(package, now)
}

/// The navigation point lines of the table of contents file.
pub open spec fn ncx_points(points: Seq<NavPoint>) -> Seq<char>
    decreases points.len(),
{
    if points.len() == 0 {
        Seq::empty()
    } else {
        let i = points.len() - 1;
        ncx_points(points.drop_last()) + "        <navPoint id=\"navpoint-"@ + decimal_seq((i + 1) as nat)
            + "\" playOrder=\""@ + decimal_seq((i + 1) as nat) + "\">\n            <navLabel><text>"@
            + points.last().text@ + "</text></navLabel>\n            <content src=\""@ + points.last().content_src@
            + "\"/>\n        </navPoint>\n"@
    }
}

/// The table of contents file (for ePub 2 readers) of a book: the package's
/// identifier and title, and a point for each of the navigation's own points.
pub open spec fn toc_ncx_text(nav: EpubNavigation, p: EpubPackage) -> Seq<char> {
    "<?xml version=\"1.0\" encoding=\"UTF-8\"?>\n<ncx xmlns=\"http://www.daisy.org/z3986/2005/ncx/\" version=\"2005-1\">\n    <head>\n        <meta content=\""@ + p.metadata.identifier@ + "\" name=\"dtb:uid\"/>\n        <meta content=\"2\" name=\"dtb:depth\"/>\n        <meta content=\"0\" name=\"dtb:totalPageCount\"/>\n        <meta content=\"0\" name=\"dtb:maxPageNumber\"/>\n    </head>\n    <docTitle>\n        <text>"@ + p.metadata.title@ + "</text>\n    </docTitle>\n    <navMap>\n"@
        + ncx_points(nav.nav_points@) + "    </navMap>\n</ncx>"@
}

/// The table of contents file of a book.
pub fn generate_toc_ncx(navigation: &EpubNavigation, package: &EpubPackage) -> (r: String)
    ensures
        r@ == toc_ncx_text(*navigation, *package),
{
    let mut v = chars_of("<?xml version=\"1.0\" encoding=\"UTF-8\"?>\n<ncx xmlns=\"http://www.daisy.org/z3986/2005/ncx/\" version=\"2005-1\">\n    <head>\n        <meta content=\"");
    push_str(&mut v, package.metadata.identifier.as_str());
    push_str(&mut v, "\" name=\"dtb:uid\"/>\n        <meta content=\"2\" name=\"dtb:depth\"/>\n        <meta content=\"0\" name=\"dtb:totalPageCount\"/>\n        <meta content=\"0\" name=\"dtb:maxPageNumber\"/>\n    </head>\n    <docTitle>\n        <text>");
    push_str(&mut v, package.metadata.title.as_str());
    push_str(&mut v, "</text>\n    </docTitle>\n    <navMap>\n");
    let ghost mid = v@;
    let points = &navigation.nav_points;
    let mut i: usize = 0;
    assert(points@.take(0) =~= Seq::<NavPoint>::empty());
    while i < points.len()
        invariant
            i <= points@.len(),
            v@ == mid + ncx_points(points@.take(i as int)),
        decreases points@.len() - i,
    {
        push_str(&mut v, "        <navPoint id=\"navpoint-");
        push_decimal(&mut v, (i as u64) + 1);
        push_str(&mut v, "\" playOrder=\"");
        push_decimal(&mut v, (i as u64) + 1);
        push_str(&mut v, "\">\n            <navLabel><text>");
        push_str(&mut v, points[i].text.as_str());
        push_str(&mut v, "</text></navLabel>\n            <content src=\"");
        push_str(&mut v, points[i].content_src.as_str());
        push_str(&mut v, "\"/>\n        </navPoint>\n");
        assert(points@.take(i + 1).drop_last() =~= points@.take(i as int));
        assert(v@ =~= mid + ncx_points(points@.take(i + 1)));
        i += 1;
    }
    assert(points@.take(i as int) =~= points@);
    push_str(&mut v, "    </navMap>\n</ncx>");
    string_from_chars(&v)
}

/// The list entries of the navigation document.
pub open spec fn nav_entries(points: Seq<NavPoint>) -> Seq<char>
    decreases points.len(),
{
    if points.len() == 0 {
        Seq::empty()
    } else {
        nav_entries(points.drop_last()) + "            <li><a href=\""@ + points.last().content_src@ + "\">"@
            + points.last().text@ + "</a></li>\n"@
    }
}

/// The navigation document (for ePub 3 readers): a list entry for each of
/// the navigation's own points.
pub open spec fn nav_xhtml_text(nav: EpubNavigation) -> Seq<char> {
    "<?xml version=\"1.0\" encoding=\"utf-8\"?>\n<!DOCTYPE html>\n<html xmlns=\"http://www.w3.org/1999/xhtml\" xmlns:epub=\"http://www.idpf.org/2007/ops\">\n<head>\n    <title>Table of Contents</title>\n    <style type=\"text/css\">\n        ol { counter-reset: item; padding-left: 0; }\n        li { display: block; margin-bottom: .5em; }\n        li ol { margin-top: .5em; padding-left: 1.5em; }\n    </style>\n</head>\n<body>\n    <nav epub:type=\"toc\">\n        <h1>Table of Contents</h1>\n        <ol>\n"@ + nav_entries(nav.nav_points@) + "        </ol>\n    </nav>\n</body>\n</html>"@
}

/// The navigation document of a book.
pub fn generate_nav_xhtml(navigation: &EpubNavigation) -> (r: String)
    ensures
        r@ == nav_xhtml_text(*navigation),
{
    let mut v = chars_of("<?xml version=\"1.0\" encoding=\"utf-8\"?>\n<!DOCTYPE html>\n<html xmlns=\"http://www.w3.org/1999/xhtml\" xmlns:epub=\"http://www.idpf.org/2007/ops\">\n<head>\n    <title>Table of Contents</title>\n    <style type=\"text/css\">\n        ol { counter-reset: item; padding-left: 0; }\n        li { display: block; margin-bottom: .5em; }\n        li ol { margin-top: .5em; padding-left: 1.5em; }\n    </style>\n</head>\n<body>\n    <nav epub:type=\"toc\">\n        <h1>Table of Contents</h1>\n        <ol>\n");
    let ghost mid = v@;
    let points = &navigation.nav_points;
    let mut i: usize = 0;
    assert(points@.take(0) =~= Seq::<NavPoint>::empty());
    while i < points.len()
        invariant
            i <= points@.len(),
            v@ == mid + nav_entries(points@.take(i as int)),
        decreases points@.len() - i,
    {
        push_str(&mut v, "            <li><a href=\"");
        push_str(&mut v, points[i].content_src.as_str());
        push_str(&mut v, "\">");
        push_str(&mut v, points[i].text.as_str());
        push_str(&mut v, "</a></li>\n");
        assert(points@.take(i + 1).drop_last() =~= points@.take(i as int));
        assert(v@ =~= mid + nav_entries(points@.take(i + 1)));
        i += 1;
    }
    assert(points@.take(i as int) =~= points@);
    push_str(&mut v, "        </ol>\n    </nav>\n</body>\n</html>");
    string_from_chars(&v)
}

proof fn lemma_nav_entries_prefix(points: Seq<NavPoint>, m: int, n: int)
    requires
        0 <= m <= n <= points.len(),
    ensures
        nav_entries(points.take(m)).is_prefix_of(nav_entries(points.take(n))),
    decreases n - m,
{
    if m < n {
        lemma_nav_entries_prefix(points, m, n - 1);
        assert(points.take(n).drop_last() =~= points.take(n - 1));
        let a = nav_entries(points.take(m));
        let b = nav_entries(points.take(n - 1));
        let c = nav_entries(points.take(n));
        assert(c.subrange(0, b.len() as int) =~= b);
        assert(c.subrange(0, a.len() as int) =~= b.subrange(0, a.len() as int));
    } else {
        assert(nav_entries(points.take(m)).is_prefix_of(nav_entries(points.take(n))));
    }
}

/// The navigation document links each navigation point: it holds a list
/// entry whose link goes to the point's content and shows the point's text.
pub proof fn law_nav_links_point_to_content(nav: EpubNavigation, i: int)
    requires
        0 <= i < nav.nav_points@.len(),
    ensures
        contains_seq(
            nav_xhtml_text(nav),
            "<li><a href=\""@ + nav.nav_points@[i].content_src@ + "\">"@ + nav.nav_points@[i].text@ + "</a></li>"@,
        ),
{
    let points = nav.nav_points@;
    let p = points[i];
    let link = "<li><a href=\""@ + p.content_src@ + "\">"@ + p.text@ + "</a></li>"@;
    reveal_strlit("            <li><a href=\"");
    reveal_strlit("<li><a href=\"");
    reveal_strlit("</a></li>\n");
    reveal_strlit("</a></li>");
    reveal_strlit("\">");
    let before = nav_entries(points.take(i));
    assert(points.take(i + 1).drop_last() =~= points.take(i));
    assert(points.take(i + 1).last() == p);
    let upto = nav_entries(points.take(i + 1));
    assert(upto == before + "            <li><a href=\""@ + p.content_src@ + "\">"@ + p.text@ + "</a></li>\n"@);
    let off: int = before.len() as int + 12;
    let ll: int = link.len() as int;
    assert(upto.subrange(off, off + ll) =~= link);
    lemma_nav_entries_prefix(points, i + 1, points.len() as int);
    assert(points.take(points.len() as int) =~= points);
    let all = nav_entries(points);
    assert(all.subrange(off, off + ll) =~= upto.subrange(off, off + ll));
    let doc = nav_xhtml_text(nav);
    let head = "<?xml version=\"1.0\" encoding=\"utf-8\"?>\n<!DOCTYPE html>\n<html xmlns=\"http://www.w3.org/1999/xhtml\" xmlns:epub=\"http://www.idpf.org/2007/ops\">\n<head>\n    <title>Table of Contents</title>\n    <style type=\"text/css\">\n        ol { counter-reset: item; padding-left: 0; }\n        li { display: block; margin-bottom: .5em; }\n        li ol { margin-top: .5em; padding-left: 1.5em; }\n    </style>\n</head>\n<body>\n    <nav epub:type=\"toc\">\n        <h1>Table of Contents</h1>\n        <ol>\n"@;
    let tail = "        </ol>\n    </nav>\n</body>\n</html>"@;
    assert(doc == head + all + tail);
    let h: int = head.len() as int;
    assert(doc.subrange(h + off, h + off + ll) =~= all.subrange(off, off + ll));
    assert(occurs_at(doc, link, h + off));
}

/// The document of chapter `i` (counted from one in the text): a page
/// titled by the chapter's number with a placeholder paragraph.
pub open spec fn chapter_xhtml_text(i: int) -> Seq<char> {
    "<?xml version=\"1.0\" encoding=\"utf-8\"?>\n<!DOCTYPE html>\n<html xmlns=\"http://www.w3.org/1999/xhtml\">\n<head>\n    <title>Chapter "@ + decimal_seq((i + 1) as nat) + "</title>\n    <link rel=\"stylesheet\" type=\"text/css\" href=\"../styles/main.css\"/>\n</head>\n<body>\n    <h1>Chapter "@ + decimal_seq((i + 1) as nat)
        + "</h1>\n    <p>This is a generated chapter "@ + decimal_seq((i + 1) as nat) + " content would go here.</p>\n</body>\n</html>"@
}

/// The document of the chapter at a spine position.
pub fn chapter_xhtml(index: usize) -> (r: String)
    requires
        index < u64::MAX,
    ensures
        r@ == chapter_xhtml_text(index as int),
{
    let n = (index as u64) + 1;
    let mut v = chars_of("<?xml version=\"1.0\" encoding=\"utf-8\"?>\n<!DOCTYPE html>\n<html xmlns=\"http://www.w3.org/1999/xhtml\">\n<head>\n    <title>Chapter ");
    push_decimal(&mut v, n);
    push_str(&mut v, "</title>\n    <link rel=\"stylesheet\" type=\"text/css\" href=\"../styles/main.css\"/>\n</head>\n<body>\n    <h1>Chapter ");
    push_decimal(&mut v, n);
    push_str(&mut v, "</h1>\n    <p>This is a generated chapter ");
    push_decimal(&mut v, n);
    push_str(&mut v, " content would go here.</p>\n</body>\n</html>");
    string_from_chars(&v)
}

/// The file name of the chapter at a spine position.
pub fn chapter_file_name(index: usize) -> (r: String)
    requires
        index < u64::MAX,
    ensures
        r@ == "chapter_"@ + decimal_seq((index + 1) as nat) + ".xhtml"@,
{
    let mut v = chars_of("chapter_");
    push_decimal(&mut v, (index as u64) + 1);
    push_str(&mut v, ".xhtml");
    string_from_chars(&v)
}

/// The extension of a path in lower case (empty where it has none).
pub open spec fn lower_extension(path: Seq<char>) -> Seq<char> {
    spec_to_lowercase(match spec_path_extension(path) {
        Some(e) => e,
        None => Seq::empty(),
    })
}

fn lower_extension_of(path: &str) -> (r: String)
    ensures
        r@ == lower_extension(path@),
{
    let e = match path_extension(path) {
        Some(e) => e,
        None => String::new(),
    };
    proof {
        reveal_strlit("");
    }
    to_lowercase(e.as_str())
}

/// The media type for a lower-case file extension.
pub open spec fn media_type_for(ext: Seq<char>) -> Seq<char> {
    if ext == "jpg"@ || ext == "jpeg"@ { "image/jpeg"@ }
    else if ext == "png"@ { "image/png"@ }
    else if ext == "gif"@ { "image/gif"@ }
    else if ext == "svg"@ { "image/svg+xml"@ }
    else if ext == "ttf"@ { "font/ttf"@ }
    else if ext == "otf"@ { "font/otf"@ }
    else if ext == "woff"@ { "font/woff"@ }
    else if ext == "woff2"@ { "font/woff2"@ }
    else if ext == "css"@ { "text/css"@ }
    else if ext == "js"@ { "application/javascript"@ }
    else { "application/octet-stream"@ }
}

/// The media type of a file, by its extension in any letter case.
pub fn determine_media_type(path: &str) -> (r: String)
    ensures
        r@ == media_type_for(lower_extension(path@)),
{
    let e = lower_extension_of(path);
    let s = e.as_str();
    let m = if str_eq(s, "jpg") || str_eq(s, "jpeg") { "image/jpeg" }
        else if str_eq(s, "png") { "image/png" }
        else if str_eq(s, "gif") { "image/gif" }
        else if str_eq(s, "svg") { "image/svg+xml" }
        else if str_eq(s, "ttf") { "font/ttf" }
        else if str_eq(s, "otf") { "font/otf" }
        else if str_eq(s, "woff") { "font/woff" }
        else if str_eq(s, "woff2") { "font/woff2" }
        else if str_eq(s, "css") { "text/css" }
        else if str_eq(s, "js") { "application/javascript" }
        else { "application/octet-stream" };
    m.to_string()
}

/// The kind of asset for a lower-case file extension (an image where the
/// extension is not known).
pub open spec fn asset_type_for(ext: Seq<char>) -> AssetType {
    if ext == "jpg"@ || ext == "jpeg"@ || ext == "png"@ || ext == "gif"@ || ext == "svg"@ { AssetType::Image }
    else if ext == "ttf"@ || ext == "otf"@ || ext == "woff"@ || ext == "woff2"@ { AssetType::Font }
    else if ext == "mp3"@ || ext == "m4a"@ || ext == "aac"@ { AssetType::Audio }
    else if ext == "mp4"@ || ext == "m4v"@ || ext == "mov"@ { AssetType::Video }
    else if ext == "css"@ { AssetType::Stylesheet }
    else if ext == "js"@ { AssetType::Script }
    else { AssetType::Image }
}

/// The kind of asset of a file, by its extension in any letter case.
pub fn determine_asset_type(path: &str) -> (r: AssetType)
    ensures
        r == asset_type_for(lower_extension(path@)),
{
    let e = lower_extension_of(path);
    let s = e.as_str();
    if str_eq(s, "jpg") || str_eq(s, "jpeg") || str_eq(s, "png") || str_eq(s, "gif") || str_eq(s, "svg") { AssetType::Image }
    else if str_eq(s, "ttf") || str_eq(s, "otf") || str_eq(s, "woff") || str_eq(s, "woff2") { AssetType::Font }
    else if str_eq(s, "mp3") || str_eq(s, "m4a") || str_eq(s, "aac") { AssetType::Audio }
    else if str_eq(s, "mp4") || str_eq(s, "m4v") || str_eq(s, "mov") { AssetType::Video }
    else if str_eq(s, "css") { AssetType::Stylesheet }
    else if str_eq(s, "js") { AssetType::Script }
    else { AssetType::Image }
}

/// A name for the digest that `std`'s `DefaultHasher` (made by `new`, with
/// its fixed keys) gives for a byte slice after `Hash::hash` and `finish`.
/// std does not promise the digest across releases, so the name is fixed for
/// one build.
pub uninterp spec fn spec_default_hash(data: Seq<u8>) -> u64;

/// The `DefaultHasher` digest of a byte slice. The hash function is std's
/// and is not restated; the digest is named by `spec_default_hash`.
#[verifier::external_body]
fn default_hash(data: &[u8]) -> (r: u64)
    ensures
        r == spec_default_hash(data@),
{
    let mut hasher = std::collections::hash_map::DefaultHasher::new();
    std::hash::Hash::hash(data, &mut hasher);
    std::hash::Hasher::finish(&hasher)
}

/// A number in lower-case hexadecimal without leading zeros, as `{:x}` prints it.
pub open spec fn hex_seq(n: nat) -> Seq<char>
    decreases n,
{
    if n < 16 {
        seq![hex_digit(n)]
    } else {
        hex_seq(n / 16).push(hex_digit(n % 16))
    }
}

fn push_hex(out: &mut Vec<char>, n: u64)
    ensures
        final(out)@ == old(out)@ + hex_seq(n as nat),
    decreases n,
{
    if n >= 16 {
        push_hex(out, n / 16);
    }
    out.push(hex_digit_of((n % 16) as u8));
    assert(final(out)@ =~= old(out)@ + hex_seq(n as nat));
}

/// The checksum of an asset's data: its `DefaultHasher` digest in hexadecimal.
pub fn calculate_checksum(data: &[u8]) -> (r: String)
    ensures
        r@ == hex_seq(spec_default_hash(data@) as nat),
{
    let h = default_hash(data);
    let mut v: Vec<char> = Vec::new();
    push_hex(&mut v, h);
    assert(v@ =~= hex_seq(h as nat));
    string_from_chars(&v)
}

/// An asset read from a file: its identifier and path, its kind and media
/// type by the path's extension, its data, size and checksum.
pub fn asset_from_file(asset_id: String, file_path: String, processed_data: Vec<u8>, size_bytes: u64) -> (a: AssetData)
    ensures
        a.asset_id == asset_id,
        a.file_path == file_path,
        a.asset_type == asset_type_for(lower_extension(file_path@)),
        a.processed_data@ == processed_data@,
        a.media_type@ == media_type_for(lower_extension(file_path@)),
        a.size_bytes == size_bytes,
        a.checksum@ == hex_seq(spec_default_hash(processed_data@) as nat),
{
    let media_type = determine_media_type(file_path.as_str());
    let asset_type = determine_asset_type(file_path.as_str());
    let checksum = calculate_checksum(processed_data.as_slice());
    AssetData { asset_id, file_path, asset_type, processed_data, media_type, size_bytes, checksum }
}

/// The sources of the images among the chapters' content, in order.
pub open spec fn image_sources_of(contents: Seq<EpubContent>) -> Seq<Seq<char>>
    decreases contents.len(),
{
    if contents.len() == 0 {
        Seq::empty()
    } else {
        let p = image_sources_of(contents.drop_last());
        match contents.last() {
            EpubContent::Image { src, .. } => p.push(src@),
            _ => p,
        }
    }
}

/// The image sources of each chapter's content, chapter by chapter.
pub open spec fn chapters_image_sources(chapters: Seq<EpubChapter>) -> Seq<Seq<char>>
    decreases chapters.len(),
{
    if chapters.len() == 0 {
        Seq::empty()
    } else {
        chapters_image_sources(chapters.drop_last()) + image_sources_of(chapters.last().content@)
    }
}

/// The images that the book's assets are made from, in reading order.
pub fn image_sources(chapters: &Vec<EpubChapter>) -> (r: Vec<String>)
    ensures
        string_views(r@) == chapters_image_sources(chapters@),
{
    let mut r: Vec<String> = Vec::new();
    let mut c: usize = 0;
    assert(chapters@.take(0) =~= Seq::<EpubChapter>::empty());
    while c < chapters.len()
        invariant
            c <= chapters@.len(),
            string_views(r@) == chapters_image_sources(chapters@.take(c as int)),
        decreases chapters@.len() - c,
    {
        let content = &chapters[c].content;
        let ghost base = string_views(r@);
        let mut j: usize = 0;
        assert(content@.take(0) =~= Seq::<EpubContent>::empty());
        while j < content.len()
            invariant
                j <= content@.len(),
                string_views(r@) == base + image_sources_of(content@.take(j as int)),
            decreases content@.len() - j,
        {
            let ghost before = string_views(r@);
            assert(content@.take(j + 1).drop_last() =~= content@.take(j as int));
            match &content[j] {
                EpubContent::Image { src, .. } => {
                    r.push(src.clone());
                    assert(string_views(r@) =~= before.push(src@));
                },
                _ => {},
            }
            assert(string_views(r@) =~= base + image_sources_of(content@.take(j + 1)));
            j += 1;
        }
        assert(content@.take(j as int) =~= content@);
        assert(chapters@.take(c + 1).drop_last() =~= chapters@.take(c as int));
        c += 1;
    }
    assert(chapters@.take(c as int) =~= chapters@);
    r
}

/// Validation severity.
#[derive(Debug, Clone, Copy, PartialEq, Eq, Structural)]
pub enum ValidationSeverity {
    Error,
    Warning,
    Info,
}

/// Validation rule.
#[derive(Debug, Clone)]
pub struct ValidationRule {
    pub rule_id: String,
    pub description: String,
    pub severity: ValidationSeverity,
    pub check_function: String,
}

/// Field types.
#[derive(Debug, Clone, Copy, PartialEq, Eq, Structural)]
pub enum FieldType {
    String,
    Date,
    Identifier,
    URI,
    Language,
    Integer,
    Float,
}

/// Field constraint.
#[derive(Debug, Clone)]
pub struct FieldConstraint {
    pub field_type: FieldType,
    pub min_length: Option<usize>,
    pub max_length: Option<usize>,
    pub pattern: Option<String>,
    pub required: bool,
}

/// Validation schema.
#[derive(Debug, Clone)]
pub struct ValidationSchema {
    pub required_fields: Vec<String>,
    pub optional_fields: Vec<String>,
    pub field_constraints: StrMap<FieldConstraint>,
}

/// Checks the metadata of a book: the rules it must pass and the fields that
/// each ePub version requires.
#[derive(Debug, Clone)]
pub struct MetadataValidator {
    pub validation_rules: Vec<ValidationRule>,
    pub schemas: Vec<(EpubVersion, ValidationSchema)>,
}

/// What a validation rule says: its identifier, description, severity and check.
pub open spec fn rule_view(r: ValidationRule) -> (Seq<char>, Seq<char>, ValidationSeverity, Seq<char>) {
    (r.rule_id@, r.description@, r.severity, r.check_function@)
}

/// The rules a book's metadata must pass: a title and a well-formed identifier.
pub open spec fn default_rules() -> Seq<(Seq<char>, Seq<char>, ValidationSeverity, Seq<char>)> {
    seq![
        ("title_required"@, "Title field is required"@, ValidationSeverity::Error, "check_title_presence"@),
        ("identifier_format"@, "Identifier must be properly formatted"@, ValidationSeverity::Error, "check_identifier_format"@)
    ]
}

/// The required and optional fields of each ePub version: both require an
/// identifier, a title and a language; ePub 3 also allows a subject.
pub open spec fn schema_fields(v: EpubVersion) -> (Seq<Seq<char>>, Seq<Seq<char>>) {
    match v {
        EpubVersion::V2 => (seq!["identifier"@, "title"@, "language"@], seq!["creator"@, "publisher"@, "rights"@]),
        EpubVersion::V3 => (seq!["identifier"@, "title"@, "language"@], seq!["creator"@, "publisher"@, "rights"@, "subject"@]),
    }
}

/// `s` is the schema of version `v`, without field constraints.
pub open spec fn schema_holds(s: ValidationSchema, v: EpubVersion) -> bool {
    &&& string_views(s.required_fields@) == schema_fields(v).0
    &&& string_views(s.optional_fields@) == schema_fields(v).1
    &&& s.field_constraints.wf()
    &&& s.field_constraints.entries@.len() == 0
}

fn strings3(a: &str, b: &str, c: &str) -> (r: Vec<String>)
    ensures
        string_views(r@) == seq![a@, b@, c@],
{
    let mut r: Vec<String> = Vec::new();
    r.push(a.to_string());
    r.push(b.to_string());
    r.push(c.to_string());
    assert(string_views(r@) =~= seq![a@, b@, c@]);
    r
}

impl MetadataValidator {
    /// A validator with the default rules and the schemas of both versions.
    pub fn new() -> (m: Self)
        ensures
            m.validation_rules@.map_values(|r: ValidationRule| rule_view(r)) == default_rules(),
            m.schemas@.len() == 2,
            m.schemas@[0].0 == EpubVersion::V2 && schema_holds(m.schemas@[0].1, EpubVersion::V2),
            m.schemas@[1].0 == EpubVersion::V3 && schema_holds(m.schemas@[1].1, EpubVersion::V3),
    {
        MetadataValidator {
            validation_rules: Self::initialize_validation_rules(),
            schemas: Self::initialize_schemas(),
        }
    }

    /// The default validation rules.
    pub fn initialize_validation_rules() -> (r: Vec<ValidationRule>)
        ensures
            r@.map_values(|x: ValidationRule| rule_view(x)) == default_rules(),
    {
        let mut r: Vec<ValidationRule> = Vec::new();
        r.push(ValidationRule {
            rule_id: "title_required".to_string(),
            description: "Title field is required".to_string(),
            severity: ValidationSeverity::Error,
            check_function: "check_title_presence".to_string(),
        });
        r.push(ValidationRule {
            rule_id: "identifier_format".to_string(),
            description: "Identifier must be properly formatted".to_string(),
            severity: ValidationSeverity::Error,
            check_function: "check_identifier_format".to_string(),
        });
        assert(r@.map_values(|x: ValidationRule| rule_view(x)) =~= default_rules());
        r
    }

    /// The schemas of ePub 2 and ePub 3, in that order.
    pub fn initialize_schemas() -> (r: Vec<(EpubVersion, ValidationSchema)>)
        ensures
            r@.len() == 2,
            r@[0].0 == EpubVersion::V2 && schema_holds(r@[0].1, EpubVersion::V2),
            r@[1].0 == EpubVersion::V3 && schema_holds(r@[1].1, EpubVersion::V3),
    {
        let mut r: Vec<(EpubVersion, ValidationSchema)> = Vec::new();
        r.push((EpubVersion::V2, ValidationSchema {
            required_fields: strings3("identifier", "title", "language"),
            optional_fields: strings3("creator", "publisher", "rights"),
            field_constraints: StrMap::new(),
        }));
        let mut optional3 = strings3("creator", "publisher", "rights");
        let ghost o3 = string_views(optional3@);
        optional3.push("subject".to_string());
        assert(string_views(optional3@) =~= o3.push("subject"@));
        assert(string_views(optional3@) =~= schema_fields(EpubVersion::V3).1);
        r.push((EpubVersion::V3, ValidationSchema {
            required_fields: strings3("identifier", "title", "language"),
            optional_fields: optional3,
            field_constraints: StrMap::new(),
        }));
        r
    }

    /// Checks that a book's metadata has a title, an identifier and a
    /// language (each not blank), in that order; the first missing one is a
    /// validation error.
    pub fn validate_metadata(&self, metadata: &EpubMetadata) -> (r: Result<(), AppError>)
        ensures
            match r {
                Ok(()) => !all_whitespace(metadata.title@) && !all_whitespace(metadata.identifier@)
                    && !all_whitespace(metadata.language@),
                Err(e) => e is ValidationError && (
                    (all_whitespace(metadata.title@) && e->ValidationError_0@ == "Title is required"@)
                    || (!all_whitespace(metadata.title@) && all_whitespace(metadata.identifier@)
                        && e->ValidationError_0@ == "Identifier is required"@)
                    || (!all_whitespace(metadata.title@) && !all_whitespace(metadata.identifier@)
                        && all_whitespace(metadata.language@) && e->ValidationError_0@ == "Language is required"@)),
            },
    {
        if is_blank(&chars_of(metadata.title.as_str())) {
            return Err(AppError::ValidationError("Title is required".to_string()));
        }
        if is_blank(&chars_of(metadata.identifier.as_str())) {
            return Err(AppError::ValidationError("Identifier is required".to_string()));
        }
        if is_blank(&chars_of(metadata.language.as_str())) {
            return Err(AppError::ValidationError("Language is required".to_string()));
        }
        Ok(())
    }
}

} // verus!
