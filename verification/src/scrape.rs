//! The content source: articles, and how the pages of the site are read for
//! them.

use crate::util::{element_to_text, joined, line_views, same_text};
use vstd::string::StringSliceAdditionalSpecFns;
use scraper::{ElementRef, Html, Selector};
use vstd::prelude::*;

verus! {

/// One entry of the browsable list.
#[derive(Debug)]
pub struct Article {
    /// The headline.
    pub title: String,
    /// Where the body of the article is fetched from.
    pub href: String,
    /// When the article appeared, as the source prints it.
    pub datetime: String,
}

/// The mathematical model of an [`Article`]: its three texts.
pub struct ArticleView {
    pub title: Seq<char>,
    pub href: Seq<char>,
    pub datetime: Seq<char>,
}

impl View for Article {
    type V = ArticleView;

    open spec fn view(&self) -> ArticleView {
        ArticleView { title: self.title@, href: self.href@, datetime: self.datetime@ }
    }
}

impl Clone for Article {
    fn clone(&self) -> (copy: Article)
        ensures
            copy@ == self@,
    {
        Article {
            title: self.title.clone(),
            href: self.href.clone(),
            datetime: self.datetime.clone(),
        }
    }
}

/// The models of a sequence of articles, in order.
pub open spec fn article_views(articles: Seq<Article>) -> Seq<ArticleView> {
    Seq::new(articles.len(), |i: int| articles[i]@)
}

/// Why the content source could not deliver.
#[derive(Debug)]
pub enum FetchError {
    /// The site has no such category.
    UnknownCategory,
    /// A selector was refused, so the page could not be read.
    BadSelector,
    /// The page is longer than the reader of pages takes.
    PageTooLarge,
    /// The page could not be fetched; the text says why.
    Failed(String),
}

/// The mathematical model of a [`FetchError`].
pub enum FetchErrorView {
    UnknownCategory,
    BadSelector,
    PageTooLarge,
    Failed(Seq<char>),
}

impl View for FetchError {
    type V = FetchErrorView;

    open spec fn view(&self) -> FetchErrorView {
        match self {
            FetchError::UnknownCategory => FetchErrorView::UnknownCategory,
            FetchError::BadSelector => FetchErrorView::BadSelector,
            FetchError::PageTooLarge => FetchErrorView::PageTooLarge,
            FetchError::Failed(reason) => FetchErrorView::Failed(reason@),
        }
    }
}

/// What is reported for a category that the site does not have.
pub const UNKNOWN_CATEGORY: &'static str = "The given category is not a valid option!";

/// What is reported when a page could not be read.
pub const BAD_SELECTOR: &'static str = "The page could not be searched.";

/// What is reported for a page that is too long.
pub const PAGE_TOO_LARGE: &'static str = "The page is too large to be read.";

/// The most bytes of a page that is handed to the reader of pages.
///
/// The reader keeps texts in buffers that count their bytes in 32 bits and
/// grow to the next power of two, and it may write three bytes where the page
/// holds one.
pub const MAX_PAGE_BYTES: usize = 0x2000_0000;

impl FetchErrorView {
    /// What the user is told.
    pub open spec fn message(self) -> Seq<char> {
        match self {
            FetchErrorView::UnknownCategory => UNKNOWN_CATEGORY@,
            FetchErrorView::BadSelector => BAD_SELECTOR@,
            FetchErrorView::PageTooLarge => PAGE_TOO_LARGE@,
            FetchErrorView::Failed(reason) => reason,
        }
    }
}

impl FetchError {
    /// What the user is told.
    pub fn message(&self) -> (text: String)
        ensures
            text@ == self@.message(),
    {
        match self {
            FetchError::UnknownCategory => String::from_str(UNKNOWN_CATEGORY),
            FetchError::BadSelector => String::from_str(BAD_SELECTOR),
            FetchError::PageTooLarge => String::from_str(PAGE_TOO_LARGE),
            FetchError::Failed(reason) => reason.clone(),
        }
    }
}

/// Selects the heading of a page.
pub const HEADING_SELECTOR: &'static str = "h1";

/// Selects the entries of a list page.
pub const ENTRY_SELECTOR: &'static str = "section > ul > li";

/// Selects the title inside an entry.
pub const TITLE_SELECTOR: &'static str = "h2";

/// Selects the link inside an entry.
pub const LINK_SELECTOR: &'static str = "a";

/// The attribute of a link that holds its target.
pub const LINK_ATTRIBUTE: &'static str = "href";

/// Selects the timestamp inside an entry.
pub const DATETIME_SELECTOR: &'static str = "span > time";

/// Selects the paragraphs and subheadings of an article page.
pub const BODY_SELECTOR: &'static str = "main > div > p, main > div > h2";

/// The heading of the page that the site serves for a category it does not
/// have.
pub const NOT_FOUND_HEADING: &'static str = "De pagina kan helaas niet worden gevonden";

/// What links of the site are relative to.
pub const SITE_URL: &'static str = "https://nos.nl";

/// What a list page holds inside one entry: every title, link and timestamp
/// that was found there, in the order of the page.
#[derive(Debug)]
pub struct ListedEntry {
    /// The text nodes of each title.
    pub titles: Vec<Vec<String>>,
    /// The target of each link, `None` for a link without one.
    pub links: Vec<Option<String>>,
    /// The text nodes of each timestamp.
    pub datetimes: Vec<Vec<String>>,
}

/// The mathematical model of a [`ListedEntry`].
pub struct ListedEntryView {
    pub titles: Seq<Seq<Seq<char>>>,
    pub links: Seq<Option<Seq<char>>>,
    pub datetimes: Seq<Seq<Seq<char>>>,
}

/// The model of a text that may be missing.
pub open spec fn text_view(text: Option<String>) -> Option<Seq<char>> {
    match text {
        Some(text) => Some(text@),
        None => None,
    }
}

/// The models of the text nodes of a sequence of elements, in order.
pub open spec fn node_views(elements: Seq<Vec<String>>) -> Seq<Seq<Seq<char>>> {
    Seq::new(elements.len(), |i: int| line_views(elements[i]@))
}

/// The models of a sequence of texts that may be missing, in order.
pub open spec fn text_views(texts: Seq<Option<String>>) -> Seq<Option<Seq<char>>> {
    Seq::new(texts.len(), |i: int| text_view(texts[i]))
}

impl View for ListedEntry {
    type V = ListedEntryView;

    open spec fn view(&self) -> ListedEntryView {
        ListedEntryView {
            titles: node_views(self.titles@),
            links: text_views(self.links@),
            datetimes: node_views(self.datetimes@),
        }
    }
}

/// The models of a sequence of entries, in order.
pub open spec fn entry_views(entries: Seq<ListedEntry>) -> Seq<ListedEntryView> {
    Seq::new(entries.len(), |i: int| entries[i]@)
}

/// The model of elements that a selector may have failed to give.
pub open spec fn found_texts(texts: Option<Vec<Vec<String>>>) -> Option<Seq<Seq<Seq<char>>>> {
    match texts {
        Some(texts) => Some(node_views(texts@)),
        None => None,
    }
}

/// The model of entries that a selector may have failed to give.
pub open spec fn found_entries(entries: Option<Vec<ListedEntry>>) -> Option<Seq<ListedEntryView>> {
    match entries {
        Some(entries) => Some(entry_views(entries@)),
        None => None,
    }
}

/// Whether a page is short enough for the reader of pages.
pub open spec fn is_readable(page: Seq<char>) -> bool {
    vstd::utf8::encode_utf8(page).len() <= MAX_PAGE_BYTES
}

/// The text nodes of each element of `page` that `selector` selects, as the
/// `scraper` crate finds them: `None` where it refuses the selector.
pub uninterp spec fn selected_texts(page: Seq<char>, selector: Seq<char>) -> Option<
    Seq<Seq<Seq<char>>>,
>;

/// The entries of `page` that `entry` selects, as the `scraper` crate finds
/// them, each with all that `title`, `link` and `datetime` select inside it:
/// `None` where it refuses one of the four selectors.
pub uninterp spec fn selected_entries(
    page: Seq<char>,
    entry: Seq<char>,
    title: Seq<char>,
    link: Seq<char>,
    attribute: Seq<char>,
    datetime: Seq<char>,
) -> Option<Seq<ListedEntryView>>;

/// Parses `page` with `scraper::Html::parse_document` and `selector` with
/// `scraper::Selector::parse`, and hands out, for each element that
/// `Html::select` yields, the text nodes that `ElementRef::text` yields.
///
/// The contract names what comes back and says nothing of its contents. It
/// leaves out the pages that are too long for the buffers of the parser.
#[verifier::external_body]
fn select_texts(page: &str, selector: &str) -> (texts: Option<Vec<Vec<String>>>)
    requires
        page.spec_bytes().len() <= MAX_PAGE_BYTES,
    ensures
        found_texts(texts) == selected_texts(page@, selector@),
{
    let selector = Selector::parse(selector).ok()?;
    let page = Html::parse_document(page);
    Some(page.select(&selector).map(|found| found.text().map(String::from).collect()).collect())
}

/// Parses `page` with `scraper::Html::parse_document` and the four selectors
/// with `scraper::Selector::parse`, and hands out one entry for each element
/// that `Html::select` yields for `entry`. The entry holds, for each element
/// that `ElementRef::select` yields inside it, the text nodes that
/// `ElementRef::text` yields (for `title` and `datetime`) or what
/// `ElementRef::attr` gives for `attribute` (for `link`).
///
/// The contract names what comes back and says nothing of its contents. It
/// leaves out the pages that are too long for the buffers of the parser.
#[verifier::external_body]
fn select_entries(
    page: &str,
    entry: &str,
    title: &str,
    link: &str,
    attribute: &str,
    datetime: &str,
) -> (entries: Option<Vec<ListedEntry>>)
    requires
        page.spec_bytes().len() <= MAX_PAGE_BYTES,
    ensures
        found_entries(entries) == selected_entries(
            page@,
            entry@,
            title@,
            link@,
            attribute@,
            datetime@,
        ),
{
    let parse = |selector| Selector::parse(selector).ok();
    let (entry, title) = (parse(entry)?, parse(title)?);
    let (link, datetime) = (parse(link)?, parse(datetime)?);
    let nodes = |found: ElementRef| found.text().map(String::from).collect();
    let page = Html::parse_document(page);
    let entries = page.select(&entry).map(|item| ListedEntry {
        titles: item.select(&title).map(nodes).collect(),
        links: item.select(&link).map(|found| found.attr(attribute).map(String::from)).collect(),
        datetimes: item.select(&datetime).map(nodes).collect(),
    });
    Some(entries.collect())
}

/// The text of the first of `elements`, empty where there is none.
pub open spec fn first_text(elements: Seq<Seq<Seq<char>>>) -> Seq<char> {
    if elements.len() > 0 {
        joined(elements[0])
    } else {
        Seq::empty()
    }
}

/// The address that the first of `links` leads to: its target made absolute,
/// or nothing where there is no link or the first one has no target.
pub open spec fn first_address(links: Seq<Option<Seq<char>>>) -> Seq<char> {
    if links.len() > 0 && links[0] is Some {
        SITE_URL@ + links[0]->0
    } else {
        Seq::empty()
    }
}

/// The article that an entry of a list page stands for: it has the first
/// title, the first link and the first timestamp of the entry.
pub open spec fn listed_article(entry: ListedEntryView) -> ArticleView {
    ArticleView {
        title: first_text(entry.titles),
        href: first_address(entry.links),
        datetime: first_text(entry.datetimes),
    }
}

/// The articles that the entries of a list page stand for.
pub open spec fn listed_articles(entries: Seq<ListedEntryView>) -> Seq<ArticleView> {
    Seq::new(entries.len(), |i: int| listed_article(entries[i]))
}

/// Whether the first heading of a page is that of the page which the site
/// serves for a category it does not have.
pub open spec fn is_not_found(headings: Seq<Seq<Seq<char>>>) -> bool {
    headings.len() > 0 && joined(headings[0]) == NOT_FOUND_HEADING@
}

/// The articles of a list page, from its headings and its entries.
///
/// Headings or entries that could not be selected are a failure. The page
/// for a missing category is refused. Every other page gives one article
/// for each entry, in order.
pub open spec fn items_of(
    headings: Option<Seq<Seq<Seq<char>>>>,
    entries: Option<Seq<ListedEntryView>>,
) -> Result<Seq<ArticleView>, FetchErrorView> {
    match headings {
        None => Err(FetchErrorView::BadSelector),
        Some(headings) => if is_not_found(headings) {
            Err(FetchErrorView::UnknownCategory)
        } else {
            match entries {
                None => Err(FetchErrorView::BadSelector),
                Some(entries) => Ok(listed_articles(entries)),
            }
        },
    }
}

/// The model of the articles that reading a list page gave.
pub open spec fn items_view(items: Result<Vec<Article>, FetchError>) -> Result<
    Seq<ArticleView>,
    FetchErrorView,
> {
    match items {
        Ok(articles) => Ok(article_views(articles@)),
        Err(error) => Err(error@),
    }
}

/// The model of the paragraphs that reading an article page gave.
pub open spec fn body_view(body: Result<Vec<String>, FetchError>) -> Result<
    Seq<Seq<char>>,
    FetchErrorView,
> {
    match body {
        Ok(paragraphs) => Ok(line_views(paragraphs@)),
        Err(error) => Err(error@),
    }
}

/// The text of the first of `elements`, empty where there is none.
fn first_element_text(elements: &Vec<Vec<String>>) -> (out: String)
    ensures
        out@ == first_text(node_views(elements@)),
{
    if elements.len() > 0 {
        element_to_text(&elements[0])
    } else {
        String::new()
    }
}

/// The article that `entry` stands for.
fn article_of(entry: &ListedEntry) -> (article: Article)
    ensures
        article@ == listed_article(entry@),
{
    let mut href = String::new();
    if entry.links.len() > 0 {
        if let Some(link) = &entry.links[0] {
            href = String::from_str(SITE_URL);
            href.append(link.as_str());
        }
    }
    Article {
        title: first_element_text(&entry.titles),
        href,
        datetime: first_element_text(&entry.datetimes),
    }
}

/// Turns the headings and the entries that were selected from a list page
/// into articles.
pub fn listed_items(
    headings: &Option<Vec<Vec<String>>>,
    entries: &Option<Vec<ListedEntry>>,
) -> (items: Result<Vec<Article>, FetchError>)
    ensures
        items_view(items) == items_of(found_texts(*headings), found_entries(*entries)),
{
    let headings = match headings {
        Some(headings) => headings,
        None => {
            return Err(FetchError::BadSelector);
        },
    };
    if headings.len() > 0 {
        let heading = element_to_text(&headings[0]);
        if same_text(heading.as_str(), NOT_FOUND_HEADING) {
            return Err(FetchError::UnknownCategory);
        }
    }
    let entries = match entries {
        Some(entries) => entries,
        None => {
            return Err(FetchError::BadSelector);
        },
    };
    let mut articles: Vec<Article> = Vec::new();
    let mut i: usize = 0;
    while i < entries.len()
        invariant
            i <= entries.len(),
            articles.len() == i,
            forall|k: int|
                0 <= k < i ==> (#[trigger] articles[k])@ == listed_article(entries[k]@),
        decreases entries.len() - i,
    {
        articles.push(article_of(&entries[i]));
        i += 1;
    }
    assert(article_views(articles@) =~= listed_articles(entry_views(entries@)));
    Ok(articles)
}

/// The paragraphs of an article page, from the elements of its body: the
/// text of each, in order.
pub open spec fn paragraphs_of(elements: Seq<Seq<Seq<char>>>) -> Seq<Seq<char>> {
    Seq::new(elements.len(), |i: int| joined(elements[i]))
}

/// Turns the elements that were selected from the body of an article page
/// into paragraphs.
pub fn body_paragraphs(elements: &Vec<Vec<String>>) -> (paragraphs: Vec<String>)
    ensures
        line_views(paragraphs@) == paragraphs_of(node_views(elements@)),
{
    let mut paragraphs: Vec<String> = Vec::new();
    let mut i: usize = 0;
    while i < elements.len()
        invariant
            i <= elements.len(),
            paragraphs.len() == i,
            forall|k: int|
                0 <= k < i ==> (#[trigger] paragraphs[k])@ == joined(line_views(elements[k]@)),
        decreases elements.len() - i,
    {
        paragraphs.push(element_to_text(&elements[i]));
        i += 1;
    }
    assert(line_views(paragraphs@) =~= paragraphs_of(node_views(elements@)));
    paragraphs
}

/// The articles that `page` lists.
pub open spec fn listing(page: Seq<char>) -> Result<Seq<ArticleView>, FetchErrorView> {
    if is_readable(page) {
        items_of(
            selected_texts(page, HEADING_SELECTOR@),
            selected_entries(
                page,
                ENTRY_SELECTOR@,
                TITLE_SELECTOR@,
                LINK_SELECTOR@,
                LINK_ATTRIBUTE@,
                DATETIME_SELECTOR@,
            ),
        )
    } else {
        Err(FetchErrorView::PageTooLarge)
    }
}

/// The body that `page` holds.
pub open spec fn article_body(page: Seq<char>) -> Result<Seq<Seq<char>>, FetchErrorView> {
    if is_readable(page) {
        match selected_texts(page, BODY_SELECTOR@) {
            Some(elements) => Ok(paragraphs_of(elements)),
            None => Err(FetchErrorView::BadSelector),
        }
    } else {
        Err(FetchErrorView::PageTooLarge)
    }
}

/// Reads the articles off a list page of the site, given as its HTML.
pub fn get_items(page: &str) -> (items: Result<Vec<Article>, FetchError>)
    ensures
        items_view(items) == listing(page@),
{
    if page.as_bytes().len() > MAX_PAGE_BYTES {
        return Err(FetchError::PageTooLarge);
    }
    let headings = select_texts(page, HEADING_SELECTOR);
    let entries = select_entries(
        page,
        ENTRY_SELECTOR,
        TITLE_SELECTOR,
        LINK_SELECTOR,
        LINK_ATTRIBUTE,
        DATETIME_SELECTOR,
    );
    listed_items(&headings, &entries)
}

/// Reads the paragraphs and subheadings off an article page of the site,
/// given as its HTML, in the order of the page.
pub fn get_article(page: &str) -> (body: Result<Vec<String>, FetchError>)
    ensures
        body_view(body) == article_body(page@),
{
    if page.as_bytes().len() > MAX_PAGE_BYTES {
        return Err(FetchError::PageTooLarge);
    }
    match select_texts(page, BODY_SELECTOR) {
        Some(elements) => Ok(body_paragraphs(&elements)),
        None => Err(FetchError::BadSelector),
    }
}

} // verus!
