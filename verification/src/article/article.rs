//! The page of one article: what it must hold, and what is read from it.

use crate::markup::document_texts;
use crate::markup::nested_attrs;
use crate::markup::select_attrs;
use crate::markup::select_texts;
use crate::stamp::now_micros;
use crate::text::decimal;
use crate::text::push_decimal;
use crate::text::strip_layout;
use crate::text::without_layout;
use vstd::prelude::*;

verus! {

/// Selects the element that holds the time of writing.
pub const CREATED_SELECTOR: &'static str = "#container header .gall_date";

/// Selects the element that holds the author's name.
pub const AUTHOR_SELECTOR: &'static str = "#container header .nickname em";

/// Selects the element that holds the subject line.
pub const SUBJECT_SELECTOR: &'static str = "#container header .gallview_head .title_subject";

/// Selects the element that holds the body.
pub const CONTENT_SELECTOR: &'static str = "#container .writing_view_box .write_div";

/// Selects the images inside the body.
pub const IMG_SELECTOR: &'static str = "img";

/// The attribute of an image that holds its address.
pub const SRC_ATTR: &'static str = "src";

/// The HTTP status that tells that an article is gone.
pub const NOT_FOUND: u16 = 404;

/// An article as its page shows it.
#[derive(Debug)]
pub struct Article {
    pub id: u64,
    /// When the page was read, in microseconds since the Unix epoch.
    pub timestamp: i64,
    pub author: String,
    pub subject: String,
    pub content: String,
    /// The address of the page.
    pub url: String,
    /// The addresses of the images in the body, in order.
    pub attach_src: Vec<String>,
}

/// An attachment: where it came from and where it was stored.
#[derive(Debug)]
pub struct Attach {
    pub origin_src: String,
    pub copied_path: String,
}

/// What reading an article's page gave.
#[derive(Debug)]
pub enum ArticleResult {
    Article(Article),
    /// The source no longer has the article.
    DeletedArticle,
}

/// The notice that an article is gone.
#[derive(Debug)]
pub struct DeletedArticle {
    pub id: u64,
    /// When its absence was seen, in microseconds since the Unix epoch.
    pub timestamp: i64,
}

/// Why a page could not be read as an article.
#[derive(Clone, Copy, PartialEq, Eq, Structural, Debug)]
pub enum ArticleError {
    /// The response had no body.
    EmptyBody,
    /// A selector was refused as invalid CSS.
    Selector,
    /// The page has no element with the time of writing.
    MissingCreated,
    /// The page has no element with the author.
    MissingAuthor,
    /// The page has no element with the subject.
    MissingSubject,
    /// The page has no element with the body.
    MissingContent,
}

/// What is said of the error `e` that the page of article `id` gave.
pub open spec fn error_text(e: ArticleError, id: u64) -> Seq<char> {
    match e {
        ArticleError::EmptyBody => "empty response body"@,
        ArticleError::Selector => "selector refused"@,
        ArticleError::MissingCreated => "not found created_el id: "@ + decimal(id as nat),
        ArticleError::MissingAuthor => "not found author_el id: "@ + decimal(id as nat),
        ArticleError::MissingSubject => "not found subject_el id: "@ + decimal(id as nat),
        ArticleError::MissingContent => "not found content_el id: "@ + decimal(id as nat),
    }
}

impl ArticleError {
    /// The line to log for this error when the page of article `id` gave it.
    pub fn message(&self, id: u64) -> (text: String)
        ensures
            text@ == error_text(*self, id),
    {
        let mut text = match self {
            ArticleError::EmptyBody => {
                return "empty response body".to_owned();
            },
            ArticleError::Selector => {
                return "selector refused".to_owned();
            },
            ArticleError::MissingCreated => "not found created_el id: ".to_owned(),
            ArticleError::MissingAuthor => "not found author_el id: ".to_owned(),
            ArticleError::MissingSubject => "not found subject_el id: ".to_owned(),
            ArticleError::MissingContent => "not found content_el id: ".to_owned(),
        };
        push_decimal(&mut text, id);
        text
    }
}

/// What an [`Article`] holds.
pub struct ArticleView {
    pub id: u64,
    pub timestamp: i64,
    pub author: Seq<char>,
    pub subject: Seq<char>,
    pub content: Seq<char>,
    pub url: Seq<char>,
    pub attach_src: Seq<Seq<char>>,
}

impl View for Article {
    type V = ArticleView;

    open spec fn view(&self) -> ArticleView {
        ArticleView {
            id: self.id,
            timestamp: self.timestamp,
            author: self.author@,
            subject: self.subject@,
            content: self.content@,
            url: self.url@,
            attach_src: self.attach_src@.map_values(|s: String| s@),
        }
    }
}

/// What an [`ArticleResult`] holds.
pub enum ArticleResultView {
    Article(ArticleView),
    DeletedArticle,
}

impl View for ArticleResult {
    type V = ArticleResultView;

    open spec fn view(&self) -> ArticleResultView {
        match self {
            ArticleResult::Article(a) => ArticleResultView::Article(a@),
            ArticleResult::DeletedArticle => ArticleResultView::DeletedArticle,
        }
    }
}

impl From<Article> for ArticleResult {
    fn from(v: Article) -> (r: ArticleResult) {
        ArticleResult::Article(v)
    }
}

impl vstd::std_specs::convert::FromSpecImpl<Article> for ArticleResult {
    open spec fn obeys_from_spec() -> bool {
        true
    }

    open spec fn from_spec(v: Article) -> ArticleResult {
        ArticleResult::Article(v)
    }
}

/// What is read from the page of an article that is still there.
pub struct Page {
    pub author: String,
    pub subject: String,
    pub content: String,
    pub attach_src: Vec<String>,
}

/// What a [`Page`] holds.
pub struct PageView {
    pub author: Seq<char>,
    pub subject: Seq<char>,
    pub content: Seq<char>,
    pub attach_src: Seq<Seq<char>>,
}

impl View for Page {
    type V = PageView;

    open spec fn view(&self) -> PageView {
        PageView {
            author: self.author@,
            subject: self.subject@,
            content: self.content@,
            attach_src: self.attach_src@.map_values(|s: String| s@),
        }
    }
}

/// The selectors of the four required fields, in the order in which their
/// absence is reported: time of writing, author, subject, body.
pub open spec fn field_selectors() -> Seq<Seq<char>> {
    seq![CREATED_SELECTOR@, AUTHOR_SELECTOR@, SUBJECT_SELECTOR@, CONTENT_SELECTOR@]
}

/// The values of `values` that are there, in order.
pub open spec fn present(values: Seq<Option<Seq<char>>>) -> Seq<Seq<char>>
    decreases values.len(),
{
    if values.len() == 0 {
        Seq::empty()
    } else {
        match values.last() {
            Some(v) => present(values.drop_last()).push(v),
            None => present(values.drop_last()),
        }
    }
}

/// The image addresses of the first body element, where `groups` holds, for
/// each body element, the address of each of its images.
pub open spec fn body_sources(groups: Seq<Seq<Option<Seq<char>>>>) -> Seq<Seq<char>> {
    if groups.len() == 0 {
        Seq::empty()
    } else {
        present(groups[0])
    }
}

/// The page that the texts of the four required fields and the image
/// addresses make, or the first field that is missing. Where `fields` does not
/// hold four entries or `images` is `None`, a selector was refused.
pub open spec fn page_of(
    fields: Seq<Option<Seq<char>>>,
    images: Option<Seq<Seq<Option<Seq<char>>>>>,
) -> Result<PageView, ArticleError> {
    if fields.len() != 4 {
        Err(ArticleError::Selector)
    } else if fields[0] is None {
        Err(ArticleError::MissingCreated)
    } else if fields[1] is None {
        Err(ArticleError::MissingAuthor)
    } else if fields[2] is None {
        Err(ArticleError::MissingSubject)
    } else if fields[3] is None {
        Err(ArticleError::MissingContent)
    } else {
        match images {
            None => Err(ArticleError::Selector),
            Some(groups) => Ok(
                PageView {
                    author: fields[1]->0,
                    subject: fields[2]->0,
                    content: without_layout(fields[3]->0),
                    attach_src: body_sources(groups),
                },
            ),
        }
    }
}

/// What the document `html` gives when it is read as the page of an article.
pub open spec fn parsed_page(html: Seq<char>) -> Result<PageView, ArticleError> {
    match document_texts(html, field_selectors()) {
        None => Err(ArticleError::Selector),
        Some(fields) => page_of(
            fields,
            nested_attrs(html, CONTENT_SELECTOR@, IMG_SELECTOR@, SRC_ATTR@),
        ),
    }
}

/// The view of the outcome of reading a page.
pub open spec fn page_result_view(r: Result<Page, ArticleError>) -> Result<PageView, ArticleError> {
    match r {
        Ok(p) => Ok(p@),
        Err(e) => Err(e),
    }
}

/// The addresses among `values` that are there, in order: an image without an
/// address is passed over.
pub fn collect_attach_src(values: &Vec<Option<String>>) -> (sources: Vec<String>)
    ensures
        sources@.map_values(|s: String| s@) == present(values.deep_view()),
{
    let mut sources: Vec<String> = Vec::new();
    let ghost all = values.deep_view();
    let mut i: usize = 0;
    assert(all.take(0) =~= Seq::empty());
    assert(sources@.map_values(|s: String| s@) =~= Seq::empty());
    while i < values.len()
        invariant
            i <= values.len(),
            all == values.deep_view(),
            sources@.map_values(|s: String| s@) == present(all.take(i as int)),
        decreases values.len() - i,
    {
        let ghost before = sources@.map_values(|s: String| s@);
        proof {
            assert(all.take(i + 1).drop_last() =~= all.take(i as int));
            assert(all.take(i + 1).last() == all[i as int]);
            assert(all[i as int] == values[i as int].deep_view());
        }
        match &values[i] {
            Some(src) => {
                sources.push(src.clone());
                assert(sources@.map_values(|s: String| s@) =~= before.push(src@));
            },
            None => {},
        }
        i = i + 1;
    }
    assert(all.take(values.len() as int) =~= all);
    sources
}

/// Reads a page from the texts of its four required fields, as
/// [`field_selectors`] orders them, and from the addresses of the images of
/// each body element.
pub fn page_from(fields: &Vec<Option<String>>, images: &Option<Vec<Vec<Option<String>>>>) -> (r:
    Result<Page, ArticleError>)
    ensures
        page_result_view(r) == page_of(fields.deep_view(), images.deep_view()),
{
    if fields.len() != 4 {
        return Err(ArticleError::Selector);
    }
    proof {
        assert(fields.deep_view().len() == 4);
        assert(fields.deep_view()[0] == fields[0].deep_view());
        assert(fields.deep_view()[1] == fields[1].deep_view());
        assert(fields.deep_view()[2] == fields[2].deep_view());
        assert(fields.deep_view()[3] == fields[3].deep_view());
    }
    if fields[0].is_none() {
        return Err(ArticleError::MissingCreated);
    }
    let author = match &fields[1] {
        Some(text) => text.clone(),
        None => {
            return Err(ArticleError::MissingAuthor);
        },
    };
    let subject = match &fields[2] {
        Some(text) => text.clone(),
        None => {
            return Err(ArticleError::MissingSubject);
        },
    };
    let content = match &fields[3] {
        Some(text) => strip_layout(text.as_str()),
        None => {
            return Err(ArticleError::MissingContent);
        },
    };
    let groups = match images {
        Some(groups) => groups,
        None => {
            return Err(ArticleError::Selector);
        },
    };
    let attach_src = if groups.len() == 0 {
        let none: Vec<String> = Vec::new();
        assert(none@.map_values(|s: String| s@) =~= Seq::empty());
        none
    } else {
        assert(groups.deep_view()[0] == groups[0].deep_view());
        collect_attach_src(&groups[0])
    };
    Ok(Page { author, subject, content, attach_src })
}

/// Reads the document `html` as the page of an article.
pub fn parse_page(html: &str) -> (r: Result<Page, ArticleError>)
    ensures
        page_result_view(r) == parsed_page(html@),
{
    let mut selectors: Vec<&str> = Vec::new();
    selectors.push(CREATED_SELECTOR);
    selectors.push(AUTHOR_SELECTOR);
    selectors.push(SUBJECT_SELECTOR);
    selectors.push(CONTENT_SELECTOR);
    assert(selectors.deep_view() =~= field_selectors());
    match select_texts(html, &selectors) {
        None => Err(ArticleError::Selector),
        Some(fields) => {
            let images = select_attrs(html, CONTENT_SELECTOR, IMG_SELECTOR, SRC_ATTR);
            page_from(&fields, &images)
        },
    }
}

/// The address of the source's pages up to the article's number.
pub const PAGE_URL_HEAD: &'static str =
    "https://gall.dcinside.com/board/view/?id=baseball_new13&no=";

/// The rest of the address, after the article's number.
pub const PAGE_URL_TAIL: &'static str = "&page=1";

/// The address of the page of article `page_number`.
pub open spec fn page_address(page_number: u64) -> Seq<char> {
    PAGE_URL_HEAD@ + decimal(page_number as nat) + PAGE_URL_TAIL@
}

/// The address of the page of article `page_number`.
pub fn page_url(page_number: u64) -> (url: String)
    ensures
        url@ == page_address(page_number),
{
    let mut url = PAGE_URL_HEAD.to_owned();
    push_decimal(&mut url, page_number);
    url.append(PAGE_URL_TAIL);
    url
}

/// What the response with `status` and body `html`, fetched from `url` at
/// the time `now`, says of article `id`: a missing page that the article is
/// gone, whatever its body; any other response must have a body that reads as
/// an article's page.
pub open spec fn fetched_article(
    id: u64,
    status: u16,
    html: Seq<char>,
    url: Seq<char>,
    now: i64,
) -> Result<ArticleResultView, ArticleError> {
    if status == NOT_FOUND {
        Ok(ArticleResultView::DeletedArticle)
    } else if html.len() == 0 {
        Err(ArticleError::EmptyBody)
    } else {
        match parsed_page(html) {
            Err(e) => Err(e),
            Ok(page) => Ok(
                ArticleResultView::Article(
                    ArticleView {
                        id,
                        timestamp: now,
                        author: page.author,
                        subject: page.subject,
                        content: page.content,
                        url,
                        attach_src: page.attach_src,
                    },
                ),
            ),
        }
    }
}

/// The view of the outcome of reading an article.
pub open spec fn article_result_view(r: Result<ArticleResult, ArticleError>) -> Result<
    ArticleResultView,
    ArticleError,
> {
    match r {
        Ok(a) => Ok(a@),
        Err(e) => Err(e),
    }
}

/// Reads article `id` from the response to the request for its page, which
/// came from `url` with `status` and body `html` and was read at `now`.
pub fn get_article_at(id: u64, status: u16, html: &str, url: String, now: i64) -> (r: Result<
    ArticleResult,
    ArticleError,
>)
    ensures
        article_result_view(r) == fetched_article(id, status, html@, url@, now),
{
    if status == NOT_FOUND {
        return Ok(ArticleResult::DeletedArticle);
    }
    if html.is_empty() {
        return Err(ArticleError::EmptyBody);
    }
    match parse_page(html) {
        Err(e) => Err(e),
        Ok(page) => {
            let Page { author, subject, content, attach_src } = page;
            Ok(
                ArticleResult::Article(
                    Article { id, timestamp: now, author, subject, content, url, attach_src },
                ),
            )
        },
    }
}

/// Reads article `id` from the response to the request for its page, and
/// stamps it with the current time.
pub fn get_article(id: u64, status: u16, html: &str, url: String) -> (r: Result<
    ArticleResult,
    ArticleError,
>)
    ensures
        exists|now: i64| article_result_view(r) == fetched_article(id, status, html@, url@, now),
{
    let now = now_micros();
    get_article_at(id, status, html, url, now)
}

} // verus!
