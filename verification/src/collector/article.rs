//! One article of the board: reading its page, resolving its attachments,
//! and telling that it is gone.

use crate::article::article::parse_page;
use crate::article::article::parsed_page;
use crate::article::article::ArticleError;
use crate::article::article::Page;
use crate::article::article::NOT_FOUND;
use crate::article::attach::first_step;
use crate::article::attach::next_step;
use crate::article::attach::owned_view;
use crate::article::attach::save_files;
use crate::article::attach::ArticleFile;
use crate::article::attach::ArticleFileView;
use crate::article::attach::Downloads;
use crate::article::attach::DownloadsView;
use crate::article::attach::SaveStep;
use crate::article::attach::SaveStepView;
use crate::collector::board::PageMeta;
use crate::stamp::now_micros;
use vstd::prelude::*;

verus! {

/// An article with its attachments resolved.
#[derive(Debug)]
pub struct Article {
    pub id: u64,
    /// When the record was completed, in microseconds since the Unix epoch.
    pub timestamp: i64,
    pub author: String,
    pub subject: String,
    pub content: String,
    pub attach: Vec<Attach>,
}

/// An attachment: where it came from and where it was stored.
#[derive(Debug)]
pub struct Attach {
    pub origin_src: String,
    pub copied_path: String,
}

/// What the collector has to say of one article.
pub enum CollectArticleResult {
    Article(Article),
    DeletedArticle(DeletedArticle),
}

/// The notice that an article is gone.
pub struct DeletedArticle {
    pub id: u64,
    /// When its absence was seen, in microseconds since the Unix epoch.
    pub timestamp: i64,
}

/// What an [`Attach`] holds.
pub struct AttachView {
    pub origin_src: Seq<char>,
    pub copied_path: Seq<char>,
}

impl View for Attach {
    type V = AttachView;

    open spec fn view(&self) -> AttachView {
        AttachView { origin_src: self.origin_src@, copied_path: self.copied_path@ }
    }
}

/// What an [`Article`] holds.
pub struct ArticleView {
    pub id: u64,
    pub timestamp: i64,
    pub author: Seq<char>,
    pub subject: Seq<char>,
    pub content: Seq<char>,
    pub attach: Seq<AttachView>,
}

impl View for Article {
    type V = ArticleView;

    open spec fn view(&self) -> ArticleView {
        ArticleView {
            id: self.id,
            timestamp: self.timestamp,
            author: self.author@,
            subject: self.subject@,
            content: self.content@,
            attach: self.attach@.map_values(|a: Attach| a@),
        }
    }
}

/// What a [`CollectArticleResult`] holds.
pub enum CollectArticleResultView {
    Article(ArticleView),
    DeletedArticle(DeletedArticle),
}

impl View for CollectArticleResult {
    type V = CollectArticleResultView;

    open spec fn view(&self) -> CollectArticleResultView {
        match self {
            CollectArticleResult::Article(a) => CollectArticleResultView::Article(a@),
            CollectArticleResult::DeletedArticle(d) => CollectArticleResultView::DeletedArticle(*d),
        }
    }
}

impl From<DeletedArticle> for CollectArticleResult {
    fn from(v: DeletedArticle) -> (r: CollectArticleResult) {
        CollectArticleResult::DeletedArticle(v)
    }
}

impl vstd::std_specs::convert::FromSpecImpl<DeletedArticle> for CollectArticleResult {
    open spec fn obeys_from_spec() -> bool {
        true
    }

    open spec fn from_spec(v: DeletedArticle) -> CollectArticleResult {
        CollectArticleResult::DeletedArticle(v)
    }
}

impl From<Article> for CollectArticleResult {
    fn from(v: Article) -> (r: CollectArticleResult) {
        CollectArticleResult::Article(v)
    }
}

impl vstd::std_specs::convert::FromSpecImpl<Article> for CollectArticleResult {
    open spec fn obeys_from_spec() -> bool {
        true
    }

    open spec fn from_spec(v: Article) -> CollectArticleResult {
        CollectArticleResult::Article(v)
    }
}

/// What the answer `status` to a new request for the page of `article`, seen
/// at `now`, says of it: a missing page that it is gone, anything else that it
/// stands as it was.
pub open spec fn probed(article: ArticleView, status: u16, now: i64) -> CollectArticleResultView {
    if status == NOT_FOUND {
        CollectArticleResultView::DeletedArticle(DeletedArticle { id: article.id, timestamp: now })
    } else {
        CollectArticleResultView::Article(article)
    }
}

/// Judges `article` by the answer `status` to a new request for its page,
/// seen at `now`.
pub fn is_article_deleted_at(article: Article, status: u16, now: i64) -> (r: CollectArticleResult)
    ensures
        r@ == probed(article@, status, now),
{
    if status == NOT_FOUND {
        CollectArticleResult::DeletedArticle(DeletedArticle { id: article.id, timestamp: now })
    } else {
        CollectArticleResult::Article(article)
    }
}

/// Judges `article` by the answer `status` to a new request for its page, and
/// stamps the notice, if it is gone, with the current time.
pub fn is_article_deleted(article: Article, status: u16) -> (r: CollectArticleResult)
    ensures
        exists|now: i64| r@ == probed(article@, status, now),
{
    let now = now_micros();
    is_article_deleted_at(article, status, now)
}

/// The attachment that a stored file stands for.
pub open spec fn attach_of(f: ArticleFileView) -> AttachView {
    AttachView { origin_src: f.origin_src, copied_path: f.copied_path }
}

/// An article whose page has been read and whose attachments are being
/// fetched. It becomes a record only when the last of them is stored.
pub struct Draft {
    id: u64,
    author: String,
    subject: String,
    content: String,
    downloads: Downloads,
}

/// What a [`Draft`] holds.
pub struct DraftView {
    pub id: u64,
    pub author: Seq<char>,
    pub subject: Seq<char>,
    pub content: Seq<char>,
    pub downloads: DownloadsView,
}

impl View for Draft {
    type V = DraftView;

    closed spec fn view(&self) -> DraftView {
        DraftView {
            id: self.id,
            author: self.author@,
            subject: self.subject@,
            content: self.content@,
            downloads: self.downloads@,
        }
    }
}

/// Where the collection of one article stands.
pub enum Collected {
    /// The collection is over: the article with every attachment, or the
    /// notice that it is gone.
    Ready(CollectArticleResult),
    /// One more attachment is to be fetched: `Draft::pending`.
    Fetch(Draft),
    /// The download of an attachment failed. Nothing of the article with the
    /// number given is to be kept; the address is that of the failed download.
    Abandoned(u64, String),
}

/// What a [`Collected`] holds.
pub enum CollectedView {
    Ready(CollectArticleResultView),
    Fetch(DraftView),
    Abandoned(u64, Seq<char>),
}

impl View for Collected {
    type V = CollectedView;

    open spec fn view(&self) -> CollectedView {
        match self {
            Collected::Ready(r) => CollectedView::Ready(r@),
            Collected::Fetch(d) => CollectedView::Fetch(d@),
            Collected::Abandoned(id, src) => CollectedView::Abandoned(*id, src@),
        }
    }
}

/// Where the collection of the article `id` stands when the run of its
/// downloads stands at `step`, seen at `now`.
pub open spec fn collected_at(
    id: u64,
    author: Seq<char>,
    subject: Seq<char>,
    content: Seq<char>,
    step: SaveStepView,
    now: i64,
) -> CollectedView {
    match step {
        SaveStepView::Fetch(downloads) => CollectedView::Fetch(
            DraftView { id, author, subject, content, downloads },
        ),
        SaveStepView::Done(files) => CollectedView::Ready(
            CollectArticleResultView::Article(
                ArticleView {
                    id,
                    timestamp: now,
                    author,
                    subject,
                    content,
                    attach: files.map_values(|f: ArticleFileView| attach_of(f)),
                },
            ),
        ),
        SaveStepView::Failed(src) => CollectedView::Abandoned(id, src),
    }
}

/// Where the collection of article `id` stands once the answer to the request
/// for its page is in: `status` and body `html`, from the address `referer`,
/// seen at `now`. A missing page gives the notice that the article is gone,
/// whatever the body holds.
pub open spec fn opened(id: u64, status: u16, html: Seq<char>, referer: Seq<char>, now: i64) -> Result<
    CollectedView,
    ArticleError,
> {
    if status == NOT_FOUND {
        Ok(
            CollectedView::Ready(
                CollectArticleResultView::DeletedArticle(DeletedArticle { id, timestamp: now }),
            ),
        )
    } else {
        match parsed_page(html) {
            Err(e) => Err(e),
            Ok(page) => Ok(
                collected_at(
                    id,
                    page.author,
                    page.subject,
                    page.content,
                    first_step(referer, page.attach_src),
                    now,
                ),
            ),
        }
    }
}

/// Where the collection `d` stands once the download of its pending
/// attachment has ended with `outcome`, seen at `now`.
pub open spec fn advanced(d: DraftView, outcome: Option<Seq<char>>, now: i64) -> CollectedView {
    collected_at(d.id, d.author, d.subject, d.content, next_step(d.downloads, outcome), now)
}

/// The view of the outcome of opening a collection.
pub open spec fn collected_view(r: Result<Collected, ArticleError>) -> Result<
    CollectedView,
    ArticleError,
> {
    match r {
        Ok(c) => Ok(c@),
        Err(e) => Err(e),
    }
}

/// The attachments that the stored files `files` stand for.
fn attachments(files: Vec<ArticleFile>) -> (attach: Vec<Attach>)
    ensures
        attach@.map_values(|a: Attach| a@) == files@.map_values(|f: ArticleFile| f@).map_values(
            |f: ArticleFileView| attach_of(f),
        ),
{
    let mut attach: Vec<Attach> = Vec::new();
    let ghost all = files@.map_values(|f: ArticleFile| f@);
    for f in it: files
        invariant
            it.seq().map_values(|f: ArticleFile| f@) == all,
            attach@.len() == it.index(),
            forall|j: int| 0 <= j < it.index() ==> (#[trigger] attach@[j])@ == attach_of(all[j]),
    {
        let ArticleFile { origin_src, copied_path } = f;
        assert(all[it.index() as int] == f@);
        attach.push(Attach { origin_src, copied_path });
    }
    assert(attach@.map_values(|a: Attach| a@) =~= all.map_values(
        |f: ArticleFileView| attach_of(f),
    ));
    attach
}

/// Turns the state of a run of downloads into the state of the collection.
fn collected_from(
    id: u64,
    author: String,
    subject: String,
    content: String,
    step: SaveStep,
    now: i64,
) -> (c: Collected)
    ensures
        c@ == collected_at(id, author@, subject@, content@, step@, now),
{
    match step {
        SaveStep::Fetch(downloads) => Collected::Fetch(
            Draft { id, author, subject, content, downloads },
        ),
        SaveStep::Done(files) => Collected::Ready(
            CollectArticleResult::Article(
                Article { id, timestamp: now, author, subject, content, attach: attachments(files) },
            ),
        ),
        SaveStep::Failed(src) => Collected::Abandoned(id, src),
    }
}

impl Draft {
    /// The address of the attachment to fetch next.
    pub fn pending(&self) -> (src: &String)
        ensures
            self@.downloads.wf(),
            src@ == self@.downloads.pending(),
    {
        self.downloads.pending()
    }

    /// The page to name as referer in the request.
    pub fn referer(&self) -> (page: &String)
        ensures
            page@ == self@.downloads.referer,
    {
        self.downloads.referer()
    }

    /// Takes note of how the download of the pending attachment ended, seen
    /// at `now`: `outcome` is the path of the stored file, or `None` where the
    /// download failed. A failure abandons the article; the last file stored
    /// completes it.
    pub fn advance_at(self, outcome: Option<String>, now: i64) -> (c: Collected)
        ensures
            c@ == advanced(self@, owned_view(outcome), now),
            outcome is None ==> c is Abandoned,
    {
        let Draft { id, author, subject, content, downloads } = self;
        let step = downloads.advance(outcome);
        collected_from(id, author, subject, content, step, now)
    }

    /// Takes note of how the download of the pending attachment ended, and
    /// stamps the article, where this completes it, with the current time.
    pub fn advance(self, outcome: Option<String>) -> (c: Collected)
        ensures
            exists|now: i64| c@ == advanced(self@, owned_view(outcome), now),
            outcome is None ==> c is Abandoned,
    {
        let now = now_micros();
        self.advance_at(outcome, now)
    }
}

/// Opens the collection of the article of `meta` with the answer to the
/// request for its page: `status` and body `html`, from the address `referer`,
/// seen at `now`.
pub fn collect_article_at(meta: PageMeta, status: u16, html: &str, referer: &str, now: i64) -> (r:
    Result<Collected, ArticleError>)
    ensures
        collected_view(r) == opened(meta.id, status, html@, referer@, now),
        status == NOT_FOUND ==> (r matches Ok(
            Collected::Ready(CollectArticleResult::DeletedArticle(d)),
        ) && d.id == meta.id && d.timestamp == now),
{
    let id = meta.id;
    if status == NOT_FOUND {
        return Ok(
            Collected::Ready(
                CollectArticleResult::DeletedArticle(DeletedArticle { id, timestamp: now }),
            ),
        );
    }
    match parse_page(html) {
        Err(e) => Err(e),
        Ok(page) => {
            let Page { author, subject, content, attach_src } = page;
            let step = save_files(attach_src, referer);
            Ok(collected_from(id, author, subject, content, step, now))
        },
    }
}

/// Opens the collection of the article of `meta` with the answer to the
/// request for its page, and stamps what it completes with the current time.
pub fn collect_article(meta: PageMeta, status: u16, html: &str, referer: &str) -> (r: Result<
    Collected,
    ArticleError,
>)
    ensures
        exists|now: i64| collected_view(r) == opened(meta.id, status, html@, referer@, now),
        status == NOT_FOUND ==> (r matches Ok(
            Collected::Ready(CollectArticleResult::DeletedArticle(d)),
        ) && d.id == meta.id),
{
    let now = now_micros();
    collect_article_at(meta, status, html, referer, now)
}

} // verus!
