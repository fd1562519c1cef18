//! The row of the table of articles, and what is asked of that table.

use crate::collector::article;
use crate::collector::article::AttachView;
use crate::stamp::fresh_token;
use crate::stamp::render_stamp;
use crate::stamp::stamp_text;
use vstd::prelude::*;

verus! {

/// The table that holds the articles.
pub const TABLE_NAME: &'static str = "article";

/// How far back the search for deleted articles looks, in microseconds.
pub const MONITOR_WINDOW_MICROS: i64 = 7_200_000_000;

/// The layout of an instant in a query.
pub const QUERY_TIME_FORMAT: &'static str = "%Y-%m-%dT%H:%M:%S%.6f";

/// The query for the articles to look at again: those younger than the bound
/// that have no notice of deletion. Its parameters are the table of articles,
/// the bound and the table of notices.
pub const MONITOR_QUERY: &'static str =
    "SELECT ?fields FROM ? WHERE timestamp > ? AND id not in(select id from ?)";

/// The query for the largest number that the table of articles holds.
pub const LAST_ID_QUERY: &'static str = "SELECT max(id) FROM ?";

/// One row of the table of articles.
#[derive(Debug)]
pub struct Article {
    /// The identifier of the row.
    pub uid: u128,
    pub id: u64,
    /// In microseconds since the Unix epoch.
    pub timestamp: i64,
    pub author: String,
    pub subject: String,
    pub content: String,
    /// The addresses of the attachments.
    pub attach_origin_src: Vec<String>,
    /// The paths of the stored attachments, in the order of the addresses.
    pub attach_copied_path: Vec<String>,
}

/// What an [`Article`] row holds.
pub struct ArticleRowView {
    pub uid: u128,
    pub id: u64,
    pub timestamp: i64,
    pub author: Seq<char>,
    pub subject: Seq<char>,
    pub content: Seq<char>,
    pub attach_origin_src: Seq<Seq<char>>,
    pub attach_copied_path: Seq<Seq<char>>,
}

impl View for Article {
    type V = ArticleRowView;

    open spec fn view(&self) -> ArticleRowView {
        ArticleRowView {
            uid: self.uid,
            id: self.id,
            timestamp: self.timestamp,
            author: self.author@,
            subject: self.subject@,
            content: self.content@,
            attach_origin_src: self.attach_origin_src@.map_values(|s: String| s@),
            attach_copied_path: self.attach_copied_path@.map_values(|s: String| s@),
        }
    }
}

impl crate::entity::Entity for Article {
    fn table_name() -> (name: &'static str)
        ensures
            name@ == TABLE_NAME@,
    {
        TABLE_NAME
    }
}

/// The row that holds the article `v` under the identifier `uid`.
pub open spec fn row_of(v: article::ArticleView, uid: u128) -> ArticleRowView {
    ArticleRowView {
        uid,
        id: v.id,
        timestamp: v.timestamp,
        author: v.author,
        subject: v.subject,
        content: v.content,
        attach_origin_src: v.attach.map_values(|a: AttachView| a.origin_src),
        attach_copied_path: v.attach.map_values(|a: AttachView| a.copied_path),
    }
}

/// The attachments that two parallel lists of addresses and paths make: as
/// many as the shorter list holds.
pub open spec fn zipped(sources: Seq<Seq<char>>, paths: Seq<Seq<char>>) -> Seq<AttachView> {
    Seq::new(
        if sources.len() <= paths.len() {
            sources.len()
        } else {
            paths.len()
        },
        |i: int| AttachView { origin_src: sources[i], copied_path: paths[i] },
    )
}

/// The article that the row `row` holds.
pub open spec fn article_of(row: ArticleRowView) -> article::ArticleView {
    article::ArticleView {
        id: row.id,
        timestamp: row.timestamp,
        author: row.author,
        subject: row.subject,
        content: row.content,
        attach: zipped(row.attach_origin_src, row.attach_copied_path),
    }
}

impl Article {
    /// The row that holds the article `v` under the identifier `uid`.
    pub fn from_with(v: article::Article, uid: u128) -> (row: Article)
        ensures
            row@ == row_of(v@, uid),
    {
        let article::Article { id, timestamp, author, subject, content, attach } = v;
        let mut attach_origin_src: Vec<String> = Vec::new();
        let mut attach_copied_path: Vec<String> = Vec::new();
        let ghost all = attach@.map_values(|a: article::Attach| a@);
        for a in it: attach
            invariant
                it.seq().map_values(|a: article::Attach| a@) == all,
                attach_origin_src@.map_values(|s: String| s@) == all.take(
                    it.index() as int,
                ).map_values(|a: AttachView| a.origin_src),
                attach_copied_path@.map_values(|s: String| s@) == all.take(
                    it.index() as int,
                ).map_values(|a: AttachView| a.copied_path),
        {
            let ghost n = it.index() as int;
            let ghost s0 = attach_origin_src@.map_values(|s: String| s@);
            let ghost p0 = attach_copied_path@.map_values(|s: String| s@);
            assert(all[n] == a@);
            let article::Attach { origin_src, copied_path } = a;
            attach_origin_src.push(origin_src);
            attach_copied_path.push(copied_path);
            proof {
                assert(attach_origin_src@.map_values(|s: String| s@) =~= s0.push(origin_src@));
                assert(attach_copied_path@.map_values(|s: String| s@) =~= p0.push(copied_path@));
                assert(all.take(n + 1).map_values(|a: AttachView| a.origin_src) =~= all.take(
                    n,
                ).map_values(|a: AttachView| a.origin_src).push(origin_src@));
                assert(all.take(n + 1).map_values(|a: AttachView| a.copied_path) =~= all.take(
                    n,
                ).map_values(|a: AttachView| a.copied_path).push(copied_path@));
            }
        }
        assert(all.take(all.len() as int) =~= all);
        Article {
            uid,
            id,
            timestamp,
            author,
            subject,
            content,
            attach_origin_src,
            attach_copied_path,
        }
    }

    /// The row that holds the article `v` under a fresh identifier.
    pub fn from(v: article::Article) -> (row: Article)
        ensures
            row@ == row_of(v@, row.uid),
    {
        let uid = fresh_token();
        Article::from_with(v, uid)
    }

    /// The article that the row holds: its attachments are the addresses and
    /// paths of the row, paired in order.
    pub fn into(self) -> (v: article::Article)
        ensures
            v@ == article_of(self@),
    {
        let Article {
            uid: _,
            id,
            timestamp,
            author,
            subject,
            content,
            attach_origin_src,
            attach_copied_path,
        } = self;
        let ghost sources = attach_origin_src@.map_values(|s: String| s@);
        let ghost paths = attach_copied_path@.map_values(|s: String| s@);
        let mut attach: Vec<article::Attach> = Vec::new();
        let n: usize = if attach_origin_src.len() <= attach_copied_path.len() {
            attach_origin_src.len()
        } else {
            attach_copied_path.len()
        };
        let mut i: usize = 0;
        while i < n
            invariant
                i <= n,
                n <= attach_origin_src.len(),
                n <= attach_copied_path.len(),
                sources == attach_origin_src@.map_values(|s: String| s@),
                paths == attach_copied_path@.map_values(|s: String| s@),
                attach@.len() == i,
                forall|j: int|
                    0 <= j < i ==> (#[trigger] attach@[j])@ == (AttachView {
                        origin_src: sources[j],
                        copied_path: paths[j],
                    }),
            decreases n - i,
        {
            attach.push(
                article::Attach {
                    origin_src: attach_origin_src[i].clone(),
                    copied_path: attach_copied_path[i].clone(),
                },
            );
            i = i + 1;
        }
        assert(attach@.map_values(|a: article::Attach| a@) =~= zipped(sources, paths));
        article::Article { id, timestamp, author, subject, content, attach }
    }
}

/// The storage gave no row.
#[derive(Clone, Copy, PartialEq, Eq, Structural, Debug)]
pub struct NoRow;

/// The largest number that the table of articles holds, given the first row
/// that the query for it returned, if it returned one.
pub fn get_last_id(row: Option<u64>) -> (r: Result<u64, NoRow>)
    ensures
        r == match row {
            Some(id) => Ok::<u64, NoRow>(id),
            None => Err::<u64, NoRow>(NoRow),
        },
{
    match row {
        Some(id) => Ok(id),
        None => Err(NoRow),
    }
}

/// The instant before which an article is no longer looked at again, in
/// microseconds since the Unix epoch: the length of the window before `now`.
/// `None` where that lies before the earliest instant that can be told.
pub open spec fn window_start(now: i64) -> Option<i64> {
    if now - MONITOR_WINDOW_MICROS >= i64::MIN {
        Some((now - MONITOR_WINDOW_MICROS) as i64)
    } else {
        None
    }
}

/// The bound of the query for the articles to look at again, as the query
/// takes it.
pub open spec fn monitor_bound(now: i64) -> Option<Seq<char>> {
    match window_start(now) {
        Some(start) => stamp_text(start, QUERY_TIME_FORMAT@),
        None => None,
    }
}

/// The bound of the query for the articles to look at again when the time is
/// `now`, as the query takes it.
pub fn get_monitor_target(now: i64) -> (bound: Option<String>)
    ensures
        bound.deep_view() == monitor_bound(now),
{
    match now.checked_sub(MONITOR_WINDOW_MICROS) {
        Some(start) => render_stamp(start, QUERY_TIME_FORMAT),
        None => None,
    }
}

/// The rows to insert for the articles `rows`: one row for each, in order,
/// each under a fresh identifier of its own.
pub fn insert(rows: Vec<article::Article>) -> (out: Vec<Article>)
    ensures
        out@.len() == rows@.len(),
        forall|i: int|
            0 <= i < out@.len() ==> (#[trigger] out@[i])@ == row_of(rows@[i]@, out@[i].uid),
{
    let mut out: Vec<Article> = Vec::new();
    for a in it: rows
        invariant
            it.seq() == rows@,
            out@.len() == it.index(),
            forall|i: int|
                0 <= i < out@.len() ==> (#[trigger] out@[i])@ == row_of(rows@[i]@, out@[i].uid),
    {
        let ghost before = out@;
        let row = Article::from(a);
        out.push(row);
        assert forall|i: int| 0 <= i < out@.len() implies (#[trigger] out@[i])@ == row_of(
            rows@[i]@,
            out@[i].uid,
        ) by {
            if i < before.len() {
                assert(out@[i] == before[i]);
            }
        }
    }
    out
}

/// The articles that the rows `rows` hold, in order.
pub fn articles_from(rows: Vec<Article>) -> (out: Vec<article::Article>)
    ensures
        out@.len() == rows@.len(),
        forall|i: int| 0 <= i < out@.len() ==> (#[trigger] out@[i])@ == article_of(rows@[i]@),
{
    let mut out: Vec<article::Article> = Vec::new();
    for row in it: rows
        invariant
            it.seq() == rows@,
            out@.len() == it.index(),
            forall|i: int| 0 <= i < out@.len() ==> (#[trigger] out@[i])@ == article_of(rows@[i]@),
    {
        out.push(row.into());
    }
    out
}

} // verus!
