//! The row that one article with its stored attachments becomes.

use crate::article::article;
use crate::article::attach::ArticleFile;
use crate::article::attach::ArticleFileView;
use crate::stamp::fresh_token;
use vstd::prelude::*;

verus! {

/// One row of the table of articles.
#[derive(Debug)]
pub struct Article {
    /// The identifier of the row.
    pub uid: u128,
    pub id: u64,
    /// In microseconds since the Unix epoch.
    pub timestamp: i64,
    pub author: String,
    pub subject: String,
    pub content: String,
    /// The addresses of the attachments.
    pub attach_origin_src: Vec<String>,
    /// The paths of the stored attachments, in the order of the addresses.
    pub attach_copied_path: Vec<String>,
}

/// What an [`Article`] row holds.
pub struct ArticleRowView {
    pub uid: u128,
    pub id: u64,
    pub timestamp: i64,
    pub author: Seq<char>,
    pub subject: Seq<char>,
    pub content: Seq<char>,
    pub attach_origin_src: Seq<Seq<char>>,
    pub attach_copied_path: Seq<Seq<char>>,
}

impl View for Article {
    type V = ArticleRowView;

    open spec fn view(&self) -> ArticleRowView {
        ArticleRowView {
            uid: self.uid,
            id: self.id,
            timestamp: self.timestamp,
            author: self.author@,
            subject: self.subject@,
            content: self.content@,
            attach_origin_src: self.attach_origin_src@.map_values(|s: String| s@),
            attach_copied_path: self.attach_copied_path@.map_values(|s: String| s@),
        }
    }
}

impl crate::entity::Entity for Article {
    fn table_name() -> (name: &'static str)
        ensures
            name@ == "logs"@,
    {
        "logs"
    }
}

/// The row that holds the article `a` with the stored attachments `files`
/// under the identifier `uid`.
pub open spec fn row_of(a: article::ArticleView, files: Seq<ArticleFileView>, uid: u128) -> ArticleRowView {
    ArticleRowView {
        uid,
        id: a.id,
        timestamp: a.timestamp,
        author: a.author,
        subject: a.subject,
        content: a.content,
        attach_origin_src: files.map_values(|f: ArticleFileView| f.origin_src),
        attach_copied_path: files.map_values(|f: ArticleFileView| f.copied_path),
    }
}

impl Article {
    /// The row that holds the article and the stored attachments of `v`
    /// under the identifier `uid`.
    pub fn from_with(v: (article::Article, Vec<ArticleFile>), uid: u128) -> (row: Article)
        ensures
            row@ == row_of(v.0@, v.1@.map_values(|f: ArticleFile| f@), uid),
    {
        let (a, attach) = v;
        let mut attach_origin_src: Vec<String> = Vec::new();
        let mut attach_copied_path: Vec<String> = Vec::new();
        let ghost all = attach@.map_values(|f: ArticleFile| f@);
        for f in it: attach
            invariant
                it.seq().map_values(|f: ArticleFile| f@) == all,
                attach_origin_src@.map_values(|s: String| s@) == all.take(
                    it.index() as int,
                ).map_values(|f: ArticleFileView| f.origin_src),
                attach_copied_path@.map_values(|s: String| s@) == all.take(
                    it.index() as int,
                ).map_values(|f: ArticleFileView| f.copied_path),
        {
            let ghost n = it.index() as int;
            let ghost s0 = attach_origin_src@.map_values(|s: String| s@);
            let ghost p0 = attach_copied_path@.map_values(|s: String| s@);
            assert(all[n] == f@);
            let ArticleFile { origin_src, copied_path } = f;
            attach_origin_src.push(origin_src);
            attach_copied_path.push(copied_path);
            proof {
                assert(attach_origin_src@.map_values(|s: String| s@) =~= s0.push(origin_src@));
                assert(attach_copied_path@.map_values(|s: String| s@) =~= p0.push(copied_path@));
                assert(all.take(n + 1).map_values(|f: ArticleFileView| f.origin_src) =~= all.take(
                    n,
                ).map_values(|f: ArticleFileView| f.origin_src).push(origin_src@));
                assert(all.take(n + 1).map_values(|f: ArticleFileView| f.copied_path) =~= all.take(
                    n,
                ).map_values(|f: ArticleFileView| f.copied_path).push(copied_path@));
            }
        }
        assert(all.take(all.len() as int) =~= all);
        Article {
            uid,
            id: a.id,
            timestamp: a.timestamp,
            author: a.author,
            subject: a.subject,
            content: a.content,
            attach_origin_src,
            attach_copied_path,
        }
    }

    /// The row that holds the article and the stored attachments of `v`
    /// under a fresh identifier.
    pub fn from(v: (article::Article, Vec<ArticleFile>)) -> (row: Article)
        ensures
            row@ == row_of(v.0@, v.1@.map_values(|f: ArticleFile| f@), row.uid),
    {
        let uid = fresh_token();
        Article::from_with(v, uid)
    }
}

} // verus!
