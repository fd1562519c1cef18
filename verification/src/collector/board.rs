//! The board: the listing as the poller sees it.

use crate::article::list::headers_view;
use crate::article::list::listing_of;
use crate::article::list::ArticleHeader;
use crate::article::list::ArticleHeaderView;
use crate::article::list::ListError;
use vstd::prelude::*;

verus! {

/// One line of the board.
#[derive(Debug)]
pub struct PageMeta {
    pub id: u64,
    pub title: String,
    pub has_image: bool,
}

/// What a [`PageMeta`] holds.
pub struct PageMetaView {
    pub id: u64,
    pub title: Seq<char>,
    pub has_image: bool,
}

impl View for PageMeta {
    type V = PageMetaView;

    open spec fn view(&self) -> PageMetaView {
        PageMetaView { id: self.id, title: self.title@, has_image: self.has_image }
    }
}

/// The views of a list of lines.
pub open spec fn metas_view(metas: Seq<PageMeta>) -> Seq<PageMetaView> {
    metas.map_values(|m: PageMeta| m@)
}

/// The line of the board that a header of the listing stands for.
pub open spec fn meta_of(h: ArticleHeaderView) -> PageMetaView {
    PageMetaView { id: h.id, title: h.title, has_image: h.has_image }
}

/// The board that the document `html` shows: its listing, line by line.
pub open spec fn board_of(html: Seq<char>) -> Result<Seq<PageMetaView>, ListError> {
    match listing_of(html) {
        Ok(headers) => Ok(headers.map_values(|h: ArticleHeaderView| meta_of(h))),
        Err(e) => Err(e),
    }
}

/// The view of the outcome of reading the board.
pub open spec fn board_view(r: Result<Vec<PageMeta>, ListError>) -> Result<
    Seq<PageMetaView>,
    ListError,
> {
    match r {
        Ok(metas) => Ok(metas_view(metas@)),
        Err(e) => Err(e),
    }
}

/// The lines of the board that the headers `headers` stand for.
pub fn metas_from(headers: Vec<ArticleHeader>) -> (metas: Vec<PageMeta>)
    ensures
        metas_view(metas@) == headers_view(headers@).map_values(|h: ArticleHeaderView| meta_of(h)),
{
    let mut metas: Vec<PageMeta> = Vec::new();
    let ghost all = headers_view(headers@);
    for h in it: headers
        invariant
            it.seq().map_values(|h: ArticleHeader| h@) == all,
            metas@.len() == it.index(),
            forall|j: int| 0 <= j < it.index() ==> (#[trigger] metas@[j])@ == meta_of(all[j]),
    {
        let ArticleHeader { id, title, has_image } = h;
        assert(all[it.index() as int] == h@);
        metas.push(PageMeta { id, title, has_image });
    }
    assert(metas_view(metas@) =~= all.map_values(|h: ArticleHeaderView| meta_of(h)));
    metas
}

/// Reads the board that the document `html` shows.
pub fn collect_list(html: &str) -> (r: Result<Vec<PageMeta>, ListError>)
    ensures
        board_view(r) == board_of(html@),
{
    match crate::article::list::collect_list(html) {
        Ok(headers) => Ok(metas_from(headers)),
        Err(e) => Err(e),
    }
}

} // verus!
