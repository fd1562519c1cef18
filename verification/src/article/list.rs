//! The listing page: the articles that the source currently shows.

use crate::markup::row_texts;
use crate::markup::select_rows;
use crate::text::parse_u64;
use crate::text::parsed_u64;
use crate::text::strip_layout;
use crate::text::without_layout;
use vstd::prelude::*;

verus! {

/// One line of the listing.
#[derive(Debug)]
pub struct ArticleHeader {
    pub id: u64,
    pub title: String,
    pub has_image: bool,
}

/// What an [`ArticleHeader`] holds.
pub struct ArticleHeaderView {
    pub id: u64,
    pub title: Seq<char>,
    pub has_image: bool,
}

impl View for ArticleHeader {
    type V = ArticleHeaderView;

    open spec fn view(&self) -> ArticleHeaderView {
        ArticleHeaderView { id: self.id, title: self.title@, has_image: self.has_image }
    }
}

/// Selects the lines of the listing.
pub const PAGE_META_LIST_SELECTOR: &'static str = ".listwrap2 .ub-content.us-post";

/// Selects, inside a line, the link that holds the title.
pub const PAGE_META_LINK_SELECT: &'static str = ".gall_tit.ub-word a";

/// Selects, inside a line, the element that holds the article's number.
pub const PAGE_META_NUMBER_SELECT: &'static str = ".gall_num";

/// Selects, inside a line, the mark of an article with images.
pub const PAGE_META_HAS_IMAGE_SELECT: &'static str = ".icon_img.icon_pic";

/// The address of the listing.
pub const URL: &'static str = "https://gall.dcinside.com/board/lists/?id=baseball_new13";

/// Why a listing could not be read.
#[derive(Clone, Copy, PartialEq, Eq, Structural, Debug)]
pub enum ListError {
    /// A selector was refused as invalid CSS, or a line did not come with its
    /// three cells.
    Selector,
    /// The number of a line is no unsigned 64-bit decimal number.
    Number,
}

/// The selectors of the three cells of a line: title, number, image mark.
pub open spec fn cell_selectors() -> Seq<Seq<char>> {
    seq![PAGE_META_LINK_SELECT@, PAGE_META_NUMBER_SELECT@, PAGE_META_HAS_IMAGE_SELECT@]
}

/// What one line gives: nothing where it lacks its title or its number, else
/// its header, or an error where the number does not parse.
pub open spec fn header_of(row: Seq<Option<Seq<char>>>) -> Result<
    Option<ArticleHeaderView>,
    ListError,
> {
    if row.len() != 3 {
        Err(ListError::Selector)
    } else if row[0] is None || row[1] is None {
        Ok(None)
    } else {
        match parsed_u64(row[1]->0) {
            None => Err(ListError::Number),
            Some(id) => Ok(
                Some(
                    ArticleHeaderView {
                        id,
                        title: without_layout(row[0]->0),
                        has_image: row[2] is Some,
                    },
                ),
            ),
        }
    }
}

/// The headers of the lines `rows`, in order, without the lines that lack a
/// title or a number. One line that cannot be read fails the whole listing.
pub open spec fn headers_of(rows: Seq<Seq<Option<Seq<char>>>>) -> Result<
    Seq<ArticleHeaderView>,
    ListError,
>
    decreases rows.len(),
{
    if rows.len() == 0 {
        Ok(Seq::empty())
    } else {
        match headers_of(rows.drop_last()) {
            Err(e) => Err(e),
            Ok(before) => match header_of(rows.last()) {
                Err(e) => Err(e),
                Ok(None) => Ok(before),
                Ok(Some(h)) => Ok(before.push(h)),
            },
        }
    }
}

/// The listing that the document `html` shows.
pub open spec fn listing_of(html: Seq<char>) -> Result<Seq<ArticleHeaderView>, ListError> {
    match row_texts(html, PAGE_META_LIST_SELECTOR@, cell_selectors()) {
        None => Err(ListError::Selector),
        Some(rows) => headers_of(rows),
    }
}

/// The views of a list of headers.
pub open spec fn headers_view(headers: Seq<ArticleHeader>) -> Seq<ArticleHeaderView> {
    headers.map_values(|h: ArticleHeader| h@)
}

/// The view of the outcome of reading a listing.
pub open spec fn listing_view(r: Result<Vec<ArticleHeader>, ListError>) -> Result<
    Seq<ArticleHeaderView>,
    ListError,
> {
    match r {
        Ok(headers) => Ok(headers_view(headers@)),
        Err(e) => Err(e),
    }
}

/// Reads the header of one line from its three cells.
pub fn header_from(row: &Vec<Option<String>>) -> (r: Result<Option<ArticleHeader>, ListError>)
    ensures
        match r {
            Ok(Some(h)) => header_of(row.deep_view()) == Ok::<_, ListError>(Some(h@)),
            Ok(None) => header_of(row.deep_view()) == Ok::<Option<ArticleHeaderView>, ListError>(
                None,
            ),
            Err(e) => header_of(row.deep_view()) == Err::<Option<ArticleHeaderView>, _>(e),
        },
{
    if row.len() != 3 {
        return Err(ListError::Selector);
    }
    proof {
        assert(row.deep_view()[0] == row[0].deep_view());
        assert(row.deep_view()[1] == row[1].deep_view());
        assert(row.deep_view()[2] == row[2].deep_view());
    }
    let link = match &row[0] {
        Some(text) => text,
        None => {
            return Ok(None);
        },
    };
    let number = match &row[1] {
        Some(text) => text,
        None => {
            return Ok(None);
        },
    };
    match parse_u64(number.as_str()) {
        None => Err(ListError::Number),
        Some(id) => Ok(
            Some(
                ArticleHeader {
                    id,
                    title: strip_layout(link.as_str()),
                    has_image: row[2].is_some(),
                },
            ),
        ),
    }
}

/// Reads the headers of a listing from the cells of its lines.
pub fn headers_from(rows: &Vec<Vec<Option<String>>>) -> (r: Result<Vec<ArticleHeader>, ListError>)
    ensures
        listing_view(r) == headers_of(rows.deep_view()),
{
    let mut result: Vec<ArticleHeader> = Vec::new();
    let ghost all = rows.deep_view();
    let mut i: usize = 0;
    assert(all.take(0) =~= Seq::empty());
    assert(headers_view(result@) =~= Seq::empty());
    while i < rows.len()
        invariant
            i <= rows.len(),
            all == rows.deep_view(),
            headers_of(all.take(i as int)) == Ok::<_, ListError>(headers_view(result@)),
        decreases rows.len() - i,
    {
        let ghost before = headers_view(result@);
        proof {
            assert(all.take(i + 1).drop_last() =~= all.take(i as int));
            assert(all.take(i + 1).last() == rows[i as int].deep_view());
        }
        match header_from(&rows[i]) {
            Err(e) => {
                proof {
                    lemma_headers_fail(all, i + 1);
                }
                return Err(e);
            },
            Ok(None) => {},
            Ok(Some(h)) => {
                result.push(h);
                assert(headers_view(result@) =~= before.push(h@));
            },
        }
        i = i + 1;
    }
    assert(all.take(rows.len() as int) =~= all);
    Ok(result)
}

/// Where the first `k` lines cannot be read, neither can the whole listing.
pub proof fn lemma_headers_fail(rows: Seq<Seq<Option<Seq<char>>>>, k: int)
    requires
        0 <= k <= rows.len(),
        headers_of(rows.take(k)) is Err,
    ensures
        headers_of(rows) == headers_of(rows.take(k)),
    decreases rows.len(),
{
    if k == rows.len() {
        assert(rows.take(k) =~= rows);
    } else {
        assert(rows.drop_last().take(k) =~= rows.take(k));
        lemma_headers_fail(rows.drop_last(), k);
    }
}

/// Reads the listing that the document `html` shows.
pub fn collect_list(html: &str) -> (r: Result<Vec<ArticleHeader>, ListError>)
    ensures
        listing_view(r) == listing_of(html@),
{
    let mut cells: Vec<&str> = Vec::new();
    cells.push(PAGE_META_LINK_SELECT);
    cells.push(PAGE_META_NUMBER_SELECT);
    cells.push(PAGE_META_HAS_IMAGE_SELECT);
    assert(cells.deep_view() =~= cell_selectors());
    match select_rows(html, PAGE_META_LIST_SELECTOR, &cells) {
        None => Err(ListError::Selector),
        Some(rows) => headers_from(&rows),
    }
}

} // verus!
