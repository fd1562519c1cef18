//! The poller: which lines of the board are new, and how far the cursor moves.

use crate::article::list::ListError;
use crate::collector::board::board_of;
use crate::collector::board::collect_list;
use crate::collector::board::metas_view;
use crate::collector::board::PageMeta;
use crate::collector::board::PageMetaView;
use vstd::prelude::*;

verus! {

/// How many lines wait between the poller and the workers at most.
pub const META_QUEUE_CAPACITY: usize = 10000;

/// How many articles wait between the workers and the writer at most.
pub const ARTICLE_QUEUE_CAPACITY: usize = 10000;

/// The seconds between two polls of the board.
pub const POLL_INTERVAL_SECS: u64 = 1;

/// The seconds between two passes of the search for deleted articles.
pub const DELETE_INTERVAL_SECS: u64 = 20;

/// The largest number among `metas`, or `floor` if that is larger or `metas`
/// is empty.
pub open spec fn highest(floor: u64, metas: Seq<PageMetaView>) -> u64
    decreases metas.len(),
{
    if metas.len() == 0 {
        floor
    } else {
        let before = highest(floor, metas.drop_last());
        if metas.last().id > before {
            metas.last().id
        } else {
            before
        }
    }
}

/// The lines of `metas` whose number is above `after`, in order.
pub open spec fn newer(metas: Seq<PageMetaView>, after: u64) -> Seq<PageMetaView> {
    metas.filter(|m: PageMetaView| m.id > after)
}

/// The cursor never moves back.
pub proof fn lemma_highest_bounds(floor: u64, metas: Seq<PageMetaView>)
    ensures
        highest(floor, metas) >= floor,
        forall|i: int| 0 <= i < metas.len() ==> highest(floor, metas) >= (#[trigger] metas[i]).id,
        highest(floor, metas) == floor || exists|i: int|
            0 <= i < metas.len() && highest(floor, metas) == (#[trigger] metas[i]).id,
    decreases metas.len(),
{
    if metas.len() > 0 {
        let front = metas.drop_last();
        lemma_highest_bounds(floor, front);
        assert forall|i: int| 0 <= i < metas.len() implies highest(floor, metas) >= (
        #[trigger] metas[i]).id by {
            if i < front.len() {
                assert(front[i] == metas[i]);
            }
        }
        if highest(floor, metas) != floor {
            if highest(floor, metas) == metas.last().id {
                assert(metas[metas.len() - 1] == metas.last());
            } else {
                let i = choose|i: int|
                    0 <= i < front.len() && highest(floor, front) == (#[trigger] front[i]).id;
                assert(front[i] == metas[i]);
            }
        }
    }
}

/// The cursor to start from: the largest number that storage holds, or zero
/// where it holds none or could not tell.
pub fn start_after(last_id: Option<u64>) -> (after: u64)
    ensures
        after == match last_id {
            Some(id) => id,
            None => 0,
        },
{
    match last_id {
        Some(id) => id,
        None => 0,
    }
}

/// Picks the lines of one page of the board that lie above the cursor, and
/// then moves the cursor up to the largest number on the page. The lines are
/// held against the cursor as it was before the call, so a line that shares
/// the page with a larger number is not lost.
pub fn collect_metas(after: &mut u64, metas: Vec<PageMeta>) -> (fresh: Vec<PageMeta>)
    ensures
        metas_view(fresh@) == newer(metas_view(metas@), *old(after)),
        *final(after) == highest(*old(after), metas_view(metas@)),
        *final(after) >= *old(after),
{
    let cursor: u64 = *after;
    let mut top: u64 = cursor;
    let mut fresh: Vec<PageMeta> = Vec::new();
    let ghost all = metas_view(metas@);
    assert(all.take(0) =~= Seq::empty());
    assert(metas_view(fresh@) =~= Seq::empty());
    for m in it: metas
        invariant
            metas_view(it.seq()) == all,
            metas_view(fresh@) == newer(all.take(it.index() as int), cursor),
            top == highest(cursor, all.take(it.index() as int)),
    {
        let ghost before = metas_view(fresh@);
        proof {
            let next = all.take(it.index() + 1);
            assert(next.drop_last() =~= all.take(it.index() as int));
            assert(next.last() == m@);
            reveal(Seq::filter);
        }
        if m.id > top {
            top = m.id;
        }
        if m.id > cursor {
            fresh.push(m);
            assert(metas_view(fresh@) =~= before.push(m@));
        }
    }
    proof {
        assert(all.take(all.len() as int) =~= all);
        lemma_highest_bounds(cursor, all);
    }
    *after = top;
    fresh
}

/// What one tick of the poller gives when the board read as `page`: the new
/// lines and the cursor after them. A board that could not be read gives no
/// lines and leaves the cursor where it was.
pub open spec fn polled(after: u64, page: Result<Seq<PageMetaView>, ListError>) -> (
    Seq<PageMetaView>,
    u64,
) {
    match page {
        Ok(metas) => (newer(metas, after), highest(after, metas)),
        Err(_) => (Seq::empty(), after),
    }
}

/// One tick of the poller: `html` is the listing page as it was fetched, or
/// `None` where the request failed. Returns the lines that are new and moves
/// the cursor; a page that could not be fetched or read is skipped.
pub fn poll(after: &mut u64, html: Option<&str>) -> (fresh: Vec<PageMeta>)
    ensures
        (metas_view(fresh@), *final(after)) == polled(
            *old(after),
            match html {
                Some(h) => board_of(h@),
                None => Err(ListError::Selector),
            },
        ),
        *final(after) >= *old(after),
{
    let page = match html {
        Some(h) => collect_list(h),
        None => Err(ListError::Selector),
    };
    match page {
        Ok(metas) => collect_metas(after, metas),
        Err(_) => {
            let none: Vec<PageMeta> = Vec::new();
            assert(metas_view(none@) =~= Seq::empty());
            none
        },
    }
}

} // verus!
