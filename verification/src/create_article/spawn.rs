//! The round of the service: one request for the listing, then one request
//! for each article on it, each after a tick of the clock.

use crate::article::list::ArticleHeader;
use vstd::prelude::*;

verus! {

/// The seconds between two ticks.
pub const TICK_SECS: u64 = 1;

/// What the service asks for at a tick.
#[derive(Clone, Copy, PartialEq, Eq, Structural, Debug)]
pub enum Fetch {
    /// The listing.
    Listing,
    /// The article with this number.
    Article(u64),
}

/// The state of the service: the numbers of the articles of the current
/// listing that are still to be fetched, the next one last.
pub struct Round {
    pub queue: Vec<u64>,
}

/// What the service asks for at a tick when `queue` holds the articles that
/// are left, the next one last: the next article, or a new listing when none
/// is left.
pub open spec fn due(queue: Seq<u64>) -> Fetch {
    if queue.len() == 0 {
        Fetch::Listing
    } else {
        Fetch::Article(queue.last())
    }
}

/// The numbers of `headers`, the first one last.
pub open spec fn queued(headers: Seq<ArticleHeader>) -> Seq<u64> {
    Seq::new(headers.len(), |i: int| headers[headers.len() - 1 - i].id)
}

impl Round {
    /// The service before its first tick.
    pub fn new() -> (r: Round)
        ensures
            r.queue@ == Seq::<u64>::empty(),
    {
        Round { queue: Vec::new() }
    }

    /// Takes the answer to a request for the listing: its headers, or `None`
    /// where the request or the reading failed, which leaves the queue empty so
    /// that the next tick asks again.
    pub fn listed(&mut self, headers: Option<Vec<ArticleHeader>>)
        ensures
            final(self).queue@ == match headers {
                Some(h) => queued(h@),
                None => Seq::<u64>::empty(),
            },
    {
        let mut queue: Vec<u64> = Vec::new();
        match headers {
            None => {},
            Some(h) => {
                let mut i: usize = h.len();
                while i > 0
                    invariant
                        i <= h.len(),
                        queue@.len() == h.len() - i,
                        forall|j: int|
                            0 <= j < queue@.len() ==> queue@[j] == h@[h.len() - 1 - j].id,
                    decreases i,
                {
                    i = i - 1;
                    queue.push(h[i].id);
                }
                assert(queue@ =~= queued(h@));
            },
        }
        self.queue = queue;
    }
}

/// One tick of the service: says what to ask for. An article that is asked
/// for leaves the queue, whether or not the request succeeds.
pub fn run(round: &mut Round) -> (fetch: Fetch)
    ensures
        fetch == due(old(round).queue@),
        final(round).queue@ == if old(round).queue@.len() == 0 {
            old(round).queue@
        } else {
            old(round).queue@.drop_last()
        },
{
    match round.queue.pop() {
        Some(id) => Fetch::Article(id),
        None => Fetch::Listing,
    }
}

} // verus!
