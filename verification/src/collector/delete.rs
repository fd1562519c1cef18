//! The search for deleted articles: which articles one pass looks at again,
//! and which notices of deletion it ends with.

use crate::article::article::NOT_FOUND;
use crate::collector::article::Article;
use crate::collector::article::ArticleView;
use crate::collector::article::DeletedArticle;
use crate::collector::entity::window_start;
use crate::collector::entity::MONITOR_WINDOW_MICROS;
use crate::stamp::now_micros;
use vstd::prelude::*;

verus! {

/// The milliseconds to wait between two probes of a pass.
pub const PROBE_DELAY_MILLIS: u64 = 500;

/// The numbers of those of `articles` that are younger than `since`, in
/// order. Without a bound every article counts as young.
pub open spec fn recent(articles: Seq<ArticleView>, since: Option<i64>) -> Seq<u64>
    decreases articles.len(),
{
    if articles.len() == 0 {
        Seq::empty()
    } else {
        let before = recent(articles.drop_last(), since);
        if is_recent(articles.last().timestamp, since) {
            before.push(articles.last().id)
        } else {
            before
        }
    }
}

/// The views of a list of articles.
pub open spec fn views(articles: Seq<Article>) -> Seq<ArticleView> {
    articles.map_values(|a: Article| a@)
}

/// Whether the instant `timestamp` lies after the bound `since`.
pub open spec fn is_recent(timestamp: i64, since: Option<i64>) -> bool {
    match since {
        Some(bound) => timestamp > bound,
        None => true,
    }
}

/// The numbers of the notices `found`, in order.
pub open spec fn notice_ids(found: Seq<DeletedArticle>) -> Seq<u64> {
    found.map_values(|d: DeletedArticle| d.id)
}

/// The numbers that one pass looks at again: those of `candidates`, in
/// order, without the ones that `deleted` holds and without repeats.
pub open spec fn targets_of(candidates: Seq<u64>, deleted: Seq<u64>) -> Seq<u64>
    decreases candidates.len(),
{
    if candidates.len() == 0 {
        Seq::empty()
    } else {
        let before = targets_of(candidates.drop_last(), deleted);
        let id = candidates.last();
        if deleted.contains(id) || before.contains(id) {
            before
        } else {
            before.push(id)
        }
    }
}

/// No number occurs twice in `ids`.
pub open spec fn distinct(ids: Seq<u64>) -> bool {
    forall|i: int, j: int| 0 <= i < j < ids.len() ==> ids[i] != ids[j]
}

/// The targets of a pass are candidates, none of them is marked deleted,
/// and none occurs twice.
pub proof fn lemma_targets(candidates: Seq<u64>, deleted: Seq<u64>)
    ensures
        distinct(targets_of(candidates, deleted)),
        forall|i: int|
            0 <= i < targets_of(candidates, deleted).len() ==> !deleted.contains(
                #[trigger] targets_of(candidates, deleted)[i],
            ) && candidates.contains(targets_of(candidates, deleted)[i]),
    decreases candidates.len(),
{
    if candidates.len() > 0 {
        let front = candidates.drop_last();
        lemma_targets(front, deleted);
        let before = targets_of(front, deleted);
        let all = targets_of(candidates, deleted);
        assert forall|i: int| 0 <= i < all.len() implies !deleted.contains(#[trigger] all[i])
            && candidates.contains(all[i]) by {
            if i < before.len() {
                assert(all[i] == before[i]);
                let k = choose|k: int| 0 <= k < front.len() && front[k] == before[i];
                assert(candidates[k] == all[i]);
            } else {
                assert(candidates[candidates.len() - 1] == all[i]);
            }
        }
    }
}

/// Whether `ids` holds `id`.
pub fn holds(ids: &Vec<u64>, id: u64) -> (b: bool)
    ensures
        b == ids@.contains(id),
{
    let mut i: usize = 0;
    while i < ids.len()
        invariant
            i <= ids.len(),
            forall|j: int| 0 <= j < i ==> ids@[j] != id,
        decreases ids.len() - i,
    {
        if ids[i] == id {
            return true;
        }
        i = i + 1;
    }
    false
}

/// The numbers of those of `candidates` that are younger than `since`, in
/// order.
pub fn recent_ids(candidates: &Vec<Article>, since: Option<i64>) -> (ids: Vec<u64>)
    ensures
        ids@ == recent(views(candidates@), since),
{
    let ghost all = views(candidates@);
    let mut ids: Vec<u64> = Vec::new();
    let mut i: usize = 0;
    assert(all.take(0) =~= Seq::empty());
    while i < candidates.len()
        invariant
            i <= candidates.len(),
            all == views(candidates@),
            ids@ == recent(all.take(i as int), since),
        decreases candidates.len() - i,
    {
        proof {
            assert(all.take(i + 1).drop_last() =~= all.take(i as int));
            assert(all.take(i + 1).last() == candidates[i as int]@);
        }
        let young = match since {
            Some(bound) => candidates[i].timestamp > bound,
            None => true,
        };
        if young {
            ids.push(candidates[i].id);
        }
        i = i + 1;
    }
    assert(all.take(candidates.len() as int) =~= all);
    ids
}

/// The numbers that one pass looks at again: those of `candidates`, in
/// order, without the ones that are already marked deleted and without
/// repeats.
pub fn monitor_targets(candidates: &Vec<u64>, deleted: &Vec<u64>) -> (targets: Vec<u64>)
    ensures
        targets@ == targets_of(candidates@, deleted@),
{
    let mut targets: Vec<u64> = Vec::new();
    let mut i: usize = 0;
    assert(candidates@.take(0) =~= Seq::empty());
    while i < candidates.len()
        invariant
            i <= candidates.len(),
            targets@ == targets_of(candidates@.take(i as int), deleted@),
        decreases candidates.len() - i,
    {
        let id = candidates[i];
        proof {
            assert(candidates@.take(i + 1).drop_last() =~= candidates@.take(i as int));
            assert(candidates@.take(i + 1).last() == id);
        }
        if !holds(deleted, id) && !holds(&targets, id) {
            targets.push(id);
        }
        i = i + 1;
    }
    assert(candidates@.take(candidates.len() as int) =~= candidates@);
    targets
}

/// A pass in progress: the targets, how many of them have been probed, and
/// the notices for those that were found missing.
pub struct DeletePass {
    ids: Vec<u64>,
    next: usize,
    found: Vec<DeletedArticle>,
    deleted: Ghost<Seq<u64>>,
}

/// What a [`DeletePass`] holds.
pub struct DeletePassView {
    /// The numbers to probe, in order.
    pub ids: Seq<u64>,
    /// How many of them have been probed.
    pub next: nat,
    /// The notices for the probed numbers that were found missing.
    pub found: Seq<DeletedArticle>,
    /// The numbers that were marked deleted when the pass began.
    pub deleted: Seq<u64>,
}

impl DeletePassView {
    /// Something is left to probe; no target occurs twice or is marked
    /// deleted; the notices are for targets that were probed, each for another
    /// one.
    pub open spec fn wf(self) -> bool {
        &&& self.next < self.ids.len()
        &&& distinct(self.ids)
        &&& forall|i: int| 0 <= i < self.ids.len() ==> !self.deleted.contains(#[trigger] self.ids[i])
        &&& clean(self.found, self.ids.take(self.next as int), self.deleted)
    }

    /// The number to probe next.
    pub open spec fn pending(self) -> u64 {
        self.ids[self.next as int]
    }
}

/// The notices `found` are for numbers among `probed`, each for another one,
/// and none for a number that `deleted` holds.
pub open spec fn clean(found: Seq<DeletedArticle>, probed: Seq<u64>, deleted: Seq<u64>) -> bool {
    &&& distinct(notice_ids(found))
    &&& forall|k: int|
        0 <= k < found.len() ==> probed.contains((#[trigger] found[k]).id) && !deleted.contains(
            found[k].id,
        )
}

impl View for DeletePass {
    type V = DeletePassView;

    closed spec fn view(&self) -> DeletePassView {
        DeletePassView {
            ids: self.ids@,
            next: self.next as nat,
            found: self.found@,
            deleted: self.deleted@,
        }
    }
}

/// Where a pass stands.
pub enum DeleteStep {
    /// One more target is to be probed: `DeletePass::pending`.
    Probe(DeletePass),
    /// The pass is over and found these articles missing: at least one.
    Insert(Vec<DeletedArticle>),
    /// The pass is over and found nothing missing.
    Nothing,
    /// A probe failed: the pass is given up, and nothing of it is kept.
    Skipped,
}

/// What a [`DeleteStep`] holds.
pub enum DeleteStepView {
    Probe(DeletePassView),
    Insert(Seq<DeletedArticle>),
    Nothing,
    Skipped,
}

impl View for DeleteStep {
    type V = DeleteStepView;

    open spec fn view(&self) -> DeleteStepView {
        match self {
            DeleteStep::Probe(p) => DeleteStepView::Probe(p@),
            DeleteStep::Insert(found) => DeleteStepView::Insert(found@),
            DeleteStep::Nothing => DeleteStepView::Nothing,
            DeleteStep::Skipped => DeleteStepView::Skipped,
        }
    }
}

/// Where the pass stands that has probed `next` of `ids` and found `found`.
pub open spec fn standing(ids: Seq<u64>, next: nat, found: Seq<DeletedArticle>, deleted: Seq<u64>) -> DeleteStepView {
    if next < ids.len() {
        DeleteStepView::Probe(DeletePassView { ids, next, found, deleted })
    } else if found.len() > 0 {
        DeleteStepView::Insert(found)
    } else {
        DeleteStepView::Nothing
    }
}

/// Where the pass `p` stands once the probe of its pending target has
/// ended, seen at `now`: with the status of the answer, or with `None` where
/// the probe failed. A missing page adds a notice for the target.
pub open spec fn after_probe(p: DeletePassView, status: Option<u16>, now: i64) -> DeleteStepView {
    match status {
        None => DeleteStepView::Skipped,
        Some(code) => {
            let found = if code == NOT_FOUND {
                p.found.push(DeletedArticle { id: p.pending(), timestamp: now })
            } else {
                p.found
            };
            standing(p.ids, p.next + 1, found, p.deleted)
        },
    }
}

/// A step is sound for the numbers `deleted` when a pass in progress is well
/// formed and holds `deleted`, and when the notices that end a pass are each
/// for another number, none of them in `deleted`.
pub open spec fn sound(step: DeleteStepView, deleted: Seq<u64>) -> bool {
    match step {
        DeleteStepView::Probe(p) => p.wf() && p.deleted == deleted,
        DeleteStepView::Insert(found) => found.len() > 0 && distinct(notice_ids(found)) && forall|
            k: int,
        | 0 <= k < found.len() ==> !deleted.contains((#[trigger] found[k]).id),
        _ => true,
    }
}

/// No pass emits a second notice for an article that is already marked
/// deleted, nor two notices for one article: a step from a well-formed pass
/// is sound, whatever the probe answered.
pub proof fn lemma_probe_sound(p: DeletePassView, status: Option<u16>, now: i64)
    requires
        p.wf(),
    ensures
        sound(after_probe(p, status, now), p.deleted),
{
    if let Some(code) = status {
        let probed = p.ids.take(p.next as int);
        let more = p.ids.take(p.next as int + 1);
        let found = if code == NOT_FOUND {
            p.found.push(DeletedArticle { id: p.pending(), timestamp: now })
        } else {
            p.found
        };
        assert forall|k: int| 0 <= k < found.len() implies more.contains((#[trigger] found[k]).id)
            && !p.deleted.contains(found[k].id) by {
            if k < p.found.len() {
                let j = choose|j: int| 0 <= j < probed.len() && probed[j] == p.found[k].id;
                assert(more[j] == found[k].id);
            } else {
                assert(more[p.next as int] == found[k].id);
            }
        }
        assert forall|i: int, j: int| 0 <= i < j < found.len() implies notice_ids(found)[i]
            != notice_ids(found)[j] by {
            if j < p.found.len() {
                assert(notice_ids(p.found)[i] != notice_ids(p.found)[j]);
            } else {
                let m = choose|m: int| 0 <= m < probed.len() && probed[m] == p.found[i].id;
                assert(p.ids[m] != p.ids[p.next as int]);
            }
        }
        if p.next + 1 >= p.ids.len() {
            assert(more =~= p.ids);
        }
    }
}

impl DeletePass {
    #[verifier::type_invariant]
    spec fn inv(self) -> bool {
        self@.wf()
    }

    /// The number of the article to probe next.
    pub fn pending(&self) -> (id: u64)
        ensures
            self@.wf(),
            id == self@.pending(),
    {
        proof {
            use_type_invariant(self);
        }
        self.ids[self.next]
    }

    /// Takes note of how the probe of the pending target ended, seen at
    /// `now`: `status` is the status of the answer, or `None` where the probe
    /// failed.
    pub fn advance_at(self, status: Option<u16>, now: i64) -> (step: DeleteStep)
        ensures
            step@ == after_probe(self@, status, now),
            sound(step@, self@.deleted),
    {
        proof {
            use_type_invariant(&self);
            lemma_probe_sound(self@, status, now);
        }
        let DeletePass { ids, next, found, deleted } = self;
        let mut found = found;
        assert(next < ids.len());
        let code = match status {
            Some(code) => code,
            None => {
                return DeleteStep::Skipped;
            },
        };
        if code == NOT_FOUND {
            found.push(DeletedArticle { id: ids[next], timestamp: now });
        }
        let next: usize = next + 1;
        if next < ids.len() {
            DeleteStep::Probe(DeletePass { ids, next, found, deleted })
        } else if found.len() > 0 {
            DeleteStep::Insert(found)
        } else {
            DeleteStep::Nothing
        }
    }

    /// Takes note of how the probe of the pending target ended, and stamps
    /// the notice, if the article is missing, with the current time.
    pub fn advance(self, status: Option<u16>) -> (step: DeleteStep)
        ensures
            exists|now: i64| step@ == after_probe(self@, status, now),
            sound(step@, self@.deleted),
    {
        let now = now_micros();
        self.advance_at(status, now)
    }
}

/// Where a pass stands before anything is probed, when the time is `now`,
/// the storage returned the articles `candidates` and `deleted` holds the
/// numbers that are already marked deleted: its targets are the candidates
/// within the window before `now` that are not marked deleted, each once.
pub open spec fn first_probe(candidates: Seq<ArticleView>, deleted: Seq<u64>, now: i64) -> DeleteStepView {
    standing(targets_of(recent(candidates, window_start(now)), deleted), 0, Seq::empty(), deleted)
}

/// Begins a pass at the time `now` over the articles `candidates` that the
/// storage returned, where `deleted` holds the numbers that are already marked
/// deleted.
pub fn collect_delete_at(candidates: &Vec<Article>, deleted: &Vec<u64>, now: i64) -> (step:
    DeleteStep)
    ensures
        step@ == first_probe(views(candidates@), deleted@, now),
        sound(step@, deleted@),
{
    let young = recent_ids(candidates, now.checked_sub(MONITOR_WINDOW_MICROS));
    let ids = monitor_targets(&young, deleted);
    proof {
        lemma_targets(young@, deleted@);
        assert(ids@.take(0) =~= Seq::empty());
    }
    if ids.len() > 0 {
        let found: Vec<DeletedArticle> = Vec::new();
        DeleteStep::Probe(DeletePass { ids, next: 0, found, deleted: Ghost(deleted@) })
    } else {
        DeleteStep::Nothing
    }
}

/// Begins a pass now over the articles `candidates` that the storage
/// returned, where `deleted` holds the numbers that are already marked deleted.
pub fn collect_delete(candidates: &Vec<Article>, deleted: &Vec<u64>) -> (step: DeleteStep)
    ensures
        exists|now: i64| step@ == #[trigger] first_probe(views(candidates@), deleted@, now),
        sound(step@, deleted@),
{
    let now = now_micros();
    collect_delete_at(candidates, deleted, now)
}

} // verus!
