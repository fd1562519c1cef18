//! Attachments of an article: the name under which a downloaded file is
//! stored, and the bookkeeping of a run of downloads that either resolves every
//! attachment or none.

use crate::stamp::fresh_token;
use crate::stamp::render_token;
use crate::stamp::token_text;
use crate::text::chars_of;
use crate::text::find_last;
use crate::text::find_first;
use crate::text::first_index_of;
use crate::text::last_index_of;
use crate::text::starts_with_at;
use crate::text::string_of;
use crate::text::strip_prefix_all;
use crate::text::strip_prefix_front;
use crate::text::trim_back;
use crate::text::trim_front;
use crate::text::trim_of;
use crate::text::trim_start_of;
use crate::text::Strip;
use vstd::prelude::*;

verus! {

/// An attachment that has been downloaded and stored.
pub struct ArticleFile {
    /// The address that the article's body gave for it.
    pub origin_src: String,
    /// Where its bytes were written.
    pub copied_path: String,
}

/// What an [`ArticleFile`] holds.
pub struct ArticleFileView {
    pub origin_src: Seq<char>,
    pub copied_path: Seq<char>,
}

impl View for ArticleFile {
    type V = ArticleFileView;

    open spec fn view(&self) -> ArticleFileView {
        ArticleFileView { origin_src: self.origin_src@, copied_path: self.copied_path@ }
    }
}

/// The views of a list of stored attachments.
pub open spec fn files_view(files: Seq<ArticleFile>) -> Seq<ArticleFileView> {
    files.map_values(|f: ArticleFile| f@)
}

/// The views of a list of strings.
pub open spec fn texts_view(texts: Seq<String>) -> Seq<Seq<char>> {
    texts.map_values(|t: String| t@)
}

/// A run of downloads in progress: the attachments of one article, of which
/// the first few are stored and at least one is still to be fetched.
pub struct Downloads {
    referer: String,
    sources: Vec<String>,
    files: Vec<ArticleFile>,
}

/// What a [`Downloads`] holds.
pub struct DownloadsView {
    /// The page that the attachments belong to, sent along with each request.
    pub referer: Seq<char>,
    /// The addresses of all attachments, in the order of the article's body.
    pub sources: Seq<Seq<char>>,
    /// The attachments stored so far: the first ones of `sources`.
    pub files: Seq<ArticleFileView>,
}

impl DownloadsView {
    /// Something is left to fetch, and what is stored answers the first
    /// sources one by one.
    pub open spec fn wf(self) -> bool {
        &&& self.files.len() < self.sources.len()
        &&& forall|i: int|
            0 <= i < self.files.len() ==> (#[trigger] self.files[i]).origin_src == self.sources[i]
    }

    /// The address to fetch next.
    pub open spec fn pending(self) -> Seq<char> {
        self.sources[self.files.len() as int]
    }
}

/// Where a run of downloads stands.
pub enum SaveStep {
    /// One more attachment is to be fetched: `Downloads::pending`.
    Fetch(Downloads),
    /// Every attachment is stored.
    Done(Vec<ArticleFile>),
    /// The download of the address given failed: the run is over and nothing
    /// of it is to be kept.
    Failed(String),
}

/// What a [`SaveStep`] holds.
pub enum SaveStepView {
    Fetch(DownloadsView),
    Done(Seq<ArticleFileView>),
    Failed(Seq<char>),
}

impl View for SaveStep {
    type V = SaveStepView;

    open spec fn view(&self) -> SaveStepView {
        match self {
            SaveStep::Fetch(d) => SaveStepView::Fetch(d@),
            SaveStep::Done(files) => SaveStepView::Done(files_view(files@)),
            SaveStep::Failed(src) => SaveStepView::Failed(src@),
        }
    }
}

/// Where a run over `sources` stands before anything is fetched.
pub open spec fn first_step(referer: Seq<char>, sources: Seq<Seq<char>>) -> SaveStepView {
    if sources.len() == 0 {
        SaveStepView::Done(Seq::empty())
    } else {
        SaveStepView::Fetch(DownloadsView { referer, sources, files: Seq::empty() })
    }
}

/// Where the run `d` stands once the download of its pending address has
/// ended: with the path of the stored file, or with `None` where it failed.
pub open spec fn next_step(d: DownloadsView, outcome: Option<Seq<char>>) -> SaveStepView {
    match outcome {
        None => SaveStepView::Failed(d.pending()),
        Some(path) => {
            let files = d.files.push(
                ArticleFileView { origin_src: d.pending(), copied_path: path },
            );
            if files.len() == d.sources.len() {
                SaveStepView::Done(files)
            } else {
                SaveStepView::Fetch(DownloadsView { files, ..d })
            }
        },
    }
}

/// Where a run stands after the downloads have ended as `outcomes` say, one
/// after the other. Outcomes that come after the run is over change nothing.
pub open spec fn after_outcomes(step: SaveStepView, outcomes: Seq<Option<Seq<char>>>) -> SaveStepView
    decreases outcomes.len(),
{
    if outcomes.len() == 0 {
        step
    } else {
        match step {
            SaveStepView::Fetch(d) => after_outcomes(
                next_step(d, outcomes[0]),
                outcomes.drop_first(),
            ),
            _ => step,
        }
    }
}

impl View for Downloads {
    type V = DownloadsView;

    closed spec fn view(&self) -> DownloadsView {
        DownloadsView {
            referer: self.referer@,
            sources: texts_view(self.sources@),
            files: files_view(self.files@),
        }
    }
}

impl Downloads {
    #[verifier::type_invariant]
    spec fn inv(self) -> bool {
        self@.wf()
    }

    /// The address to fetch next.
    pub fn pending(&self) -> (src: &String)
        ensures
            self@.wf(),
            src@ == self@.pending(),
    {
        proof {
            use_type_invariant(self);
        }
        &self.sources[self.files.len()]
    }

    /// The page to name as referer in the request.
    pub fn referer(&self) -> (page: &String)
        ensures
            page@ == self@.referer,
    {
        &self.referer
    }

    /// Takes note of how the download of the pending address ended: `outcome`
    /// is the path of the stored file, or `None` where the download failed.
    pub fn advance(self, outcome: Option<String>) -> (step: SaveStep)
        ensures
            step@ == next_step(self@, owned_view(outcome)),
    {
        proof {
            use_type_invariant(&self);
        }
        let ghost before = self@;
        let Downloads { referer, sources, files } = self;
        let mut files = files;
        let src = sources[files.len()].clone();
        match outcome {
            None => SaveStep::Failed(src),
            Some(path) => {
                let ghost added = ArticleFileView { origin_src: src@, copied_path: path@ };
                files.push(ArticleFile { origin_src: src, copied_path: path });
                assert(files_view(files@) =~= before.files.push(added));
                if files.len() == sources.len() {
                    SaveStep::Done(files)
                } else {
                    SaveStep::Fetch(Downloads { referer, sources, files })
                }
            },
        }
    }
}

/// The view of an optional owned string.
pub open spec fn owned_view(s: Option<String>) -> Option<Seq<char>> {
    match s {
        Some(t) => Some(t@),
        None => None,
    }
}

/// Starts the downloads of the attachments at `attach_src`, each to be
/// requested with `referer`.
pub fn save_files(attach_src: Vec<String>, referer: &str) -> (step: SaveStep)
    ensures
        step@ == first_step(referer@, texts_view(attach_src@)),
{
    if attach_src.len() == 0 {
        let files: Vec<ArticleFile> = Vec::new();
        assert(files_view(files@) =~= Seq::empty());
        SaveStep::Done(files)
    } else {
        let files: Vec<ArticleFile> = Vec::new();
        assert(files_view(files@) =~= Seq::empty());
        SaveStep::Fetch(Downloads { referer: referer.to_owned(), sources: attach_src, files })
    }
}

/// What holds of the step `end` that the run `d` has reached after
/// `outcomes`: every file stored before is still there, each outcome that was
/// consumed stored one file for the source it belongs to, and the run failed
/// at the first outcome that was `None`.
pub open spec fn reached(d: DownloadsView, outcomes: Seq<Option<Seq<char>>>, end: SaveStepView) -> bool {
    let done = d.files.len() as int;
    match end {
        SaveStepView::Done(files) => {
            &&& files.len() == d.sources.len()
            &&& files.take(done) == d.files
            &&& outcomes.len() >= d.sources.len() - done
            &&& forall|j: int|
                0 <= j < d.sources.len() - done ==> (#[trigger] outcomes[j]) is Some && files[done
                    + j] == (ArticleFileView {
                    origin_src: d.sources[done + j],
                    copied_path: outcomes[j]->0,
                })
        },
        SaveStepView::Failed(src) => exists|j: int|
            {
                &&& 0 <= j < outcomes.len()
                &&& done + j < d.sources.len()
                &&& (#[trigger] outcomes[j]) is None
                &&& src == d.sources[done + j]
                &&& forall|i: int| 0 <= i < j ==> (#[trigger] outcomes[i]) is Some
            },
        SaveStepView::Fetch(rest) => {
            &&& rest.wf()
            &&& rest.referer == d.referer
            &&& rest.sources == d.sources
            &&& rest.files.len() == done + outcomes.len()
            &&& rest.files.take(done) == d.files
            &&& forall|j: int|
                0 <= j < outcomes.len() ==> (#[trigger] outcomes[j]) is Some && rest.files[done
                    + j] == (ArticleFileView {
                    origin_src: d.sources[done + j],
                    copied_path: outcomes[j]->0,
                })
        },
    }
}

/// A run of downloads resolves every attachment or none: from any run in
/// progress, whatever the outcomes, the run ends in `Done` only if each
/// remaining source got its file, in order, and it ends in `Failed` as soon as
/// one download fails.
pub proof fn lemma_run_reaches(d: DownloadsView, outcomes: Seq<Option<Seq<char>>>)
    requires
        d.wf(),
    ensures
        reached(d, outcomes, after_outcomes(SaveStepView::Fetch(d), outcomes)),
    decreases outcomes.len(),
{
    let done = d.files.len() as int;
    let end = after_outcomes(SaveStepView::Fetch(d), outcomes);
    if outcomes.len() == 0 {
        assert(d.files.take(done) =~= d.files);
    } else {
        let rest = outcomes.drop_first();
        let step = next_step(d, outcomes[0]);
        assert(end == after_outcomes(step, rest));
        match step {
            SaveStepView::Failed(src) => {
                assert(end == step);
                assert(outcomes[0] is None);
            },
            SaveStepView::Done(files) => {
                assert(end == step);
                assert(files.take(done) =~= d.files);
                assert(outcomes[0] is Some);
            },
            SaveStepView::Fetch(next) => {
                assert(next.wf());
                lemma_run_reaches(next, rest);
                assert(next.files.take(done) =~= d.files);
                match end {
                    SaveStepView::Done(files) => {
                        assert(files.take(done + 1) == next.files);
                        assert(files.take(done) =~= files.take(done + 1).take(done));
                        assert forall|j: int| 0 <= j < d.sources.len() - done implies (
                        #[trigger] outcomes[j]) is Some && files[done + j] == (ArticleFileView {
                            origin_src: d.sources[done + j],
                            copied_path: outcomes[j]->0,
                        }) by {
                            if j == 0 {
                                assert(files[done] == files.take(done + 1)[done]);
                            } else {
                                assert(outcomes[j] == rest[j - 1]);
                            }
                        }
                    },
                    SaveStepView::Failed(src) => {
                        let j = choose|j: int|
                            {
                                &&& 0 <= j < rest.len()
                                &&& done + 1 + j < next.sources.len()
                                &&& (#[trigger] rest[j]) is None
                                &&& src == next.sources[done + 1 + j]
                                &&& forall|i: int| 0 <= i < j ==> (#[trigger] rest[i]) is Some
                            };
                        assert(outcomes[j + 1] == rest[j]);
                        assert forall|i: int| 0 <= i < j + 1 implies (
                        #[trigger] outcomes[i]) is Some by {
                            if i > 0 {
                                assert(outcomes[i] == rest[i - 1]);
                            }
                        }
                    },
                    SaveStepView::Fetch(last) => {
                        assert(last.files.take(done) =~= last.files.take(done + 1).take(done));
                        assert forall|j: int| 0 <= j < outcomes.len() implies (
                        #[trigger] outcomes[j]) is Some && last.files[done + j] == (
                        ArticleFileView {
                            origin_src: d.sources[done + j],
                            copied_path: outcomes[j]->0,
                        }) by {
                            if j == 0 {
                                assert(last.files[done] == last.files.take(done + 1)[done]);
                            } else {
                                assert(outcomes[j] == rest[j - 1]);
                            }
                        }
                    },
                }
            },
        }
    }
}

/// All or nothing, from the start: the downloads of `sources` end in `Done`
/// exactly with one file per source, stored where the outcomes say, and in
/// `Failed` at the first download that fails. No run ends with a part of the
/// files.
pub proof fn lemma_all_or_nothing(
    referer: Seq<char>,
    sources: Seq<Seq<char>>,
    outcomes: Seq<Option<Seq<char>>>,
)
    ensures
        match after_outcomes(first_step(referer, sources), outcomes) {
            SaveStepView::Done(files) => {
                &&& files.len() == sources.len() <= outcomes.len()
                &&& forall|j: int|
                    0 <= j < sources.len() ==> (#[trigger] outcomes[j]) is Some && files[j] == (
                    ArticleFileView { origin_src: sources[j], copied_path: outcomes[j]->0 })
            },
            SaveStepView::Failed(src) => exists|j: int|
                {
                    &&& 0 <= j < outcomes.len()
                    &&& j < sources.len()
                    &&& (#[trigger] outcomes[j]) is None
                    &&& src == sources[j]
                    &&& forall|i: int| 0 <= i < j ==> (#[trigger] outcomes[i]) is Some
                },
            SaveStepView::Fetch(rest) => {
                &&& outcomes.len() < sources.len()
                &&& rest.files.len() == outcomes.len()
                &&& forall|j: int| 0 <= j < outcomes.len() ==> (#[trigger] outcomes[j]) is Some
            },
        },
{
    if sources.len() == 0 {
        if outcomes.len() > 0 {
            assert(after_outcomes(first_step(referer, sources), outcomes) == first_step(
                referer,
                sources,
            ));
        }
    } else {
        let d = DownloadsView { referer, sources, files: Seq::empty() };
        lemma_run_reaches(d, outcomes);
    }
}

/// The parameter of a `Content-Disposition` header that carries the file name.
pub open spec fn filename_key() -> Seq<char> {
    "filename="@
}

/// The extension given to a file whose header hints at none.
pub open spec fn default_extension() -> Seq<char> {
    "jpg"@
}

/// The final segment of the path `p`, as `/` divides it: empty segments and
/// `.` segments at the end are passed over, and a final `..` is no name.
pub open spec fn file_name(p: Seq<char>) -> Option<Seq<char>>
    decreases p.len(),
{
    let cut = last_index_of(p, '/');
    let last = p.skip(cut + 1);
    if last.len() == 0 || last =~= seq!['.'] {
        if 0 <= cut < p.len() {
            file_name(p.take(cut))
        } else {
            None
        }
    } else if last =~= seq!['.', '.'] {
        None
    } else {
        Some(last)
    }
}

/// The extension of the path `p`: what follows the last dot of its file name,
/// unless the name has no dot or only the one it begins with.
pub open spec fn extension_of(p: Seq<char>) -> Option<Seq<char>> {
    match file_name(p) {
        Some(name) => {
            let dot = last_index_of(name, '.');
            if dot > 0 {
                Some(name.skip(dot + 1))
            } else {
                None
            }
        },
        None => None,
    }
}

/// Whether a `;`-separated part of the header is the file-name parameter.
pub open spec fn is_filename_part(part: Seq<char>) -> bool {
    filename_key().is_prefix_of(trim_start_of(part, Strip::Space))
}

/// The first `;`-separated part of `header` that is the file-name parameter.
pub open spec fn filename_part(header: Seq<char>) -> Option<Seq<char>>
    decreases header.len(),
{
    let end = first_index_of(header, ';');
    let part = header.take(end);
    if is_filename_part(part) {
        Some(part)
    } else if 0 <= end < header.len() {
        filename_part(header.skip(end + 1))
    } else {
        None
    }
}

/// The file name that a file-name parameter hints at: the part without the
/// white space around it, without its key and without the quotes around the
/// value.
pub open spec fn hinted_name(part: Seq<char>) -> Seq<char> {
    trim_of(strip_prefix_all(trim_of(part, Strip::Space), filename_key()), Strip::Quote)
}

/// The extension that `header` hints at, if it hints at one.
pub open spec fn extension_hint(header: Seq<char>) -> Option<Seq<char>> {
    match filename_part(header) {
        Some(part) => extension_of(hinted_name(part)),
        None => None,
    }
}

/// The extension under which an attachment is stored, given the value of the
/// `Content-Disposition` header of its download, if there was one.
pub open spec fn stored_extension(header: Option<Seq<char>>) -> Seq<char> {
    match header {
        Some(h) => match extension_hint(h) {
            Some(ext) => ext,
            None => default_extension(),
        },
        None => default_extension(),
    }
}

/// The name under which an attachment is stored.
pub open spec fn stored_name(token: u128, header: Option<Seq<char>>) -> Seq<char> {
    token_text(token) + seq!['.'] + stored_extension(header)
}

/// The view of an optional string.
pub open spec fn text_view(s: Option<&str>) -> Option<Seq<char>> {
    match s {
        Some(t) => Some(t@),
        None => None,
    }
}

/// The bounds of the file name of the path `v[lo..hi]`.
fn file_name_bounds(v: &Vec<char>, lo: usize, hi: usize) -> (r: Option<(usize, usize)>)
    requires
        lo <= hi <= v.len(),
    ensures
        match r {
            Some((a, b)) => lo <= a <= b <= hi && file_name(v@.subrange(lo as int, hi as int))
                == Some(v@.subrange(a as int, b as int)),
            None => file_name(v@.subrange(lo as int, hi as int)) is None,
        },
{
    let mut end: usize = hi;
    loop
        invariant
            lo <= end <= hi <= v.len(),
            file_name(v@.subrange(lo as int, hi as int)) == file_name(
                v@.subrange(lo as int, end as int),
            ),
        decreases end - lo,
    {
        let ghost p = v@.subrange(lo as int, end as int);
        let cut = find_last(v, lo, end, '/');
        let start: usize = match cut {
            Some(i) => i + 1,
            None => lo,
        };
        let n: usize = end - start;
        proof {
            assert(p.skip(last_index_of(p, '/') + 1) =~= v@.subrange(start as int, end as int));
        }
        if n == 0 || (n == 1 && v[start] == '.') {
            proof {
                if n == 1 {
                    assert(v@.subrange(start as int, end as int) =~= seq!['.']);
                }
            }
            match cut {
                None => {
                    return None;
                },
                Some(i) => {
                    assert(p.take(i - lo) =~= v@.subrange(lo as int, i as int));
                    end = i;
                },
            }
        } else if n == 2 && v[start] == '.' && v[start + 1] == '.' {
            proof {
                assert(v@.subrange(start as int, end as int) =~= seq!['.', '.']);
                assert(v@.subrange(start as int, end as int)[0] == '.');
            }
            return None;
        } else {
            proof {
                let last = v@.subrange(start as int, end as int);
                if last =~= seq!['.'] {
                    assert(last[0] == '.');
                }
                if last =~= seq!['.', '.'] {
                    assert(last[0] == '.' && last[1] == '.');
                }
            }
            return Some((start, end));
        }
    }
}

/// The bounds of the extension of the path `v[lo..hi]`.
fn extension_bounds(v: &Vec<char>, lo: usize, hi: usize) -> (r: Option<(usize, usize)>)
    requires
        lo <= hi <= v.len(),
    ensures
        match r {
            Some((a, b)) => lo <= a <= b <= hi && extension_of(v@.subrange(lo as int, hi as int))
                == Some(v@.subrange(a as int, b as int)),
            None => extension_of(v@.subrange(lo as int, hi as int)) is None,
        },
{
    match file_name_bounds(v, lo, hi) {
        None => None,
        Some((a, b)) => match find_last(v, a, b, '.') {
            None => None,
            Some(dot) => {
                if dot > a {
                    assert(v@.subrange(a as int, b as int).skip(dot - a + 1) =~= v@.subrange(
                        dot + 1,
                        b as int,
                    ));
                    Some((dot + 1, b))
                } else {
                    None
                }
            },
        },
    }
}

/// The bounds of the first part of `v` that is the file-name parameter.
fn filename_part_bounds(v: &Vec<char>, key: &Vec<char>) -> (r: Option<(usize, usize)>)
    requires
        key@ == filename_key(),
    ensures
        match r {
            Some((a, b)) => a <= b <= v.len() && filename_part(v@) == Some(
                v@.subrange(a as int, b as int),
            ),
            None => filename_part(v@) is None,
        },
{
    let mut start: usize = 0;
    assert(v@.subrange(0, v.len() as int) =~= v@);
    loop
        invariant
            start <= v.len(),
            key@ == filename_key(),
            filename_part(v@) == filename_part(v@.subrange(start as int, v.len() as int)),
        decreases v.len() - start,
    {
        let ghost rest = v@.subrange(start as int, v.len() as int);
        let end = find_first(v, start, v.len(), ';');
        let body = trim_front(v, start, end, Strip::Space);
        proof {
            assert(rest.take(end - start) =~= v@.subrange(start as int, end as int));
        }
        if starts_with_at(v, body, end, key) {
            return Some((start, end));
        }
        if end == v.len() {
            return None;
        }
        proof {
            assert(rest.skip(end - start + 1) =~= v@.subrange(end + 1, v.len() as int));
        }
        start = end + 1;
    }
}

/// The extension under which a download is stored: the one that the file name
/// in its `Content-Disposition` header ends in, and `jpg` where the header is
/// missing, names no file, or names one without an extension.
pub fn extract_ext_from_cd(header: Option<&str>) -> (ext: String)
    ensures
        ext@ == stored_extension(text_view(header)),
{
    let h = match header {
        Some(h) => h,
        None => {
            return "jpg".to_owned();
        },
    };
    let v = chars_of(h);
    let key = chars_of("filename=");
    let (a, b) = match filename_part_bounds(&v, &key) {
        Some(bounds) => bounds,
        None => {
            return "jpg".to_owned();
        },
    };
    let lo = trim_front(&v, a, b, Strip::Space);
    let hi = trim_back(&v, lo, b, Strip::Space);
    let lo = strip_prefix_front(&v, lo, hi, &key);
    let lo = trim_front(&v, lo, hi, Strip::Quote);
    let hi = trim_back(&v, lo, hi, Strip::Quote);
    assert(v@.subrange(lo as int, hi as int) == hinted_name(v@.subrange(a as int, b as int)));
    match extension_bounds(&v, lo, hi) {
        Some((from, to)) => string_of(&v, from, to),
        None => "jpg".to_owned(),
    }
}

/// The name under which a download is stored when `token` identifies it: the
/// token as a UUID, a dot, and the extension that the header hints at.
pub fn file_name_with(token: u128, header: Option<&str>) -> (name: String)
    ensures
        name@ == stored_name(token, text_view(header)),
{
    let mut name = render_token(token);
    name.append(".");
    proof {
        reveal_strlit(".");
        assert("."@ =~= seq!['.']);
    }
    let ext = extract_ext_from_cd(header);
    name.append(ext.as_str());
    name
}

/// A name for a download that has just arrived, under a token that has never
/// been used before.
pub fn fresh_file_name(header: Option<&str>) -> (name: String)
    ensures
        exists|token: u128| name@ == stored_name(token, text_view(header)),
{
    let token = fresh_token();
    file_name_with(token, header)
}

} // verus!
