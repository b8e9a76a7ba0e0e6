//! Cleaning a cache directory: files older than the age limit go first,
//! then, while the directory is over its size limit, the oldest files.
use vstd::prelude::*;
use crate::cache::CacheCleanResult;
use crate::clock::elapsed_nanos;

verus! {

/// A file found in a cache directory.
pub struct CachedFile {
    pub path: String,
    /// When the file was last modified, in nanoseconds from the Unix epoch
    /// (negative before it).
    pub modified: i128,
    /// Its size in bytes.
    pub size: u64,
}

/// The modification times of `files`.
pub open spec fn modified_times(files: Seq<CachedFile>) -> Seq<i128> {
    files.map_values(|f: CachedFile| f.modified)
}

/// Whether entry `i` of `m` comes before entry `j`: older first, and in the
/// order found among entries of the same age.
pub open spec fn comes_before(m: Seq<i128>, i: int, j: int) -> bool {
    m[i] < m[j] || (m[i] == m[j] && i < j)
}

/// `order` lists every index of `m` once, oldest first, entries of the
/// same age in the order found (the order of a stable sort by age).
pub open spec fn oldest_first(m: Seq<i128>, order: Seq<usize>) -> bool {
    &&& order.len() == m.len()
    &&& forall|k: int| 0 <= k < order.len() ==> order[k] < m.len()
    &&& forall|a: int, b: int|
        0 <= a < b < order.len() ==> comes_before(m, #[trigger] order[a] as int, #[trigger] order[b] as int)
}

/// The indices of `files`, oldest first (a stable sort by modification
/// time).
pub fn oldest_first_order(files: &Vec<CachedFile>) -> (order: Vec<usize>)
    ensures
        oldest_first(modified_times(files@), order@),
{
    let ghost m = modified_times(files@);
    let mut order: Vec<usize> = Vec::new();
    let mut i: usize = 0;
    while i < files.len()
        invariant
            i <= files.len(),
            m == modified_times(files@),
            order.len() == i,
            forall|k: int| 0 <= k < order.len() ==> order[k] < i,
            forall|a: int, b: int|
                0 <= a < b < order.len() ==> comes_before(m, #[trigger] order[a] as int, #[trigger] order[b] as int),
        decreases files.len() - i,
    {
        let t = files[i].modified;
        let mut p: usize = 0;
        while p < order.len() && files[order[p]].modified <= t
            invariant
                p <= order.len(),
                order.len() == i,
                i < files.len(),
                t == m[i as int],
                m == modified_times(files@),
                forall|k: int| 0 <= k < order.len() ==> order[k] < i,
                forall|q: int| 0 <= q < p ==> m[#[trigger] order[q] as int] <= t,
            decreases order.len() - p,
        {
            p = p + 1;
        }
        let ghost old_order = order@;
        proof {
            assert forall|q: int| p <= q < old_order.len() implies m[#[trigger] old_order[q] as int] > t by {
                if q > p {
                    assert(comes_before(m, old_order[p as int] as int, old_order[q] as int));
                }
            }
        }
        order.insert(p, i);
        proof {
            assert forall|a: int, b: int| 0 <= a < b < order.len() implies comes_before(
                m,
                #[trigger] order[a] as int,
                #[trigger] order[b] as int,
            ) by {
                if a < p && b < p {
                    assert(order[a] == old_order[a] && order[b] == old_order[b]);
                } else if a < p && b == p {
                    assert(order[a] == old_order[a]);
                } else if a < p {
                    assert(order[a] == old_order[a] && order[b] == old_order[b - 1]);
                } else if a == p {
                    assert(order[b] == old_order[b - 1]);
                } else {
                    assert(order[a] == old_order[a - 1] && order[b] == old_order[b - 1]);
                }
            }
            assert forall|k: int| 0 <= k < order.len() implies order[k] < i + 1 by {
                if k < p {
                    assert(order[k] == old_order[k]);
                } else if k > p {
                    assert(order[k] == old_order[k - 1]);
                }
            }
        }
        i = i + 1;
    }
    order
}

// ===================== Sizes =====================

/// The total size of `files`.
pub open spec fn size_total(files: Seq<CachedFile>) -> int
    decreases files.len(),
{
    if files.len() == 0 {
        0
    } else {
        size_total(files.drop_last()) + files.last().size
    }
}

/// The total size of the files not marked in `gone`.
pub open spec fn present_size(files: Seq<CachedFile>, gone: Seq<bool>) -> int
    decreases files.len(),
{
    if files.len() == 0 || gone.len() == 0 {
        0
    } else {
        present_size(files.drop_last(), gone.drop_last()) + if gone.last() {
            0
        } else {
            files.last().size as int
        }
    }
}

/// How many entries of `gone` are marked.
pub open spec fn gone_count(gone: Seq<bool>) -> int
    decreases gone.len(),
{
    if gone.len() == 0 {
        0
    } else {
        gone_count(gone.drop_last()) + if gone.last() {
            1int
        } else {
            0
        }
    }
}

/// `n` entries, none marked.
pub open spec fn none_gone(n: nat) -> Seq<bool> {
    Seq::new(n, |i: int| false)
}

proof fn lemma_none_gone(files: Seq<CachedFile>)
    ensures
        present_size(files, none_gone(files.len())) == size_total(files),
        gone_count(none_gone(files.len())) == 0,
    decreases files.len(),
{
    if files.len() > 0 {
        lemma_none_gone(files.drop_last());
        assert(none_gone(files.len()).drop_last() =~= none_gone(files.drop_last().len()));
    }
}

proof fn lemma_mark_gone(files: Seq<CachedFile>, gone: Seq<bool>, i: int)
    requires
        files.len() == gone.len(),
        0 <= i < gone.len(),
        !gone[i],
    ensures
        present_size(files, gone.update(i, true)) == present_size(files, gone) - files[i].size,
        gone_count(gone.update(i, true)) == gone_count(gone) + 1,
    decreases files.len(),
{
    let g2 = gone.update(i, true);
    if i < gone.len() - 1 {
        lemma_mark_gone(files.drop_last(), gone.drop_last(), i);
        assert(g2.drop_last() =~= gone.drop_last().update(i, true));
    } else {
        assert(g2.drop_last() =~= gone.drop_last());
    }
}

proof fn lemma_present_bounds(files: Seq<CachedFile>, gone: Seq<bool>)
    requires
        files.len() == gone.len(),
    ensures
        0 <= present_size(files, gone) <= size_total(files),
        0 <= gone_count(gone) <= gone.len(),
    decreases files.len(),
{
    if files.len() > 0 {
        lemma_present_bounds(files.drop_last(), gone.drop_last());
    }
}

proof fn lemma_size_total_prefix(files: Seq<CachedFile>, i: int)
    requires
        0 <= i <= files.len(),
    ensures
        size_total(files.take(i)) <= size_total(files),
    decreases files.len(),
{
    if i < files.len() {
        lemma_size_total_prefix(files.drop_last(), i);
        assert(files.drop_last().take(i) =~= files.take(i));
    } else {
        assert(files.take(i) =~= files);
    }
}

// ===================== The cleaning run =====================

/// Where a cleaning run stands.
#[derive(Debug, Clone, Copy, PartialEq, Eq, Structural)]
pub enum CleanStage {
    /// Removing the files older than the age limit, oldest first.
    Expired,
    /// Removing the oldest files while the directory is over its size limit.
    OverSize,
    /// Nothing more to do.
    Finished,
}

/// What a cleaning run asks for next.
#[derive(Debug)]
pub enum CleanAction {
    /// Remove this file: it is older than the age limit.
    RemoveExpired(String),
    /// Remove this file if it is still there: the directory is over its
    /// size limit.
    RemoveForSize(String),
    /// Cleaning is over; this is what it removed.
    Done(CacheCleanResult),
}

/// The cleaning of one cache directory: a state machine that says which
/// file to remove next and is told whether the removal succeeded.
pub struct CleanRun {
    files: Vec<CachedFile>,
    order: Vec<usize>,
    gone: Vec<bool>,
    now: i128,
    max_age: u128,
    max_size: u64,
    stage: CleanStage,
    pos: usize,
    total: u64,
    initial: u64,
    result: CacheCleanResult,
    pending: Option<usize>,
}

/// The state of a cleaning run.
pub struct CleanState {
    /// The files of the directory, as found.
    pub files: Seq<CachedFile>,
    /// Their indices, oldest first.
    pub order: Seq<usize>,
    /// Which of them have been removed.
    pub gone: Seq<bool>,
    /// The time of the run.
    pub now: i128,
    /// The age limit, in nanoseconds.
    pub max_age: u128,
    /// The size limit, in bytes.
    pub max_size: u64,
    pub stage: CleanStage,
    /// The next place in `order` to look at.
    pub pos: int,
    /// The size of the files still there.
    pub total: int,
    /// The size of all the files found.
    pub initial: int,
    /// What has been removed so far.
    pub result: CacheCleanResult,
    /// The file whose removal was asked for and not yet reported.
    pub pending: Option<usize>,
}

impl View for CleanRun {
    type V = CleanState;

    closed spec fn view(&self) -> CleanState {
        CleanState {
            files: self.files@,
            order: self.order@,
            gone: self.gone@,
            now: self.now,
            max_age: self.max_age,
            max_size: self.max_size,
            stage: self.stage,
            pos: self.pos as int,
            total: self.total as int,
            initial: self.initial as int,
            result: self.result,
            pending: self.pending,
        }
    }
}

/// Whether a file modified at `modified` is older than `max_age`
/// nanoseconds at `now` (a file modified after `now` has no age).
pub open spec fn expired(now: i128, modified: i128, max_age: u128) -> bool {
    modified <= now && now - modified > max_age
}

/// The well-formedness of a cleaning run: the order is a stable sort by
/// age; the removed files account for what was freed and the others for
/// what is left; a pending removal is of a file still there; while
/// removing expired files, none from the current place on has gone.
pub open spec fn clean_wf(s: CleanState) -> bool {
    &&& oldest_first(modified_times(s.files), s.order)
    &&& s.gone.len() == s.files.len()
    &&& 0 <= s.pos <= s.files.len()
    &&& s.initial == size_total(s.files)
    &&& s.initial <= u64::MAX
    &&& s.total == present_size(s.files, s.gone)
    &&& s.result.bytes_freed + s.total == s.initial
    &&& s.result.files_removed == gone_count(s.gone)
    &&& (s.pending matches Some(i) ==> i < s.files.len() && !s.gone[i as int])
    &&& (s.stage == CleanStage::Expired ==> forall|k: int|
        s.pos <= k < s.files.len() ==> !s.gone[#[trigger] s.order[k] as int])
    &&& (s.stage == CleanStage::Expired && s.pending is Some ==> s.pos > 0 && s.pending
        == Some(s.order[s.pos - 1]))
}

/// The first place at or after `k` in `order` that holds a file expired at
/// `now`, or the number of files.
pub open spec fn first_expired(
    files: Seq<CachedFile>,
    order: Seq<usize>,
    now: i128,
    max_age: u128,
    k: nat,
) -> int
    decreases order.len() - k,
{
    if k >= order.len() {
        order.len() as int
    } else if expired(now, files[order[k as int] as int].modified, max_age) {
        k as int
    } else {
        first_expired(files, order, now, max_age, k + 1)
    }
}

/// The first place at or after `k` in `order` that holds a file not marked
/// in `gone`, or the number of files.
pub open spec fn first_present(order: Seq<usize>, gone: Seq<bool>, k: nat) -> int
    decreases order.len() - k,
{
    if k >= order.len() {
        order.len() as int
    } else if !gone[order[k as int] as int] {
        k as int
    } else {
        first_present(order, gone, k + 1)
    }
}

/// The next step of a cleaning run: the place in the order of the file to
/// remove for its age, or for the size of the directory, or the end.
pub enum CleanStep {
    Expired(int),
    ForSize(int),
    Done,
}

/// What a cleaning run in state `s` does next.  While removing expired
/// files, the next expired file in the order; once there are none, if the
/// directory is over its size limit, the oldest file still there; while
/// over the size limit, the next file still there; otherwise the end.
pub open spec fn next_step(s: CleanState) -> CleanStep {
    let len = s.files.len() as int;
    match s.stage {
        CleanStage::Finished => CleanStep::Done,
        CleanStage::Expired => if first_expired(s.files, s.order, s.now, s.max_age, s.pos as nat) < len {
            CleanStep::Expired(first_expired(s.files, s.order, s.now, s.max_age, s.pos as nat))
        } else if s.total > s.max_size && first_present(s.order, s.gone, 0) < len {
            CleanStep::ForSize(first_present(s.order, s.gone, 0))
        } else {
            CleanStep::Done
        },
        CleanStage::OverSize => if s.total > s.max_size && first_present(s.order, s.gone, s.pos as nat) < len {
            CleanStep::ForSize(first_present(s.order, s.gone, s.pos as nat))
        } else {
            CleanStep::Done
        },
    }
}

proof fn lemma_first_expired(
    files: Seq<CachedFile>,
    order: Seq<usize>,
    now: i128,
    max_age: u128,
    k: nat,
)
    requires
        k <= order.len(),
    ensures
        k <= first_expired(files, order, now, max_age, k) <= order.len(),
        first_expired(files, order, now, max_age, k) < order.len() ==> expired(
            now,
            files[order[first_expired(files, order, now, max_age, k)] as int].modified,
            max_age,
        ),
        forall|j: int|
            k <= j < first_expired(files, order, now, max_age, k) ==> !expired(
                now,
                files[#[trigger] order[j] as int].modified,
                max_age,
            ),
    decreases order.len() - k,
{
    if k < order.len() && !expired(now, files[order[k as int] as int].modified, max_age) {
        lemma_first_expired(files, order, now, max_age, k + 1);
    }
}

proof fn lemma_first_present(order: Seq<usize>, gone: Seq<bool>, k: nat)
    requires
        k <= order.len(),
    ensures
        k <= first_present(order, gone, k) <= order.len(),
        first_present(order, gone, k) < order.len() ==> !gone[order[first_present(order, gone, k)] as int],
        forall|j: int| k <= j < first_present(order, gone, k) ==> gone[#[trigger] order[j] as int],
    decreases order.len() - k,
{
    if k < order.len() && gone[order[k as int] as int] {
        lemma_first_present(order, gone, k + 1);
    }
}

/// Whether a file modified at `modified` is older than `max_age`
/// nanoseconds at `now`.
fn age_exceeds(now: i128, modified: i128, max_age: u128) -> (r: bool)
    ensures
        r == expired(now, modified, max_age),
{
    if modified > now {
        return false;
    }
    elapsed_nanos(modified, now) > max_age
}

impl CleanRun {
    /// Start cleaning a directory whose files are `files`, at time `now`
    /// (nanoseconds from the Unix epoch): first the files older than
    /// `max_age_days` days go, then, while the files left hold more than
    /// `max_size_mb` megabytes, the oldest of them.
    pub fn start(files: Vec<CachedFile>, now: i128, max_age_days: u64, max_size_mb: u64) -> (r: Self)
        requires
            max_age_days * 86400 <= u64::MAX,
            max_size_mb * 1048576 <= u64::MAX,
            size_total(files@) <= u64::MAX,
        ensures
            clean_wf(r@),
            r@.files == files@,
            r@.now == now,
            r@.max_age == max_age_days * 86400 * 1000000000,
            r@.max_size == max_size_mb * 1048576,
            r@.stage == CleanStage::Expired,
            r@.pos == 0,
            r@.gone == none_gone(files@.len()),
            r@.total == size_total(files@),
            r@.result == (CacheCleanResult { files_removed: 0, bytes_freed: 0 }),
            r@.pending is None,
    {
        let order = oldest_first_order(&files);
        let mut total: u64 = 0;
        let mut gone: Vec<bool> = Vec::new();
        let mut i: usize = 0;
        while i < files.len()
            invariant
                i <= files.len(),
                total == size_total(files@.take(i as int)),
                gone@ == none_gone(i as nat),
                size_total(files@) <= u64::MAX,
            decreases files.len() - i,
        {
            proof {
                lemma_size_total_prefix(files@, i as int + 1);
                assert(files@.take(i as int + 1).drop_last() =~= files@.take(i as int));
            }
            total = total + files[i].size;
            gone.push(false);
            proof {
                assert(gone@ =~= none_gone(i as nat + 1));
            }
            i = i + 1;
        }
        proof {
            assert(files@.take(files@.len() as int) =~= files@);
            lemma_none_gone(files@);
        }
        let secs: u64 = max_age_days * 86400;
        let max_age: u128 = (secs as u128) * 1000000000;
        let max_size: u64 = max_size_mb * 1048576;
        CleanRun {
            files,
            order,
            gone,
            now,
            max_age,
            max_size,
            stage: CleanStage::Expired,
            pos: 0,
            total,
            initial: total,
            result: CacheCleanResult { files_removed: 0, bytes_freed: 0 },
            pending: None,
        }
    }

    /// The state of the run.
    pub fn stage(&self) -> (r: CleanStage)
        ensures
            r == self@.stage,
    {
        self.stage
    }

    /// What has been removed so far.
    pub fn result(&self) -> (r: CacheCleanResult)
        ensures
            r == self@.result,
    {
        self.result
    }

    /// The next thing to do: remove an expired file, remove a file for the
    /// size of the directory, or stop, as [`next_step`] says.
    pub fn next_action(&mut self) -> (r: CleanAction)
        requires
            clean_wf(old(self)@),
            old(self)@.pending is None,
        ensures
            clean_wf(final(self)@),
            match next_step(old(self)@) {
                CleanStep::Expired(k) => (r matches CleanAction::RemoveExpired(p) && p@ == old(
                    self,
                )@.files[old(self)@.order[k] as int].path@) && final(self)@ == (CleanState {
                    pos: k + 1,
                    pending: Some(old(self)@.order[k]),
                    ..old(self)@
                }),
                CleanStep::ForSize(j) => (r matches CleanAction::RemoveForSize(p) && p@ == old(
                    self,
                )@.files[old(self)@.order[j] as int].path@) && final(self)@ == (CleanState {
                    stage: CleanStage::OverSize,
                    pos: j + 1,
                    pending: Some(old(self)@.order[j]),
                    ..old(self)@
                }),
                CleanStep::Done => (r matches CleanAction::Done(res) && res == old(self)@.result)
                    && final(self)@ == (CleanState {
                    stage: CleanStage::Finished,
                    pos: old(self)@.files.len() as int,
                    ..old(self)@
                }),
            },
    {
        let ghost s0 = self@;
        let n = self.files.len();
        if self.stage == CleanStage::Expired {
            proof { lemma_first_expired(s0.files, s0.order, s0.now, s0.max_age, s0.pos as nat); }
            while self.pos < n && !age_exceeds(
                self.now,
                self.files[self.order[self.pos]].modified,
                self.max_age,
            )
                invariant
                    n == self.files.len(),
                    self@ == (CleanState { pos: self.pos as int, ..s0 }),
                    s0.pos <= self.pos <= n,
                    clean_wf(s0),
                    first_expired(s0.files, s0.order, s0.now, s0.max_age, s0.pos as nat) >= self.pos,
                    first_expired(s0.files, s0.order, s0.now, s0.max_age, s0.pos as nat) < n ==> expired(
                        s0.now,
                        s0.files[s0.order[first_expired(s0.files, s0.order, s0.now, s0.max_age, s0.pos as nat)] as int].modified,
                        s0.max_age,
                    ),

                decreases n - self.pos,
            {
                self.pos = self.pos + 1;
            }
            if self.pos < n {
                let k = self.pos;
                let idx = self.order[k];
                self.pos = k + 1;
                self.pending = Some(idx);
                return CleanAction::RemoveExpired(self.files[idx].path.clone());
            }
            if self.total > self.max_size {
                self.stage = CleanStage::OverSize;
                self.pos = 0;
            } else {
                self.stage = CleanStage::Finished;
                self.pos = n;
                return CleanAction::Done(self.result);
            }
        }
        if self.stage == CleanStage::OverSize && self.total > self.max_size {
            let ghost s1 = self@;
            proof { lemma_first_present(s1.order, s1.gone, s1.pos as nat); }
            while self.pos < n && self.gone[self.order[self.pos]]
                invariant
                    n == self.files.len(),
                    self@ == (CleanState { pos: self.pos as int, ..s1 }),
                    s1.pos <= self.pos <= n,
                    clean_wf(s1),
                    first_present(s1.order, s1.gone, s1.pos as nat) >= self.pos,
                    first_present(s1.order, s1.gone, s1.pos as nat) < n ==> !s1.gone[s1.order[first_present(s1.order, s1.gone, s1.pos as nat)] as int],
                decreases n - self.pos,
            {
                self.pos = self.pos + 1;
            }
            if self.pos < n {
                let j = self.pos;
                let idx = self.order[j];
                self.pos = j + 1;
                self.pending = Some(idx);
                return CleanAction::RemoveForSize(self.files[idx].path.clone());
            }
        }
        self.stage = CleanStage::Finished;
        self.pos = n;
        CleanAction::Done(self.result)
    }

    /// Report whether the removal that the last action asked for succeeded.
    /// A removed file counts toward the result and no longer toward the
    /// size of the directory.
    pub fn record_removal(&mut self, removed: bool)
        requires
            clean_wf(old(self)@),
            old(self)@.pending is Some,
        ensures
            clean_wf(final(self)@),
            ({
                let s = old(self)@;
                let i = s.pending->0 as int;
                if removed {
                    final(self)@ == (CleanState {
                        gone: s.gone.update(i, true),
                        total: s.total - s.files[i].size,
                        result: CacheCleanResult {
                            files_removed: (s.result.files_removed + 1) as usize,
                            bytes_freed: (s.result.bytes_freed + s.files[i].size) as u64,
                        },
                        pending: None,
                        ..s
                    })
                } else {
                    final(self)@ == (CleanState { pending: None, ..s })
                }
            }),
    {
        let ghost s = self@;
        let i = match self.pending {
            Some(i) => i,
            None => 0,
        };
        if removed {
            proof {
                lemma_mark_gone(s.files, s.gone, i as int);
                lemma_present_bounds(s.files, s.gone.update(i as int, true));
                if s.stage == CleanStage::Expired {
                    assert forall|k: int| s.pos <= k < s.files.len() implies #[trigger] s.order[k] != i by {
                        assert(comes_before(modified_times(s.files), s.order[s.pos - 1] as int, s.order[k] as int));
                    }
                }
            }
            let size = self.files[i].size;
            let n = self.files.len();
            assert(self.result.files_removed + 1 <= n);
            self.gone.set(i, true);
            self.total = self.total - size;
            self.result = CacheCleanResult {
                files_removed: self.result.files_removed + 1,
                bytes_freed: self.result.bytes_freed + size,
            };
        }
        self.pending = None;
    }
}

/// What a cleaning run accounts for: every byte freed has left the size
/// of the directory (what was freed and what is left make up the size of
/// all the files found), and no more files are counted as removed than
/// were found.
pub proof fn lemma_clean_accounting(s: CleanState)
    requires
        clean_wf(s),
    ensures
        s.result.bytes_freed + s.total == size_total(s.files),
        s.result.files_removed <= s.files.len(),
        s.total == present_size(s.files, s.gone),
{
    lemma_present_bounds(s.files, s.gone);
}

/// A cleaning run stops only within the size limit or when no file that
/// is left remains to be tried: when its next step is the end, what is
/// left fits in the limit, or every file from where it stands in the order
/// (from the start, while it was still removing expired files) is gone.
pub proof fn lemma_clean_stops_within_limit(s: CleanState)
    requires
        clean_wf(s),
        s.stage != CleanStage::Finished,
        next_step(s) is Done,
    ensures
        s.total <= s.max_size || forall|k: int|
            (if s.stage == CleanStage::Expired { 0 } else { s.pos }) <= k < s.files.len()
                ==> s.gone[#[trigger] s.order[k] as int],
{
    lemma_first_present(s.order, s.gone, 0);
    lemma_first_present(s.order, s.gone, s.pos as nat);
    lemma_first_expired(s.files, s.order, s.now, s.max_age, s.pos as nat);
}

} // verus!
