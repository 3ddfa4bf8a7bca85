//! The scan engine: a state machine that decides which slot to visit next,
//! when to turn the page and when the traversal ends. The caller performs
//! each action and reports what it observed as the next event.

use crate::config::ScanConfig;
use crate::record::{ArtifactRecord, FieldValue, Signature};
use vstd::prelude::*;

verus! {

/// Why a scan ended.
#[derive(Clone, Copy, Debug, PartialEq, Eq, Structural)]
pub enum Termination {
    /// As many records as the item count were collected.
    TargetReached,
    /// An item seen before came round again.
    Wrapped,
    /// The page bound was reached.
    PagesExhausted,
    /// The page content did not change after repeated page turns.
    ScrollStuck,
    /// The target window lost focus.
    FocusLost,
    /// The inventory panel was not recognized.
    PreconditionFailed,
    /// The caller stopped the scan between two slots.
    Cancelled,
}

#[derive(Clone, Copy, Debug, PartialEq, Eq, Structural)]
pub enum ScanPhase {
    Idle,
    Precondition,
    CountResolution,
    Traversing,
    Scrolling,
    Finished(Termination),
}

/// What the caller observed.
#[derive(Debug)]
pub enum ScanEvent {
    /// Start the scan.
    Begin,
    /// Whether the anchor region showed the inventory panel.
    AnchorChecked(bool),
    /// The on-screen item counter, where it could be read.
    CounterRead(Option<u32>),
    /// The record read at the slot just visited.
    SlotRead(ArtifactRecord),
    /// Whether the page content changed after a page turn.
    ScrollSettled(bool),
    FocusLost,
    Cancel,
}

/// What the caller is to do next.
#[derive(Clone, Copy, Debug, PartialEq, Eq, Structural)]
pub enum ScanAction {
    CheckAnchor,
    ReadCounter,
    /// Select `slot` on page `page`, wait for the panel, read the record.
    VisitSlot { slot: u32, page: u32 },
    /// Turn the page and report whether the content changed.
    ScrollPage,
    /// The scan is over; the results stand as they are.
    Finish(Termination),
    /// The event did not fit the current phase; nothing changed.
    Ignore,
}

/// The abstract state of a scan.
pub struct ScanView {
    pub config: ScanConfig,
    pub per_page: u32,
    pub phase: ScanPhase,
    pub cursor: u32,
    pub page: u32,
    pub seen: Seq<Signature>,
    pub results: Seq<ArtifactRecord>,
    pub scroll_failures: u32,
    pub scrolls: u64,
    pub target: Option<u32>,
}

/// Whether a record is kept by the star and level filters. A degraded star
/// or level excludes nothing.
pub open spec fn passes_filter(r: ArtifactRecord, c: ScanConfig) -> bool {
    &&& !(r.star matches FieldValue::Known(s) && s < c.min_star)
    &&& !(r.level matches FieldValue::Known(l) && l < c.min_level)
}

pub open spec fn finish(s: ScanView, t: Termination) -> (ScanView, ScanAction) {
    (ScanView { phase: ScanPhase::Finished(t), ..s }, ScanAction::Finish(t))
}

pub open spec fn target_reached(s: ScanView) -> bool {
    s.target matches Some(t) && s.results.len() == t
}

pub open spec fn sat_inc(n: u64) -> u64 {
    if n == u64::MAX { n } else { (n + 1) as u64 }
}

/// Enter the traversal once the item count is settled.
pub open spec fn start_traversal(s: ScanView) -> (ScanView, ScanAction) {
    if target_reached(s) {
        finish(s, Termination::TargetReached)
    } else {
        (
            ScanView { phase: ScanPhase::Traversing, ..s },
            ScanAction::VisitSlot { slot: s.cursor, page: s.page },
        )
    }
}

/// After the precondition: take the given count, or ask for the counter.
pub open spec fn resolve_count(s: ScanView) -> (ScanView, ScanAction) {
    if s.config.target_count is Some {
        start_traversal(ScanView { target: s.config.target_count, ..s })
    } else {
        (ScanView { phase: ScanPhase::CountResolution, ..s }, ScanAction::ReadCounter)
    }
}

/// After the record of the current slot was read.
pub open spec fn after_slot(s: ScanView, rec: ArtifactRecord) -> (ScanView, ScanAction) {
    let sig = rec.spec_signature();
    if s.seen.contains(sig) {
        finish(s, Termination::Wrapped)
    } else {
        let s1 = ScanView {
            seen: s.seen.push(sig),
            results: if passes_filter(rec, s.config) {
                s.results.push(rec)
            } else {
                s.results
            },
            cursor: (s.cursor + 1) as u32,
            ..s
        };
        if target_reached(s1) {
            finish(s1, Termination::TargetReached)
        } else if s1.cursor == s1.per_page {
            (
                ScanView { phase: ScanPhase::Scrolling, scrolls: sat_inc(s1.scrolls), ..s1 },
                ScanAction::ScrollPage,
            )
        } else {
            (
                ScanView { phase: ScanPhase::Traversing, ..s1 },
                ScanAction::VisitSlot { slot: s1.cursor, page: s1.page },
            )
        }
    }
}

/// After a page turn was reported as changed or not.
pub open spec fn after_scroll(s: ScanView, changed: bool) -> (ScanView, ScanAction) {
    if changed {
        let s1 = ScanView { page: (s.page + 1) as u32, cursor: 0, scroll_failures: 0, ..s };
        if s1.page >= s1.config.max_row {
            finish(s1, Termination::PagesExhausted)
        } else {
            (
                ScanView { phase: ScanPhase::Traversing, ..s1 },
                ScanAction::VisitSlot { slot: 0, page: s1.page },
            )
        }
    } else {
        let s1 = ScanView { scroll_failures: (s.scroll_failures + 1) as u32, ..s };
        if s1.scroll_failures >= s1.config.scroll_retry_limit {
            finish(s1, Termination::ScrollStuck)
        } else {
            (ScanView { scrolls: sat_inc(s1.scrolls), ..s1 }, ScanAction::ScrollPage)
        }
    }
}

/// One transition of the scan.
pub open spec fn scan_step(s: ScanView, ev: ScanEvent) -> (ScanView, ScanAction) {
    match s.phase {
        ScanPhase::Finished(t) => (s, ScanAction::Finish(t)),
        _ => match ev {
            ScanEvent::FocusLost => finish(s, Termination::FocusLost),
            ScanEvent::Cancel => finish(s, Termination::Cancelled),
            ScanEvent::Begin => if s.phase == ScanPhase::Idle {
                if s.config.no_check {
                    resolve_count(s)
                } else {
                    (ScanView { phase: ScanPhase::Precondition, ..s }, ScanAction::CheckAnchor)
                }
            } else {
                (s, ScanAction::Ignore)
            },
            ScanEvent::AnchorChecked(ok) => if s.phase == ScanPhase::Precondition {
                if ok {
                    resolve_count(s)
                } else {
                    finish(s, Termination::PreconditionFailed)
                }
            } else {
                (s, ScanAction::Ignore)
            },
            ScanEvent::CounterRead(c) => if s.phase == ScanPhase::CountResolution {
                start_traversal(ScanView { target: c, ..s })
            } else {
                (s, ScanAction::Ignore)
            },
            ScanEvent::SlotRead(rec) => if s.phase == ScanPhase::Traversing {
                after_slot(s, rec)
            } else {
                (s, ScanAction::Ignore)
            },
            ScanEvent::ScrollSettled(changed) => if s.phase == ScanPhase::Scrolling {
                after_scroll(s, changed)
            } else {
                (s, ScanAction::Ignore)
            },
        },
    }
}

/// What holds of every state a scan reaches.
pub open spec fn scan_wf(s: ScanView) -> bool {
    &&& s.config.valid()
    &&& s.per_page > 0
    &&& s.cursor <= s.per_page
    &&& s.page <= s.config.max_row
    &&& s.scroll_failures <= s.config.scroll_retry_limit
    &&& s.phase == ScanPhase::Traversing ==> s.cursor < s.per_page && s.page < s.config.max_row
        && s.scroll_failures == 0
    &&& s.phase == ScanPhase::Scrolling ==> s.cursor == s.per_page && s.page < s.config.max_row
        && s.scroll_failures < s.config.scroll_retry_limit
    &&& s.phase == ScanPhase::Idle ==> s.seen.len() == 0 && s.results.len() == 0 && s.cursor == 0
        && s.page == 0 && s.scrolls == 0 && s.target is None && s.scroll_failures == 0
    &&& (s.phase == ScanPhase::Precondition || s.phase == ScanPhase::CountResolution) ==> s.seen.len()
        == 0 && s.results.len() == 0 && s.cursor == 0 && s.page == 0 && s.target is None
        && s.scroll_failures == 0
    &&& (s.phase == ScanPhase::Traversing || s.phase == ScanPhase::Scrolling) ==> !target_reached(s)
    &&& s.results.len() <= s.seen.len()
    &&& s.seen.len() == s.page as int * s.per_page as int + s.cursor as int
    &&& s.target matches Some(t) ==> s.results.len() <= t
    &&& forall|i: int| 0 <= i < s.results.len() ==> passes_filter(#[trigger] s.results[i], s.config)
    &&& forall|i: int, j: int| 0 <= i < j < s.seen.len() ==> s.seen[i] != s.seen[j]
}

/// The scan engine.
pub struct ScanEngine {
    config: ScanConfig,
    per_page: u32,
    phase: ScanPhase,
    cursor: u32,
    page: u32,
    seen: Vec<Signature>,
    results: Vec<ArtifactRecord>,
    scroll_failures: u32,
    scrolls: u64,
    target: Option<u32>,
}

impl View for ScanEngine {
    type V = ScanView;

    closed spec fn view(&self) -> ScanView {
        ScanView {
            config: self.config,
            per_page: self.per_page,
            phase: self.phase,
            cursor: self.cursor,
            page: self.page,
            seen: self.seen@,
            results: self.results@,
            scroll_failures: self.scroll_failures,
            scrolls: self.scrolls,
            target: self.target,
        }
    }
}

fn contains_signature(seen: &Vec<Signature>, sig: Signature) -> (r: bool)
    ensures
        r == seen@.contains(sig),
{
    let mut i: usize = 0;
    while i < seen.len()
        invariant
            i <= seen@.len(),
            forall|k: int| 0 <= k < i ==> seen@[k] != sig,
        decreases seen.len() - i,
    {
        if seen[i] == sig {
            return true;
        }
        i = i + 1;
    }
    false
}

fn keeps(rec: &ArtifactRecord, c: &ScanConfig) -> (r: bool)
    ensures
        r == passes_filter(*rec, *c),
{
    let star_low = match rec.star {
        FieldValue::Known(s) => s < c.min_star,
        FieldValue::Degraded => false,
    };
    let level_low = match rec.level {
        FieldValue::Known(l) => l < c.min_level,
        FieldValue::Degraded => false,
    };
    !star_low && !level_low
}

impl ScanEngine {
    pub open spec fn wf(&self) -> bool {
        scan_wf(self@)
    }

    /// A scan that has not started, over pages of `per_page` slots.
    pub fn new(config: ScanConfig, per_page: u32) -> (r: ScanEngine)
        requires
            config.valid(),
            per_page > 0,
        ensures
            r.wf(),
            r@.config == config,
            r@.per_page == per_page,
            r@.phase == ScanPhase::Idle,
            r@.seen.len() == 0,
            r@.results.len() == 0,
            r@.cursor == 0,
            r@.page == 0,
            r@.scroll_failures == 0,
            r@.scrolls == 0,
            r@.target is None,
    {
        ScanEngine {
            config,
            per_page,
            phase: ScanPhase::Idle,
            cursor: 0,
            page: 0,
            seen: Vec::new(),
            results: Vec::new(),
            scroll_failures: 0,
            scrolls: 0,
            target: None,
        }
    }

    fn finish(&mut self, t: Termination) -> (a: ScanAction)
        ensures
            (final(self)@, a) == finish(old(self)@, t),
    {
        self.phase = ScanPhase::Finished(t);
        ScanAction::Finish(t)
    }

    fn target_reached(&self) -> (r: bool)
        ensures
            r == target_reached(self@),
    {
        match self.target {
            Some(t) => self.results.len() == t as usize,
            None => false,
        }
    }

    fn start_traversal(&mut self) -> (a: ScanAction)
        ensures
            (final(self)@, a) == start_traversal(old(self)@),
    {
        if self.target_reached() {
            self.finish(Termination::TargetReached)
        } else {
            self.phase = ScanPhase::Traversing;
            ScanAction::VisitSlot { slot: self.cursor, page: self.page }
        }
    }

    fn resolve_count(&mut self) -> (a: ScanAction)
        ensures
            (final(self)@, a) == resolve_count(old(self)@),
    {
        if self.config.target_count.is_some() {
            self.target = self.config.target_count;
            self.start_traversal()
        } else {
            self.phase = ScanPhase::CountResolution;
            ScanAction::ReadCounter
        }
    }

    fn after_slot(&mut self, rec: ArtifactRecord) -> (a: ScanAction)
        requires
            old(self).wf(),
            old(self)@.phase == ScanPhase::Traversing,
        ensures
            (final(self)@, a) == after_slot(old(self)@, rec),
    {
        let sig = rec.signature();
        if contains_signature(&self.seen, sig) {
            return self.finish(Termination::Wrapped);
        }
        self.seen.push(sig);
        if keeps(&rec, &self.config) {
            self.results.push(rec);
        }
        self.cursor = self.cursor + 1;
        if self.target_reached() {
            self.finish(Termination::TargetReached)
        } else if self.cursor == self.per_page {
            self.phase = ScanPhase::Scrolling;
            if self.scrolls < u64::MAX {
                self.scrolls = self.scrolls + 1;
            }
            ScanAction::ScrollPage
        } else {
            self.phase = ScanPhase::Traversing;
            ScanAction::VisitSlot { slot: self.cursor, page: self.page }
        }
    }

    fn after_scroll(&mut self, changed: bool) -> (a: ScanAction)
        requires
            old(self).wf(),
            old(self)@.phase == ScanPhase::Scrolling,
        ensures
            (final(self)@, a) == after_scroll(old(self)@, changed),
    {
        if changed {
            self.page = self.page + 1;
            self.cursor = 0;
            self.scroll_failures = 0;
            if self.page >= self.config.max_row {
                self.finish(Termination::PagesExhausted)
            } else {
                self.phase = ScanPhase::Traversing;
                ScanAction::VisitSlot { slot: 0, page: self.page }
            }
        } else {
            self.scroll_failures = self.scroll_failures + 1;
            if self.scroll_failures >= self.config.scroll_retry_limit {
                self.finish(Termination::ScrollStuck)
            } else {
                if self.scrolls < u64::MAX {
                    self.scrolls = self.scrolls + 1;
                }
                ScanAction::ScrollPage
            }
        }
    }

    /// Takes one observation and returns the next action.
    pub fn step(&mut self, ev: ScanEvent) -> (a: ScanAction)
        requires
            old(self).wf(),
        ensures
            (final(self)@, a) == scan_step(old(self)@, ev),
            final(self).wf(),
    {
        proof {
            lemma_step_wf(self@, ev);
        }
        if let ScanPhase::Finished(t) = self.phase {
            return ScanAction::Finish(t);
        }
        match ev {
            ScanEvent::FocusLost => self.finish(Termination::FocusLost),
            ScanEvent::Cancel => self.finish(Termination::Cancelled),
            ScanEvent::Begin => {
                if self.phase == ScanPhase::Idle {
                    if self.config.no_check {
                        self.resolve_count()
                    } else {
                        self.phase = ScanPhase::Precondition;
                        ScanAction::CheckAnchor
                    }
                } else {
                    ScanAction::Ignore
                }
            },
            ScanEvent::AnchorChecked(ok) => {
                if self.phase == ScanPhase::Precondition {
                    if ok {
                        self.resolve_count()
                    } else {
                        self.finish(Termination::PreconditionFailed)
                    }
                } else {
                    ScanAction::Ignore
                }
            },
            ScanEvent::CounterRead(c) => {
                if self.phase == ScanPhase::CountResolution {
                    self.target = c;
                    self.start_traversal()
                } else {
                    ScanAction::Ignore
                }
            },
            ScanEvent::SlotRead(rec) => {
                if self.phase == ScanPhase::Traversing {
                    self.after_slot(rec)
                } else {
                    ScanAction::Ignore
                }
            },
            ScanEvent::ScrollSettled(changed) => {
                if self.phase == ScanPhase::Scrolling {
                    self.after_scroll(changed)
                } else {
                    ScanAction::Ignore
                }
            },
        }
    }

    /// The records kept so far, in the order their slots were visited.
    pub fn results(&self) -> (r: &Vec<ArtifactRecord>)
        ensures
            r@ == self@.results,
    {
        &self.results
    }

    /// Takes the records kept so far, in visiting order.
    pub fn into_results(self) -> (r: Vec<ArtifactRecord>)
        ensures
            r@ == self@.results,
    {
        self.results
    }

    /// Slots whose record was read, kept or filtered out.
    pub fn visited(&self) -> (r: usize)
        ensures
            r == self@.seen.len(),
    {
        self.seen.len()
    }

    pub fn phase(&self) -> (r: ScanPhase)
        ensures
            r == self@.phase,
    {
        self.phase
    }

    /// Why the scan ended, once it has.
    pub fn termination(&self) -> (r: Option<Termination>)
        ensures
            r == (match self@.phase {
                ScanPhase::Finished(t) => Some(t),
                _ => None,
            }),
    {
        match self.phase {
            ScanPhase::Finished(t) => Some(t),
            _ => None,
        }
    }

    /// Page turns requested so far.
    pub fn scrolls(&self) -> (r: u64)
        ensures
            r == self@.scrolls,
    {
        self.scrolls
    }

    pub fn page(&self) -> (r: u32)
        ensures
            r == self@.page,
    {
        self.page
    }
}

/// Every transition keeps the state well formed.
pub proof fn lemma_step_wf(s: ScanView, ev: ScanEvent)
    requires
        scan_wf(s),
    ensures
        scan_wf(scan_step(s, ev).0),
{
    let s2 = scan_step(s, ev).0;
    if let ScanEvent::ScrollSettled(changed) = ev {
        if s.phase == ScanPhase::Scrolling && changed {
            assert((s.page + 1) as int * s.per_page as int == s.page as int * s.per_page as int
                + s.per_page as int) by (nonlinear_arith);
        }
    }
    if let ScanEvent::SlotRead(rec) = ev {
        if s.phase == ScanPhase::Traversing && !s.seen.contains(rec.spec_signature()) {
            let sig = rec.spec_signature();
            let seen2 = s.seen.push(sig);
            assert forall|i: int, j: int| 0 <= i < j < seen2.len() implies seen2[i] != seen2[j] by {
                if j == s.seen.len() {
                    assert(seen2[i] == s.seen[i]);
                }
            }
            let res2 = if passes_filter(rec, s.config) {
                s.results.push(rec)
            } else {
                s.results
            };
            assert forall|i: int| 0 <= i < res2.len() implies passes_filter(
                #[trigger] res2[i],
                s.config,
            ) by {
                if i < s.results.len() {
                    assert(res2[i] == s.results[i]);
                }
            }
        }
    }
}

/// In every well-formed state the records kept fit the pages visited so far
/// (the current page included) and, where the item count is known, that
/// count.
pub proof fn lemma_results_bounded(s: ScanView)
    requires
        scan_wf(s),
    ensures
        s.results.len() <= (s.page as int + 1) * s.per_page as int,
        s.target matches Some(t) ==> s.results.len() <= t,
{
    assert((s.page as int + 1) * s.per_page as int == s.page as int * s.per_page as int
        + s.per_page as int) by (nonlinear_arith);
}

/// The state after a run of events.
pub open spec fn scan_run(s: ScanView, evs: Seq<ScanEvent>) -> ScanView
    decreases evs.len(),
{
    if evs.len() == 0 {
        s
    } else {
        scan_run(scan_step(s, evs[0]).0, evs.drop_first())
    }
}

/// Every state that a run reaches is well formed: in particular no kept
/// record falls below the star or level bound, and no more records are kept
/// than the item count.
pub proof fn lemma_run_wf(s: ScanView, evs: Seq<ScanEvent>)
    requires
        scan_wf(s),
    ensures
        scan_wf(scan_run(s, evs)),
    decreases evs.len(),
{
    if evs.len() > 0 {
        lemma_step_wf(s, evs[0]);
        lemma_run_wf(scan_step(s, evs[0]).0, evs.drop_first());
    }
}

/// Two scans that start alike and see the same observations keep the same
/// records in the same order and end alike.
pub proof fn lemma_scan_deterministic(a: ScanView, b: ScanView, evs: Seq<ScanEvent>)
    requires
        a == b,
    ensures
        scan_run(a, evs).results == scan_run(b, evs).results,
        scan_run(a, evs).phase == scan_run(b, evs).phase,
{
}

/// A step never forgets: the records kept and the signatures seen before it
/// are a prefix of those after it.
pub proof fn lemma_step_extends(s: ScanView, ev: ScanEvent)
    requires
        scan_wf(s),
    ensures
        scan_step(s, ev).0.results.len() >= s.results.len(),
        scan_step(s, ev).0.results.subrange(0, s.results.len() as int) == s.results,
        scan_step(s, ev).0.seen.len() >= s.seen.len(),
        scan_step(s, ev).0.seen.subrange(0, s.seen.len() as int) == s.seen,
{
    let s2 = scan_step(s, ev).0;
    assert(s2.results.subrange(0, s.results.len() as int) =~= s.results);
    assert(s2.seen.subrange(0, s.seen.len() as int) =~= s.seen);
}

/// A new slot counts as visited whether or not its record is kept: the
/// cursor moves on and its signature is recorded; the record joins the
/// results exactly when it meets the star and level bounds.
pub proof fn lemma_slot_filter(s: ScanView, rec: ArtifactRecord)
    requires
        scan_wf(s),
        s.phase == ScanPhase::Traversing,
        !s.seen.contains(rec.spec_signature()),
    ensures
        ({
            let s2 = scan_step(s, ScanEvent::SlotRead(rec)).0;
            &&& s2.seen == s.seen.push(rec.spec_signature())
            &&& s2.cursor == s.cursor + 1
            &&& passes_filter(rec, s.config) ==> s2.results == s.results.push(rec)
            &&& !passes_filter(rec, s.config) ==> s2.results == s.results
        }),
{
}

/// A slot whose signature was seen before ends the scan as wrapped and keeps
/// the results as they were.
pub proof fn lemma_slot_wraps(s: ScanView, rec: ArtifactRecord)
    requires
        s.phase == ScanPhase::Traversing,
        s.seen.contains(rec.spec_signature()),
    ensures
        scan_step(s, ScanEvent::SlotRead(rec)).0.phase == ScanPhase::Finished(Termination::Wrapped),
        scan_step(s, ScanEvent::SlotRead(rec)).0.results == s.results,
{
}

/// A scan fed by a frame source that repeats `frames`: the `k`-th slot
/// visited shows `frames[k % frames.len()]`, and every page turn changes the
/// content. Runs for at most `fuel` steps or until the scan ends.
pub open spec fn periodic_run(s: ScanView, frames: Seq<ArtifactRecord>, k: nat, fuel: nat) -> ScanView
    decreases fuel,
{
    if fuel == 0 || frames.len() == 0 {
        s
    } else if s.phase == ScanPhase::Traversing {
        periodic_run(
            scan_step(s, ScanEvent::SlotRead(frames[(k % frames.len()) as int])).0,
            frames,
            k + 1,
            (fuel - 1) as nat,
        )
    } else if s.phase == ScanPhase::Scrolling {
        periodic_run(scan_step(s, ScanEvent::ScrollSettled(true)).0, frames, k, (fuel - 1) as nat)
    } else {
        s
    }
}

pub open spec fn signatures(rs: Seq<ArtifactRecord>) -> Seq<Signature> {
    rs.map_values(|r: ArtifactRecord| r.spec_signature())
}

/// One period of frames with pairwise distinct signatures, all kept by the
/// filters, and fewer than the pages can hold.
pub open spec fn clean_period(frames: Seq<ArtifactRecord>, s: ScanView) -> bool {
    &&& frames.len() > 0
    &&& frames.len() < s.per_page as int * s.config.max_row as int
    &&& forall|i: int, j: int|
        0 <= i < j < frames.len() ==> frames[i].spec_signature() != frames[j].spec_signature()
    &&& forall|i: int| 0 <= i < frames.len() ==> passes_filter(#[trigger] frames[i], s.config)
}

/// The state after the first `k` frames of a clean period were visited.
pub open spec fn after_frames(s: ScanView, frames: Seq<ArtifactRecord>, k: nat) -> bool {
    &&& scan_wf(s)
    &&& s.phase == ScanPhase::Traversing
    &&& s.target is None
    &&& k <= frames.len()
    &&& s.seen == signatures(frames.take(k as int))
    &&& s.results == frames.take(k as int)
    &&& s.page as int * s.per_page as int + s.cursor as int == k
}

proof fn lemma_wrap_from(s: ScanView, frames: Seq<ArtifactRecord>, k: nat, fuel: nat)
    requires
        clean_period(frames, s),
        after_frames(s, frames, k),
        fuel >= 2 * (frames.len() - k) + 1,
    ensures
        periodic_run(s, frames, k, fuel).phase == ScanPhase::Finished(Termination::Wrapped),
        periodic_run(s, frames, k, fuel).results == frames,
    decreases frames.len() - k,
{
    let p = frames.len();
    let rec = frames[(k % p) as int];
    let s1 = scan_step(s, ScanEvent::SlotRead(rec)).0;
    if k == p {
        vstd::arithmetic::div_mod::lemma_mod_self_0(p as int);
        assert(s.seen[0] == frames[0].spec_signature());
        assert(s.seen.contains(rec.spec_signature()));
        assert(frames.take(k as int) =~= frames);
        assert(periodic_run(s1, frames, k + 1, (fuel - 1) as nat) == s1);
    } else {
        vstd::arithmetic::div_mod::lemma_small_mod(k, p);
        assert(rec == frames[k as int]);
        assert(!s.seen.contains(rec.spec_signature())) by {
            if s.seen.contains(rec.spec_signature()) {
                let i = choose|i: int| 0 <= i < s.seen.len() && s.seen[i] == rec.spec_signature();
                assert(s.seen[i] == frames[i].spec_signature());
            }
        }
        assert(frames.take((k + 1) as int) =~= frames.take(k as int).push(rec));
        assert(signatures(frames.take((k + 1) as int)) =~= signatures(frames.take(k as int)).push(
            rec.spec_signature(),
        ));
        lemma_step_wf(s, ScanEvent::SlotRead(rec));
        if s.cursor + 1 == s.per_page {
            let s2 = scan_step(s1, ScanEvent::ScrollSettled(true)).0;
            lemma_step_wf(s1, ScanEvent::ScrollSettled(true));
            assert(s.page + 1 < s.config.max_row) by {
                let pp = s.per_page as int;
                let m = s.config.max_row as int;
                let pg = s.page as int;
                assert((pg + 1) * pp == k + 1) by (nonlinear_arith)
                    requires
                        pg * pp + s.cursor == k,
                        s.cursor + 1 == pp,
                ;
                assert(pg + 1 < m) by (nonlinear_arith)
                    requires
                        (pg + 1) * pp == k + 1,
                        k + 1 <= p,
                        p < pp * m,
                        pp > 0,
                ;
            }
            assert(s2.page as int * s2.per_page as int + s2.cursor as int == k + 1) by (
            nonlinear_arith)
                requires
                    s2.page == s.page + 1,
                    s2.cursor == 0,
                    s2.per_page == s.per_page,
                    s.page as int * s.per_page as int + s.cursor as int == k,
                    s.cursor + 1 == s.per_page,
            ;
            lemma_wrap_from(s2, frames, k + 1, (fuel - 2) as nat);
        } else {
            lemma_wrap_from(s1, frames, k + 1, (fuel - 1) as nat);
        }
    }
}

/// Wraparound: fed by a source that repeats a period of `frames` items with
/// distinct signatures, a scan whose item count is unknown ends as wrapped
/// with exactly one record per item of the period, in order.
pub proof fn lemma_wraparound(s: ScanView, frames: Seq<ArtifactRecord>, fuel: nat)
    requires
        scan_wf(s),
        s.phase == ScanPhase::Traversing,
        s.target is None,
        s.seen.len() == 0,
        s.results.len() == 0,
        s.cursor == 0,
        s.page == 0,
        clean_period(frames, s),
        fuel >= 2 * frames.len() + 1,
    ensures
        periodic_run(s, frames, 0, fuel).phase == ScanPhase::Finished(Termination::Wrapped),
        periodic_run(s, frames, 0, fuel).results == frames,
{
    assert(frames.take(0) =~= Seq::<ArtifactRecord>::empty());
    assert(signatures(frames.take(0)) =~= s.seen);
    assert(s.results =~= frames.take(0));
    lemma_wrap_from(s, frames, 0, fuel);
}

} // verus!
