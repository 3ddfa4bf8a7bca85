//! Replaying a list of slot indices to toggle the lock flag of each item.

use vstd::prelude::*;

verus! {

/// A sequence in strictly ascending order, hence without repeats.
pub open spec fn strictly_ascending(s: Seq<u32>) -> bool {
    forall|i: int, j: int| 0 <= i < j < s.len() ==> s[i] < s[j]
}

/// Whether `a` and `b` hold the same values.
pub open spec fn same_values(a: Seq<u32>, b: Seq<u32>) -> bool {
    forall|x: u32| a.contains(x) <==> b.contains(x)
}

/// Inserts `x` at its place in an ascending vector, unless it is there.
fn insert_sorted(v: &mut Vec<u32>, x: u32)
    requires
        strictly_ascending(old(v)@),
    ensures
        strictly_ascending(final(v)@),
        forall|y: u32| final(v)@.contains(y) <==> (old(v)@.contains(y) || y == x),
{
    let mut i: usize = 0;
    while i < v.len() && v[i] < x
        invariant
            i <= v@.len(),
            v@ == old(v)@,
            forall|k: int| 0 <= k < i ==> v@[k] < x,
        decreases v.len() - i,
    {
        i = i + 1;
    }
    if i < v.len() && v[i] == x {
        assert(v@.contains(x));
        return;
    }
    let ghost before = v@;
    assert(before == old(v)@);
    v.insert(i, x);
    assert forall|y: u32| v@.contains(y) <==> (before.contains(y) || y == x) by {
        if v@.contains(y) {
            let k = choose|k: int| 0 <= k < v@.len() && v@[k] == y;
            if k < i {
                assert(before[k] == y);
            } else if k > i {
                assert(before[k - 1] == y);
            }
        }
        if before.contains(y) {
            let k = choose|k: int| 0 <= k < before.len() && before[k] == y;
            if k < i {
                assert(v@[k] == y);
            } else {
                assert(v@[k + 1] == y);
            }
        }
        if y == x {
            assert(v@[i as int] == x);
        }
    }
    assert forall|a: int, b: int| 0 <= a < b < v@.len() implies v@[a] < v@[b] by {
        let pa = if a < i { a } else if a == i { -1 } else { a - 1 };
        let pb = if b < i { b } else if b == i { -1 } else { b - 1 };
        if pa >= 0 {
            assert(v@[a] == before[pa]);
        }
        if pb >= 0 {
            assert(v@[b] == before[pb]);
        }
        if a == i && b > i {
            assert(i < before.len());
            assert(before[i as int] > x || before[i as int] == x);
            assert(before[i as int] <= before[pb]);
        }
        if b == i && a < i {
            assert(before[a] < x);
        }
    }
}

/// The indices whose lock flag is to be toggled: each once, ascending.
#[derive(Clone, Debug, PartialEq, Eq)]
pub struct LockToggleRequest {
    indices: Vec<u32>,
}

impl LockToggleRequest {
    pub closed spec fn spec_indices(&self) -> Seq<u32> {
        self.indices@
    }

    pub open spec fn wf(&self) -> bool {
        strictly_ascending(self.spec_indices())
    }

    /// The request for the indices in `raw`, in any order and with repeats.
    pub fn new(raw: &Vec<u32>) -> (r: LockToggleRequest)
        ensures
            r.wf(),
            same_values(r.spec_indices(), raw@),
    {
        let mut v: Vec<u32> = Vec::new();
        let mut i: usize = 0;
        while i < raw.len()
            invariant
                i <= raw@.len(),
                strictly_ascending(v@),
                forall|y: u32| v@.contains(y) <==> raw@.subrange(0, i as int).contains(y),
            decreases raw.len() - i,
        {
            let ghost v0 = v@;
            insert_sorted(&mut v, raw[i]);
            proof {
                assert forall|y: u32|
                    raw@.subrange(0, i + 1).contains(y) <==> (raw@.subrange(0, i as int).contains(
                        y,
                    ) || y == raw@[i as int]) by {
                    let a = raw@.subrange(0, i + 1);
                    let b = raw@.subrange(0, i as int);
                    if a.contains(y) {
                        let k = choose|k: int| 0 <= k < a.len() && a[k] == y;
                        if k < i {
                            assert(b[k] == y);
                        }
                    }
                    if b.contains(y) {
                        let k = choose|k: int| 0 <= k < b.len() && b[k] == y;
                        assert(a[k] == y);
                    }
                    if y == raw@[i as int] {
                        assert(a[i as int] == y);
                    }
                }
                assert forall|y: u32| v@.contains(y) <==> raw@.subrange(0, i + 1).contains(y) by {
                    assert(v@.contains(y) <==> (v0.contains(y) || y == raw@[i as int]));
                    assert(v0.contains(y) <==> raw@.subrange(0, i as int).contains(y));
                }
            }
            i = i + 1;
        }
        assert(raw@.subrange(0, raw@.len() as int) =~= raw@);
        LockToggleRequest { indices: v }
    }

    /// The indices, ascending.
    pub fn indices(&self) -> (r: &Vec<u32>)
        ensures
            r@ == self.spec_indices(),
    {
        &self.indices
    }
}

/// The outcome for one index.
#[derive(Clone, Copy, Debug, PartialEq, Eq, Structural)]
pub enum LockOutcome {
    Flipped,
    Failed,
}

/// What the caller is to do next.
#[derive(Clone, Copy, Debug, PartialEq, Eq, Structural)]
pub enum LockAction {
    /// Navigate to item `index` (slot `slot` of page `page`), toggle its lock
    /// and report whether the icon flipped.
    SelectAndToggle { index: u32, page: u32, slot: u32 },
    /// Toggle the selected item's lock again and report whether it flipped.
    Toggle { index: u32 },
    /// Every index has its outcome.
    Finish,
}

/// The abstract state of a lock replay.
pub struct LockView {
    pub indices: Seq<u32>,
    pub per_page: u32,
    pub max_attempts: u32,
    /// Position of the current index.
    pub pos: nat,
    /// Toggles made on the current index.
    pub attempts: u32,
    pub report: Seq<(u32, LockOutcome)>,
    pub navigations: nat,
    pub toggles: Seq<nat>,
}

pub open spec fn lock_wf(s: LockView) -> bool {
    &&& s.per_page > 0
    &&& s.max_attempts > 0
    &&& strictly_ascending(s.indices)
    &&& s.pos <= s.indices.len()
    &&& s.report.len() == s.pos
    &&& s.toggles.len() == s.indices.len()
    &&& s.attempts <= s.max_attempts
    &&& s.pos < s.indices.len() ==> s.attempts > 0 && s.toggles[s.pos as int] == s.attempts
    &&& forall|i: int| 0 <= i < s.pos ==> (#[trigger] s.report[i]).0 == s.indices[i]
    &&& forall|i: int| s.pos < i < s.indices.len() ==> #[trigger] s.toggles[i] == 0
    &&& forall|i: int| 0 <= i < s.pos ==> 1 <= #[trigger] s.toggles[i] <= s.max_attempts
    &&& s.navigations == if s.pos < s.indices.len() { s.pos + 1 } else { s.pos }
}

/// The action that selects the item at position `pos`, or the end.
pub open spec fn select_action(s: LockView, pos: nat) -> LockAction {
    if pos < s.indices.len() {
        let index = s.indices[pos as int];
        LockAction::SelectAndToggle {
            index,
            page: (index / s.per_page) as u32,
            slot: (index % s.per_page) as u32,
        }
    } else {
        LockAction::Finish
    }
}

/// Record `outcome` for the current index and move to the next.
pub open spec fn lock_advance(s: LockView, outcome: LockOutcome) -> (LockView, LockAction) {
    let pos = s.pos + 1;
    (
        LockView {
            pos,
            attempts: if pos < s.indices.len() { 1 } else { 0 },
            report: s.report.push((s.indices[s.pos as int], outcome)),
            navigations: if pos < s.indices.len() { s.navigations + 1 } else { s.navigations },
            toggles: if pos < s.indices.len() { s.toggles.update(pos as int, 1) } else { s.toggles },
            ..s
        },
        select_action(s, pos),
    )
}

/// One transition: the toggle of the current index did or did not flip.
pub open spec fn lock_step(s: LockView, flipped: bool) -> (LockView, LockAction) {
    if s.pos >= s.indices.len() {
        (s, LockAction::Finish)
    } else if flipped {
        lock_advance(s, LockOutcome::Flipped)
    } else if s.attempts >= s.max_attempts {
        lock_advance(s, LockOutcome::Failed)
    } else {
        (
            LockView {
                attempts: (s.attempts + 1) as u32,
                toggles: s.toggles.update(s.pos as int, (s.attempts + 1) as nat),
                ..s
            },
            LockAction::Toggle { index: s.indices[s.pos as int] },
        )
    }
}

/// The lock replay: visits the requested indices in ascending order and
/// toggles each up to `max_attempts` times until the icon flips.
pub struct LockFlipController {
    indices: Vec<u32>,
    per_page: u32,
    max_attempts: u32,
    pos: usize,
    attempts: u32,
    report: Vec<(u32, LockOutcome)>,
    navigations: u64,
    toggles: Vec<u32>,
}

impl View for LockFlipController {
    type V = LockView;

    closed spec fn view(&self) -> LockView {
        LockView {
            indices: self.indices@,
            per_page: self.per_page,
            max_attempts: self.max_attempts,
            pos: self.pos as nat,
            attempts: self.attempts,
            report: self.report@,
            navigations: self.navigations as nat,
            toggles: self.toggles@.map_values(|t: u32| t as nat),
        }
    }
}

impl LockFlipController {
    pub open spec fn wf(&self) -> bool {
        lock_wf(self@)
    }

    /// Starts the replay of `request` over pages of `per_page` slots; the
    /// first action selects the lowest index, or finishes at once when there
    /// is none.
    pub fn new(request: LockToggleRequest, per_page: u32, max_attempts: u32) -> (r: (
        LockFlipController,
        LockAction,
    ))
        requires
            request.wf(),
            per_page > 0,
            max_attempts > 0,
        ensures
            r.0.wf(),
            r.0@.indices == request.spec_indices(),
            r.0@.per_page == per_page,
            r.0@.max_attempts == max_attempts,
            r.0@.pos == 0,
            r.0@.report.len() == 0,
            r.1 == select_action(r.0@, 0),
    {
        let indices = request.indices;
        let n = indices.len();
        let mut toggles: Vec<u32> = Vec::new();
        let mut i: usize = 0;
        while i < n
            invariant
                i <= n,
                n == indices@.len(),
                toggles@.len() == i,
                forall|k: int| 0 <= k < i ==> toggles@[k] == (if k == 0 { 1u32 } else { 0u32 }),
            decreases n - i,
        {
            toggles.push(if i == 0 { 1 } else { 0 });
            i = i + 1;
        }
        let c = LockFlipController {
            indices,
            per_page,
            max_attempts,
            pos: 0,
            attempts: if n > 0 { 1 } else { 0 },
            report: Vec::new(),
            navigations: if n > 0 { 1 } else { 0 },
            toggles,
        };
        let a = c.select(0);
        (c, a)
    }

    fn select(&self, pos: usize) -> (a: LockAction)
        requires
            self.per_page > 0,
        ensures
            a == select_action(self@, pos as nat),
    {
        if pos < self.indices.len() {
            let index = self.indices[pos];
            LockAction::SelectAndToggle {
                index,
                page: index / self.per_page,
                slot: index % self.per_page,
            }
        } else {
            LockAction::Finish
        }
    }

    fn advance(&mut self, outcome: LockOutcome) -> (a: LockAction)
        requires
            old(self).wf(),
            old(self)@.pos < old(self)@.indices.len(),
        ensures
            (final(self)@, a) == lock_advance(old(self)@, outcome),
    {
        let ghost s = self@;
        let n = self.indices.len();
        let index = self.indices[self.pos];
        self.report.push((index, outcome));
        assert(self.pos < n);
        self.pos = self.pos + 1;
        if self.pos < self.indices.len() {
            self.attempts = 1;
            self.navigations = self.navigations + 1;
            self.toggles.set(self.pos, 1);
        } else {
            self.attempts = 0;
        }
        proof {
            let t2 = if (s.pos + 1) < s.indices.len() {
                s.toggles.update((s.pos + 1) as int, 1)
            } else {
                s.toggles
            };
            assert(self@.toggles =~= t2);
        }
        self.select(self.pos)
    }

    /// Takes whether the last toggle flipped the icon and returns the next
    /// action.
    pub fn step(&mut self, flipped: bool) -> (a: LockAction)
        requires
            old(self).wf(),
        ensures
            (final(self)@, a) == lock_step(old(self)@, flipped),
            final(self).wf(),
    {
        proof {
            lemma_lock_step_wf(self@, flipped);
        }
        if self.pos >= self.indices.len() {
            LockAction::Finish
        } else if flipped {
            self.advance(LockOutcome::Flipped)
        } else if self.attempts >= self.max_attempts {
            self.advance(LockOutcome::Failed)
        } else {
            let ghost s = self@;
            self.attempts = self.attempts + 1;
            self.toggles.set(self.pos, self.attempts);
            proof {
                assert(self@.toggles =~= s.toggles.update(s.pos as int, (s.attempts + 1) as nat));
            }
            LockAction::Toggle { index: self.indices[self.pos] }
        }
    }

    /// The outcome of each index handled so far, ascending by index.
    pub fn report(&self) -> (r: &Vec<(u32, LockOutcome)>)
        ensures
            r@ == self@.report,
    {
        &self.report
    }

    /// Whether every index has its outcome.
    pub fn is_done(&self) -> (r: bool)
        ensures
            r == (self@.pos >= self@.indices.len()),
    {
        self.pos >= self.indices.len()
    }

    /// Navigations to an item made so far.
    pub fn navigations(&self) -> (r: u64)
        requires
            self.wf(),
        ensures
            r == self@.navigations,
    {
        self.navigations
    }

    /// Toggles made on the item at position `pos` of the request.
    pub fn toggles_at(&self, pos: usize) -> (r: Option<u32>)
        ensures
            pos < self@.toggles.len() ==> r == Some(self@.toggles[pos as int] as u32),
            pos >= self@.toggles.len() ==> r is None,
    {
        if pos < self.toggles.len() {
            Some(self.toggles[pos])
        } else {
            None
        }
    }
}

/// Every transition keeps the replay well formed.
pub proof fn lemma_lock_step_wf(s: LockView, flipped: bool)
    requires
        lock_wf(s),
    ensures
        lock_wf(lock_step(s, flipped).0),
{
    let s2 = lock_step(s, flipped).0;
    if s.pos < s.indices.len() {
        if flipped || s.attempts >= s.max_attempts {
            assert forall|i: int| 0 <= i < s2.pos implies (#[trigger] s2.report[i]).0
                == s2.indices[i] by {
                if i < s.pos {
                    assert(s2.report[i] == s.report[i]);
                }
            }
        }
    }
}

/// Once the replay is done the report covers every requested index exactly
/// once, in ascending order.
pub proof fn lemma_report_complete(s: LockView)
    requires
        lock_wf(s),
        s.pos >= s.indices.len(),
    ensures
        s.report.len() == s.indices.len(),
        forall|i: int| 0 <= i < s.report.len() ==> (#[trigger] s.report[i]).0 == s.indices[i],
        forall|i: int, j: int| 0 <= i < j < s.report.len() ==> s.report[i].0 < s.report[j].0,
{
}

} // verus!
