//! Input sequences and every timing constant of the engine, scaled by the
//! speed level.

use crate::geometry::{place, rect_bounded, FieldKind, GeometryError, GeometryModel, Rect};
use vstd::prelude::*;

verus! {

/// Slowest speed level: waits longest.
pub const MIN_SPEED_LEVEL: u32 = 1;

/// Fastest speed level: waits shortest.
pub const MAX_SPEED_LEVEL: u32 = 5;

/// Base delay between selecting a slot and the first capture of the panel.
pub const SWITCH_SETTLE_MS: u32 = 40;

/// Base delay after toggling the lock icon.
pub const TOGGLE_SETTLE_MS: u32 = 120;

/// Base interval of the stabilization poll.
pub const POLL_INTERVAL_MS: u32 = 10;

/// Wheel notches that move the grid by one row.
pub const NOTCHES_PER_ROW: u32 = 5;

/// Wait multiplier of each speed level, in percent.
pub open spec fn speed_factor(level: u32) -> nat {
    if level <= 1 {
        500
    } else if level == 2 {
        300
    } else if level == 3 {
        200
    } else if level == 4 {
        150
    } else {
        100
    }
}

pub open spec fn valid_speed(level: u32) -> bool {
    MIN_SPEED_LEVEL <= level <= MAX_SPEED_LEVEL
}

/// `base_ms` scaled for `level`.
pub open spec fn scaled_wait(base_ms: u32, level: u32) -> nat {
    (base_ms * speed_factor(level) / 100) as nat
}

/// Scales a base wait for a speed level.
pub fn scale_wait(base_ms: u32, level: u32) -> (r: u64)
    requires
        valid_speed(level),
    ensures
        r as nat == scaled_wait(base_ms, level),
{
    let factor: u64 = if level <= 1 {
        500
    } else if level == 2 {
        300
    } else if level == 3 {
        200
    } else if level == 4 {
        150
    } else {
        100
    };
    (base_ms as u64 * factor) / 100
}

/// A faster level never waits longer than a slower one, and the fastest
/// level waits exactly the base time.
pub proof fn lemma_wait_monotone(base_ms: u32, slower: u32, faster: u32)
    requires
        valid_speed(slower),
        valid_speed(faster),
        slower <= faster,
    ensures
        scaled_wait(base_ms, faster) <= scaled_wait(base_ms, slower),
        scaled_wait(base_ms, MAX_SPEED_LEVEL) == base_ms,
{
    assert(speed_factor(faster) <= speed_factor(slower));
    vstd::arithmetic::mul::lemma_mul_inequality(
        speed_factor(faster) as int,
        speed_factor(slower) as int,
        base_ms as int,
    );
    assert(base_ms * speed_factor(faster) <= base_ms * speed_factor(slower)) by (nonlinear_arith)
        requires
            speed_factor(faster) <= speed_factor(slower),
    ;
    vstd::arithmetic::div_mod::lemma_div_is_ordered(
        base_ms * speed_factor(faster),
        base_ms * speed_factor(slower),
        100,
    );
}

/// One synthesized input event.
#[derive(Clone, Copy, Debug, PartialEq, Eq, Structural)]
pub enum InputAction {
    Click { x: i64, y: i64 },
    Scroll { notches: u32 },
}

/// An input to perform, then a wait for the UI to render it.
#[derive(Clone, Copy, Debug, PartialEq, Eq, Structural)]
pub struct NavStep {
    pub action: InputAction,
    pub settle_ms: u64,
}

pub open spec fn center_click(r: Rect) -> InputAction {
    InputAction::Click { x: (r.left + r.width / 2) as i64, y: (r.top + r.height / 2) as i64 }
}

fn click_center(r: Rect) -> (a: InputAction)
    requires
        rect_bounded(r),
    ensures
        a == center_click(r),
{
    InputAction::Click { x: r.left + (r.width / 2) as i64, y: r.top + (r.height / 2) as i64 }
}

/// All timing of the input sequences lives here.
#[derive(Clone, Copy, Debug, PartialEq, Eq, Structural)]
pub struct NavigationController {
    pub speed_level: u32,
    pub max_wait_switch_ms: u32,
    pub max_wait_scroll_ms: u32,
    pub scroll_stop_ms: u32,
}

impl NavigationController {
    pub open spec fn wf(&self) -> bool {
        valid_speed(self.speed_level)
    }

    pub fn new(speed_level: u32, max_wait_switch_ms: u32, max_wait_scroll_ms: u32, scroll_stop_ms: u32)
        -> (r: Option<NavigationController>)
        ensures
            r is Some <==> valid_speed(speed_level),
            r matches Some(n) ==> n.wf() && n.speed_level == speed_level && n.max_wait_switch_ms
                == max_wait_switch_ms && n.max_wait_scroll_ms == max_wait_scroll_ms
                && n.scroll_stop_ms == scroll_stop_ms,
    {
        if speed_level < MIN_SPEED_LEVEL || speed_level > MAX_SPEED_LEVEL {
            None
        } else {
            Some(NavigationController { speed_level, max_wait_switch_ms, max_wait_scroll_ms, scroll_stop_ms })
        }
    }

    /// Selects grid slot `index`: a click at its centre, then the switch delay.
    pub fn advance(&self, g: &GeometryModel, index: u32) -> (r: Result<NavStep, GeometryError>)
        requires
            self.wf(),
            g.wf(),
        ensures
            index < g.spec_slots_per_page() <==> r is Ok,
            r matches Ok(s) ==> s.settle_ms == scaled_wait(SWITCH_SETTLE_MS, self.speed_level)
                && s.action == center_click(
                place(
                    *g,
                    g.preset.grid_x + (index % g.preset.columns) * g.preset.pitch_x,
                    g.preset.grid_y + (index / g.preset.columns) * g.preset.pitch_y,
                    g.preset.cell_w as int,
                    g.preset.cell_h as int,
                ),
            ),
            r is Err ==> r == Err::<NavStep, GeometryError>(GeometryError::IndexOutOfRange),
    {
        match g.slot_rect(index) {
            Ok(rect) => Ok(
                NavStep {
                    action: click_center(rect),
                    settle_ms: scale_wait(SWITCH_SETTLE_MS, self.speed_level),
                },
            ),
            Err(e) => Err(e),
        }
    }

    /// Turns one page: scrolls the grid by its number of rows, then waits the
    /// scroll stop.
    pub fn scroll_page(&self, g: &GeometryModel) -> (r: NavStep)
        requires
            self.wf(),
            g.wf(),
        ensures
            r.action == (InputAction::Scroll { notches: (g.preset.rows * NOTCHES_PER_ROW) as u32 }),
            r.settle_ms == scaled_wait(self.scroll_stop_ms, self.speed_level),
    {
        NavStep {
            action: InputAction::Scroll { notches: g.preset.rows * NOTCHES_PER_ROW },
            settle_ms: scale_wait(self.scroll_stop_ms, self.speed_level),
        }
    }

    /// Toggles the lock flag of the selected item: a click on the lock icon.
    pub fn toggle_lock(&self, g: &GeometryModel) -> (r: NavStep)
        requires
            self.wf(),
            g.wf(),
        ensures
            r.action == center_click(
                place(
                    *g,
                    g.preset.lock_icon.x as int,
                    g.preset.lock_icon.y as int,
                    g.preset.lock_icon.w as int,
                    g.preset.lock_icon.h as int,
                ),
            ),
            r.settle_ms == scaled_wait(TOGGLE_SETTLE_MS, self.speed_level),
    {
        let rect = g.field_rect(FieldKind::LockIcon);
        NavStep { action: click_center(rect), settle_ms: scale_wait(TOGGLE_SETTLE_MS, self.speed_level) }
    }

    /// Upper bound of the stabilization poll after selecting a slot.
    pub fn switch_timeout_ms(&self) -> (r: u64)
        requires
            self.wf(),
        ensures
            r == scaled_wait(self.max_wait_switch_ms, self.speed_level),
    {
        scale_wait(self.max_wait_switch_ms, self.speed_level)
    }

    /// Upper bound of the settle poll after turning a page.
    pub fn scroll_timeout_ms(&self) -> (r: u64)
        requires
            self.wf(),
        ensures
            r == scaled_wait(self.max_wait_scroll_ms, self.speed_level),
    {
        scale_wait(self.max_wait_scroll_ms, self.speed_level)
    }

    /// Interval between two captures of a poll.
    pub fn poll_interval_ms(&self) -> (r: u64)
        requires
            self.wf(),
        ensures
            r == scaled_wait(POLL_INTERVAL_MS, self.speed_level),
            r > 0,
    {
        scale_wait(POLL_INTERVAL_MS, self.speed_level)
    }
}

} // verus!
