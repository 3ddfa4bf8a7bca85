//! Screen geometry of the inventory panel for the supported aspect ratios.

use vstd::arithmetic::div_mod::{lemma_div_is_ordered, lemma_div_multiples_vanish};
use vstd::arithmetic::mul::lemma_mul_inequality;
use vstd::prelude::*;

verus! {

/// A rectangle in screen pixels.
#[derive(Clone, Copy, Debug, PartialEq, Eq, Structural)]
pub struct Rect {
    pub left: i64,
    pub top: i64,
    pub width: u32,
    pub height: u32,
}

/// One of the supported screen aspect ratios.
#[derive(Clone, Copy, Debug, PartialEq, Eq, Structural)]
pub enum AspectBucket {
    Ratio16x9,
    Ratio8x5,
    Ratio4x3,
}

/// Failures of geometry construction and lookup.
#[derive(Clone, Copy, Debug, PartialEq, Eq, Structural)]
pub enum GeometryError {
    UnsupportedResolution,
    IndexOutOfRange,
}

/// The detail-panel fields whose screen region the geometry knows.
#[derive(Clone, Copy, Debug, PartialEq, Eq, Structural)]
pub enum FieldKind {
    Name,
    SetName,
    Star,
    Level,
    MainStatName,
    MainStatValue,
    LockIcon,
    ItemCount,
    Anchor,
}

/// Number of sub-stat lines in the detail panel.
pub const SUB_STAT_SLOTS: u32 = 4;

/// An axis-aligned box in the coordinates of a bucket's reference resolution.
#[derive(Clone, Copy, Debug, PartialEq, Eq, Structural)]
pub struct RefBox {
    pub x: u32,
    pub y: u32,
    pub w: u32,
    pub h: u32,
}

/// The layout of one aspect bucket, measured at its reference resolution.
#[derive(Clone, Copy, Debug, PartialEq, Eq, Structural)]
pub struct Preset {
    pub ref_width: u32,
    pub ref_height: u32,
    /// Top-left corner of the first grid cell.
    pub grid_x: u32,
    pub grid_y: u32,
    /// Size of one grid cell.
    pub cell_w: u32,
    pub cell_h: u32,
    /// Distance between the corners of neighbouring cells.
    pub pitch_x: u32,
    pub pitch_y: u32,
    pub columns: u32,
    pub rows: u32,
    pub name: RefBox,
    pub set_name: RefBox,
    pub star: RefBox,
    pub level: RefBox,
    pub main_stat_name: RefBox,
    pub main_stat_value: RefBox,
    pub lock_icon: RefBox,
    pub item_count: RefBox,
    pub anchor: RefBox,
    /// First sub-stat line; the others follow `sub_stat_step` lower each.
    pub sub_stat: RefBox,
    pub sub_stat_step: u32,
}

/// Whether `width` x `height` has exactly the ratio of `b`.
pub open spec fn bucket_matches(width: u32, height: u32, b: AspectBucket) -> bool {
    match b {
        AspectBucket::Ratio16x9 => height as int * 16 == width as int * 9,
        AspectBucket::Ratio8x5 => height as int * 8 == width as int * 5,
        AspectBucket::Ratio4x3 => height as int * 4 == width as int * 3,
    }
}

pub open spec fn box_within(b: RefBox, ref_width: u32, ref_height: u32) -> bool {
    b.x as int + b.w as int <= ref_width as int && b.y as int + b.h as int <= ref_height as int
}

/// What every preset satisfies: a positive reference size, a non-empty grid
/// that lies inside the reference frame, and panel boxes inside it too.
pub open spec fn preset_wf(p: Preset) -> bool {
    &&& p.ref_width > 0
    &&& p.ref_height > 0
    &&& p.columns > 0
    &&& p.rows > 0
    &&& p.grid_x as int + (p.columns as int - 1) * p.pitch_x as int + p.cell_w as int
        <= p.ref_width as int
    &&& p.grid_y as int + (p.rows as int - 1) * p.pitch_y as int + p.cell_h as int
        <= p.ref_height as int
    &&& box_within(p.name, p.ref_width, p.ref_height)
    &&& box_within(p.set_name, p.ref_width, p.ref_height)
    &&& box_within(p.star, p.ref_width, p.ref_height)
    &&& box_within(p.level, p.ref_width, p.ref_height)
    &&& box_within(p.main_stat_name, p.ref_width, p.ref_height)
    &&& box_within(p.main_stat_value, p.ref_width, p.ref_height)
    &&& box_within(p.lock_icon, p.ref_width, p.ref_height)
    &&& box_within(p.item_count, p.ref_width, p.ref_height)
    &&& box_within(p.anchor, p.ref_width, p.ref_height)
    &&& p.sub_stat.x as int + p.sub_stat.w as int <= p.ref_width as int
    &&& p.sub_stat.y as int + (SUB_STAT_SLOTS as int - 1) * p.sub_stat_step as int
        + p.sub_stat.h as int <= p.ref_height as int
}

pub open spec fn rb(x: u32, y: u32, w: u32, h: u32) -> RefBox {
    RefBox { x, y, w, h }
}

/// The layout table: one preset per bucket.
pub open spec fn preset_of(b: AspectBucket) -> Preset {
    match b {
        AspectBucket::Ratio16x9 => Preset {
            ref_width: 1600,
            ref_height: 900,
            grid_x: 81,
            grid_y: 125,
            cell_w: 100,
            cell_h: 120,
            pitch_x: 121,
            pitch_y: 146,
            columns: 8,
            rows: 5,
            name: rb(1128, 103, 320, 32),
            set_name: rb(1130, 610, 300, 28),
            star: rb(1130, 232, 180, 30),
            level: rb(1136, 362, 60, 24),
            main_stat_name: rb(1130, 200, 200, 26),
            main_stat_value: rb(1130, 240, 200, 44),
            lock_icon: rb(1502, 352, 30, 30),
            item_count: rb(1240, 26, 260, 30),
            anchor: rb(40, 20, 200, 40),
            sub_stat: rb(1146, 396, 300, 30),
            sub_stat_step: 34,
        },
        AspectBucket::Ratio8x5 => Preset {
            ref_width: 1440,
            ref_height: 900,
            grid_x: 72,
            grid_y: 125,
            cell_w: 92,
            cell_h: 114,
            pitch_x: 108,
            pitch_y: 132,
            columns: 7,
            rows: 5,
            name: rb(1016, 103, 290, 32),
            set_name: rb(1018, 640, 270, 28),
            star: rb(1018, 232, 160, 30),
            level: rb(1022, 362, 56, 24),
            main_stat_name: rb(1018, 200, 180, 26),
            main_stat_value: rb(1018, 240, 180, 44),
            lock_icon: rb(1352, 352, 28, 28),
            item_count: rb(1116, 26, 240, 30),
            anchor: rb(36, 20, 180, 40),
            sub_stat: rb(1030, 396, 270, 30),
            sub_stat_step: 34,
        },
        AspectBucket::Ratio4x3 => Preset {
            ref_width: 1280,
            ref_height: 960,
            grid_x: 64,
            grid_y: 134,
            cell_w: 80,
            cell_h: 98,
            pitch_x: 96,
            pitch_y: 118,
            columns: 7,
            rows: 6,
            name: rb(902, 110, 256, 30),
            set_name: rb(904, 690, 240, 28),
            star: rb(904, 248, 144, 28),
            level: rb(908, 386, 50, 24),
            main_stat_name: rb(904, 214, 160, 26),
            main_stat_value: rb(904, 256, 160, 42),
            lock_icon: rb(1202, 376, 26, 26),
            item_count: rb(992, 28, 210, 28),
            anchor: rb(32, 22, 160, 38),
            sub_stat: rb(914, 422, 240, 30),
            sub_stat_step: 36,
        },
    }
}

fn ref_box(x: u32, y: u32, w: u32, h: u32) -> (r: RefBox)
    ensures
        r == rb(x, y, w, h),
{
    RefBox { x, y, w, h }
}

/// The preset of `b`.
pub fn preset_for(b: AspectBucket) -> (p: Preset)
    ensures
        p == preset_of(b),
        preset_wf(p),
{
    match b {
        AspectBucket::Ratio16x9 => Preset {
            ref_width: 1600,
            ref_height: 900,
            grid_x: 81,
            grid_y: 125,
            cell_w: 100,
            cell_h: 120,
            pitch_x: 121,
            pitch_y: 146,
            columns: 8,
            rows: 5,
            name: ref_box(1128, 103, 320, 32),
            set_name: ref_box(1130, 610, 300, 28),
            star: ref_box(1130, 232, 180, 30),
            level: ref_box(1136, 362, 60, 24),
            main_stat_name: ref_box(1130, 200, 200, 26),
            main_stat_value: ref_box(1130, 240, 200, 44),
            lock_icon: ref_box(1502, 352, 30, 30),
            item_count: ref_box(1240, 26, 260, 30),
            anchor: ref_box(40, 20, 200, 40),
            sub_stat: ref_box(1146, 396, 300, 30),
            sub_stat_step: 34,
        },
        AspectBucket::Ratio8x5 => Preset {
            ref_width: 1440,
            ref_height: 900,
            grid_x: 72,
            grid_y: 125,
            cell_w: 92,
            cell_h: 114,
            pitch_x: 108,
            pitch_y: 132,
            columns: 7,
            rows: 5,
            name: ref_box(1016, 103, 290, 32),
            set_name: ref_box(1018, 640, 270, 28),
            star: ref_box(1018, 232, 160, 30),
            level: ref_box(1022, 362, 56, 24),
            main_stat_name: ref_box(1018, 200, 180, 26),
            main_stat_value: ref_box(1018, 240, 180, 44),
            lock_icon: ref_box(1352, 352, 28, 28),
            item_count: ref_box(1116, 26, 240, 30),
            anchor: ref_box(36, 20, 180, 40),
            sub_stat: ref_box(1030, 396, 270, 30),
            sub_stat_step: 34,
        },
        AspectBucket::Ratio4x3 => Preset {
            ref_width: 1280,
            ref_height: 960,
            grid_x: 64,
            grid_y: 134,
            cell_w: 80,
            cell_h: 98,
            pitch_x: 96,
            pitch_y: 118,
            columns: 7,
            rows: 6,
            name: ref_box(902, 110, 256, 30),
            set_name: ref_box(904, 690, 240, 28),
            star: ref_box(904, 248, 144, 28),
            level: ref_box(908, 386, 50, 24),
            main_stat_name: ref_box(904, 214, 160, 26),
            main_stat_value: ref_box(904, 256, 160, 42),
            lock_icon: ref_box(1202, 376, 26, 26),
            item_count: ref_box(992, 28, 210, 28),
            anchor: ref_box(32, 22, 160, 38),
            sub_stat: ref_box(914, 422, 240, 30),
            sub_stat_step: 36,
        },
    }
}

/// The bucket whose exact ratio `width` x `height` has, tried in the order
/// 16:9, 8:5, 4:3.
pub open spec fn bucket_of(width: u32, height: u32) -> Option<AspectBucket> {
    if bucket_matches(width, height, AspectBucket::Ratio16x9) {
        Some(AspectBucket::Ratio16x9)
    } else if bucket_matches(width, height, AspectBucket::Ratio8x5) {
        Some(AspectBucket::Ratio8x5)
    } else if bucket_matches(width, height, AspectBucket::Ratio4x3) {
        Some(AspectBucket::Ratio4x3)
    } else {
        None
    }
}

/// Picks the aspect bucket of a window size by exact ratio.
pub fn detect_bucket(width: u32, height: u32) -> (r: Result<AspectBucket, GeometryError>)
    ensures
        r matches Ok(b) ==> bucket_of(width, height) == Some(b),
        r is Err ==> bucket_of(width, height) is None && r == Err::<AspectBucket, GeometryError>(
            GeometryError::UnsupportedResolution,
        ),
{
    let w = width as u64;
    let h = height as u64;
    if h * 16 == w * 9 {
        Ok(AspectBucket::Ratio16x9)
    } else if h * 8 == w * 5 {
        Ok(AspectBucket::Ratio8x5)
    } else if h * 4 == w * 3 {
        Ok(AspectBucket::Ratio4x3)
    } else {
        Err(GeometryError::UnsupportedResolution)
    }
}

/// `v` measured at reference size `reference`, scaled to size `actual`.
pub open spec fn scale(v: int, actual: u32, reference: u32) -> int {
    v * actual as int / reference as int
}

proof fn lemma_scale_bounded(v: int, actual: u32, reference: u32)
    requires
        0 <= v <= reference as int,
        reference > 0,
    ensures
        0 <= scale(v, actual, reference) <= actual as int,
{
    lemma_mul_inequality(0, v, actual as int);
    lemma_mul_inequality(v, reference as int, actual as int);
    lemma_div_is_ordered(0, v * actual as int, reference as int);
    lemma_div_is_ordered(v * actual as int, reference as int * actual as int, reference as int);
    lemma_div_multiples_vanish(actual as int, reference as int);
}

fn scale_exec(v: u32, actual: u32, reference: u32) -> (r: u32)
    requires
        v <= reference,
        reference > 0,
    ensures
        r as int == scale(v as int, actual, reference),
{
    proof {
        lemma_scale_bounded(v as int, actual, reference);
        lemma_mul_inequality(v as int, u32::MAX as int, actual as int);
        lemma_mul_inequality(actual as int, u32::MAX as int, u32::MAX as int);
    }
    ((v as u64 * actual as u64) / reference as u64) as u32
}

/// Screen geometry of one window: its size and origin, and the layout of its
/// aspect bucket.
#[derive(Clone, Copy, Debug, PartialEq, Eq, Structural)]
pub struct GeometryModel {
    pub width: u32,
    pub height: u32,
    pub left: i32,
    pub top: i32,
    pub bucket: AspectBucket,
    pub preset: Preset,
}

/// Whether a rectangle's corner lies within what a window origin plus a
/// window-sized offset can reach.
pub open spec fn rect_bounded(r: Rect) -> bool {
    &&& i32::MIN as int <= r.left as int <= i32::MAX as int + u32::MAX as int
    &&& i32::MIN as int <= r.top as int <= i32::MAX as int + u32::MAX as int
}

/// A reference box scaled to the window and moved to its origin.
pub open spec fn place(g: GeometryModel, x: int, y: int, w: int, h: int) -> Rect {
    Rect {
        left: (g.left as int + scale(x, g.width, g.preset.ref_width)) as i64,
        top: (g.top as int + scale(y, g.height, g.preset.ref_height)) as i64,
        width: scale(w, g.width, g.preset.ref_width) as u32,
        height: scale(h, g.height, g.preset.ref_height) as u32,
    }
}

pub open spec fn field_box(p: Preset, kind: FieldKind) -> RefBox {
    match kind {
        FieldKind::Name => p.name,
        FieldKind::SetName => p.set_name,
        FieldKind::Star => p.star,
        FieldKind::Level => p.level,
        FieldKind::MainStatName => p.main_stat_name,
        FieldKind::MainStatValue => p.main_stat_value,
        FieldKind::LockIcon => p.lock_icon,
        FieldKind::ItemCount => p.item_count,
        FieldKind::Anchor => p.anchor,
    }
}

impl GeometryModel {
    pub open spec fn wf(&self) -> bool {
        &&& self.preset == preset_of(self.bucket)
        &&& bucket_matches(self.width, self.height, self.bucket)
    }

    /// Slots on one page of the grid.
    pub open spec fn spec_slots_per_page(&self) -> nat {
        (self.preset.columns * self.preset.rows) as nat
    }

    /// Builds the geometry of a `width` x `height` window at (`left`, `top`)
    /// for the bucket the caller chose; the size must have that bucket's
    /// ratio exactly.
    pub fn new(width: u32, height: u32, left: i32, top: i32, bucket: AspectBucket) -> (r: Result<
        GeometryModel,
        GeometryError,
    >)
        ensures
            bucket_matches(width, height, bucket) <==> r is Ok,
            r matches Ok(g) ==> g.wf() && g.width == width && g.height == height && g.left == left
                && g.top == top && g.bucket == bucket,
            r is Err ==> r == Err::<GeometryModel, GeometryError>(
                GeometryError::UnsupportedResolution,
            ),
    {
        let w = width as u64;
        let h = height as u64;
        let ok = match bucket {
            AspectBucket::Ratio16x9 => h * 16 == w * 9,
            AspectBucket::Ratio8x5 => h * 8 == w * 5,
            AspectBucket::Ratio4x3 => h * 4 == w * 3,
        };
        if ok {
            Ok(GeometryModel { width, height, left, top, bucket, preset: preset_for(bucket) })
        } else {
            Err(GeometryError::UnsupportedResolution)
        }
    }

    /// Number of grid slots visible on one page.
    pub fn slots_per_page(&self) -> (r: u32)
        requires
            self.wf(),
        ensures
            r as nat == self.spec_slots_per_page(),
            r > 0,
    {
        proof {
            vstd::arithmetic::mul::lemma_mul_strictly_positive(
                self.preset.columns as int,
                self.preset.rows as int,
            );
        }
        self.preset.columns * self.preset.rows
    }

    fn place_exec(&self, x: u32, y: u32, w: u32, h: u32) -> (r: Rect)
        requires
            self.wf(),
            x as int + w as int <= self.preset.ref_width,
            y as int + h as int <= self.preset.ref_height,
        ensures
            r == place(*self, x as int, y as int, w as int, h as int),
            rect_bounded(r),
    {
        let p = self.preset;
        let sx = scale_exec(x, self.width, p.ref_width);
        let sy = scale_exec(y, self.height, p.ref_height);
        let sw = scale_exec(w, self.width, p.ref_width);
        let sh = scale_exec(h, self.height, p.ref_height);
        Rect { left: self.left as i64 + sx as i64, top: self.top as i64 + sy as i64, width: sw, height: sh }
    }

    /// The screen rectangle of grid slot `index` (row-major) on the current
    /// page.
    pub fn slot_rect(&self, index: u32) -> (r: Result<Rect, GeometryError>)
        requires
            self.wf(),
        ensures
            index < self.spec_slots_per_page() <==> r is Ok,
            r matches Ok(rect) ==> rect == place(
                *self,
                self.preset.grid_x + (index % self.preset.columns) * self.preset.pitch_x,
                self.preset.grid_y + (index / self.preset.columns) * self.preset.pitch_y,
                self.preset.cell_w as int,
                self.preset.cell_h as int,
            ),
            r is Err ==> r == Err::<Rect, GeometryError>(GeometryError::IndexOutOfRange),
            r matches Ok(rect) ==> rect_bounded(rect),
    {
        let p = self.preset;
        let n = self.slots_per_page();
        if index >= n {
            return Err(GeometryError::IndexOutOfRange);
        }
        let col = index % p.columns;
        let row = index / p.columns;
        proof {
            vstd::arithmetic::div_mod::lemma_div_is_ordered(
                index as int,
                (p.columns * p.rows) as int,
                p.columns as int,
            );
            lemma_div_multiples_vanish(p.rows as int, p.columns as int);
            assert(p.columns as int * p.rows as int == p.rows as int * p.columns as int)
                by (nonlinear_arith);
            assert(row < p.rows) by (nonlinear_arith)
                requires
                    index < p.columns * p.rows,
                    row == index / p.columns,
                    p.columns > 0,
            {
                vstd::arithmetic::div_mod::lemma_div_is_ordered(
                    index as int,
                    (p.columns * p.rows) as int,
                    p.columns as int,
                );
            }
            lemma_mul_inequality(col as int, p.columns as int - 1, p.pitch_x as int);
            lemma_mul_inequality(row as int, p.rows as int - 1, p.pitch_y as int);
        }
        let x = p.grid_x + col * p.pitch_x;
        let y = p.grid_y + row * p.pitch_y;
        Ok(self.place_exec(x, y, p.cell_w, p.cell_h))
    }

    /// The screen rectangle of a detail-panel field.
    pub fn field_rect(&self, kind: FieldKind) -> (r: Rect)
        requires
            self.wf(),
        ensures
            r == place(
                *self,
                field_box(self.preset, kind).x as int,
                field_box(self.preset, kind).y as int,
                field_box(self.preset, kind).w as int,
                field_box(self.preset, kind).h as int,
            ),
            rect_bounded(r),
    {
        let p = self.preset;
        let b = match kind {
            FieldKind::Name => p.name,
            FieldKind::SetName => p.set_name,
            FieldKind::Star => p.star,
            FieldKind::Level => p.level,
            FieldKind::MainStatName => p.main_stat_name,
            FieldKind::MainStatValue => p.main_stat_value,
            FieldKind::LockIcon => p.lock_icon,
            FieldKind::ItemCount => p.item_count,
            FieldKind::Anchor => p.anchor,
        };
        self.place_exec(b.x, b.y, b.w, b.h)
    }

    /// The screen rectangle of sub-stat line `line`.
    pub fn sub_stat_rect(&self, line: u32) -> (r: Result<Rect, GeometryError>)
        requires
            self.wf(),
        ensures
            line < SUB_STAT_SLOTS <==> r is Ok,
            r matches Ok(rect) ==> rect == place(
                *self,
                self.preset.sub_stat.x as int,
                self.preset.sub_stat.y + line * self.preset.sub_stat_step,
                self.preset.sub_stat.w as int,
                self.preset.sub_stat.h as int,
            ),
            r is Err ==> r == Err::<Rect, GeometryError>(GeometryError::IndexOutOfRange),
    {
        if line >= SUB_STAT_SLOTS {
            return Err(GeometryError::IndexOutOfRange);
        }
        let p = self.preset;
        proof {
            lemma_mul_inequality(line as int, SUB_STAT_SLOTS as int - 1, p.sub_stat_step as int);
        }
        let y = p.sub_stat.y + line * p.sub_stat_step;
        Ok(self.place_exec(p.sub_stat.x, y, p.sub_stat.w, p.sub_stat.h))
    }
}

} // verus!
