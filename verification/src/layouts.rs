//! The layout engine: from an ordered list of tiled windows, the usable area
//! and a tag's layout parameters to one rectangle per window.
//!
//! All arithmetic is on integers, so the same input always gives the same
//! rectangles. A division's remainder is given to no cell.

use crate::types::{LayoutConfig, LayoutType, Rectangle, WindowId, RATIO_SCALE};
use vstd::prelude::*;

verus! {

/// The rectangle that the layout engine assigns to one window.
#[derive(Debug, Clone, Copy, PartialEq, Eq, Structural)]
pub struct Placement {
    pub window: WindowId,
    pub geometry: Rectangle,
}

/// Number of windows in the master column when `count` windows are tiled:
/// the configured number, but at least one and at most all of them.
pub open spec fn master_slots(master_count: usize, count: int) -> int {
    if master_count < 1 {
        1
    } else if master_count > count {
        count
    } else {
        master_count as int
    }
}

/// Width of the master column: `width * ratio / 1000`, rounded down. A ratio
/// above 1000 counts as 1000.
pub open spec fn master_width(width: u32, ratio: u32) -> int {
    if ratio >= RATIO_SCALE {
        width as int
    } else {
        (width * ratio) / (RATIO_SCALE as int)
    }
}

/// The gap that is left between `count` cells in a row of `total` pixels:
/// the configured gap where all the gaps fit into the row, none otherwise.
pub open spec fn fitting_gap(total: int, count: int, gap: int) -> int {
    if gap * (count - 1) <= total {
        gap
    } else {
        0
    }
}

/// Size of each of `count` equal cells in a row of `total` pixels.
pub open spec fn cell_extent(total: int, count: int, gap: int) -> int {
    (total - fitting_gap(total, count, gap) * (count - 1)) / count
}

/// Distance from the start of the row to the start of cell `index`.
pub open spec fn cell_start(total: int, count: int, gap: int, index: int) -> int {
    index * (cell_extent(total, count, gap) + fitting_gap(total, count, gap))
}

/// A coordinate as `i32`, pinned to the largest or the smallest value where
/// it would not fit.
pub open spec fn pin_coordinate(value: int) -> i32 {
    if value > i32::MAX {
        i32::MAX
    } else if value < i32::MIN {
        i32::MIN
    } else {
        value as i32
    }
}

/// The rectangle of window `index` out of `count` windows in the
/// master-stack layout.
///
/// With more windows than master slots, the master column takes
/// `master_width` pixels on the left and the stack column takes the rest,
/// less one gap between the columns. Otherwise the master column takes the
/// whole width. Each column is cut into equal rows.
pub open spec fn tile_cell(
    area: Rectangle,
    layout: LayoutConfig,
    gap: u32,
    count: int,
    index: int,
) -> Rectangle {
    let slots = master_slots(layout.master_count, count);
    let width = area.width as int;
    let height = area.height as int;
    if count <= slots {
        Rectangle {
            x: area.x,
            y: pin_coordinate(area.y + cell_start(height, count, gap as int, index)),
            width: area.width,
            height: cell_extent(height, count, gap as int) as u32,
        }
    } else {
        let master = master_width(area.width, layout.master_ratio);
        let between = fitting_gap(width - master, 2, gap as int);
        if index < slots {
            Rectangle {
                x: area.x,
                y: pin_coordinate(area.y + cell_start(height, slots, gap as int, index)),
                width: master as u32,
                height: cell_extent(height, slots, gap as int) as u32,
            }
        } else {
            Rectangle {
                x: pin_coordinate(area.x + master + between),
                y: pin_coordinate(
                    area.y + cell_start(height, count - slots, gap as int, index - slots),
                ),
                width: (width - master - between) as u32,
                height: cell_extent(height, count - slots, gap as int) as u32,
            }
        }
    }
}

/// The rectangle that a layout other than `Floating` assigns to window
/// `index` out of `count` tiled windows.
pub open spec fn layout_cell(
    area: Rectangle,
    layout: LayoutConfig,
    gap: u32,
    count: int,
    index: int,
) -> Rectangle {
    match layout.layout_type {
        LayoutType::Tiling => tile_cell(area, layout, gap, count, index),
        _ => area,
    }
}

/// The part of the screen that tiled windows share: the screen without the
/// bar at its top and without the outer gap along its four edges. A side
/// that the bar and the gaps use up is zero.
pub open spec fn usable_area(screen: Rectangle, bar_height: u32, outer_gap: u32) -> Rectangle {
    Rectangle {
        x: pin_coordinate(screen.x + outer_gap),
        y: pin_coordinate(screen.y + bar_height + outer_gap),
        width: if screen.width >= 2 * outer_gap {
            (screen.width - 2 * outer_gap) as u32
        } else {
            0
        },
        height: if screen.height >= bar_height + 2 * outer_gap {
            (screen.height - bar_height - 2 * outer_gap) as u32
        } else {
            0
        },
    }
}

/// What `arrange` returns: nothing for the floating layout, else one
/// placement per window, in the order of the windows.
pub open spec fn arrangement(
    windows: Seq<WindowId>,
    area: Rectangle,
    layout: LayoutConfig,
    gap: u32,
) -> Seq<Placement> {
    if layout.layout_type == LayoutType::Floating {
        Seq::empty()
    } else {
        Seq::new(
            windows.len(),
            |i: int|
                Placement {
                    window: windows[i],
                    geometry: layout_cell(area, layout, gap, windows.len() as int, i),
                },
        )
    }
}

proof fn lemma_cells_fit(total: int, count: int, gap: int, index: int)
    requires
        0 <= total,
        0 < count,
        0 <= gap,
        0 <= index < count,
    ensures
        0 <= fitting_gap(total, count, gap) <= gap,
        fitting_gap(total, count, gap) * (count - 1) <= total,
        0 <= cell_extent(total, count, gap) <= total,
        0 <= cell_start(total, count, gap, index),
        cell_start(total, count, gap, index) + cell_extent(total, count, gap) <= total,
{
    let g = fitting_gap(total, count, gap);
    let rest = total - g * (count - 1);
    let e = cell_extent(total, count, gap);
    assert(g * (count - 1) <= total) by (nonlinear_arith)
        requires
            g == 0 || (g == gap && gap * (count - 1) <= total),
            0 <= total,
    ;
    assert(0 <= g * (count - 1)) by (nonlinear_arith)
        requires
            0 <= g,
            0 < count,
    ;
    assert(0 <= e && e * count <= rest && e <= rest) by (nonlinear_arith)
        requires
            e == rest / count,
            0 <= rest,
            0 < count,
    ;
    assert(0 <= index * (e + g) && index * (e + g) + e <= total) by (nonlinear_arith)
        requires
            0 <= index < count,
            0 <= e,
            0 <= g,
            e * count + g * (count - 1) <= total,
    ;
}

proof fn lemma_master_width_fits(width: u32, ratio: u32)
    ensures
        0 <= master_width(width, ratio) <= width,
{
    if ratio < RATIO_SCALE {
        assert(0 <= (width * ratio) / 1000 <= width) by (nonlinear_arith)
            requires
                0 <= ratio < 1000,
                0 <= width,
        ;
    }
}

fn pinned(base: i32, offset: u32) -> (r: i32)
    ensures
        r == pin_coordinate(base + offset),
{
    let wide: i64 = base as i64 + offset as i64;
    if wide > i32::MAX as i64 {
        i32::MAX
    } else {
        wide as i32
    }
}

/// Size of a cell and the distance from one cell to the next.
fn split_row(total: u32, count: usize, gap: u32) -> (r: (u32, u64))
    requires
        count > 0,
    ensures
        r.0 == cell_extent(total as int, count as int, gap as int),
        r.1 == r.0 + fitting_gap(total as int, count as int, gap as int),
{
    proof {
        lemma_cells_fit(total as int, count as int, gap as int, 0);
    }
    let gaps: u128 = (count - 1) as u128;
    assert(gap * (count - 1) <= 0xffff_ffff * 0xffff_ffff_ffff_ffff) by (nonlinear_arith)
        requires
            0 <= gap <= 0xffff_ffff,
            0 <= count - 1 <= 0xffff_ffff_ffff_ffff,
    ;
    let needed: u128 = gap as u128 * gaps;
    let kept: u32 = if needed <= total as u128 {
        gap
    } else {
        0
    };
    assert(kept == fitting_gap(total as int, count as int, gap as int));
    assert(kept * (count - 1) <= total);
    let used: u128 = kept as u128 * gaps;
    let extent: u128 = (total as u128 - used) / (count as u128);
    assert(extent == cell_extent(total as int, count as int, gap as int));
    (extent as u32, extent as u64 + kept as u64)
}

/// The start of cell `index` in a row cut by `split_row`.
fn row_offset(total: u32, count: usize, gap: u32, index: usize) -> (r: u32)
    requires
        index < count,
    ensures
        r == cell_start(total as int, count as int, gap as int, index as int),
{
    proof {
        lemma_cells_fit(total as int, count as int, gap as int, index as int);
    }
    let (extent, step) = split_row(total, count, gap);
    let offset: u128 = index as u128 * step as u128;
    offset as u32
}

fn pick_master_slots(master_count: usize, count: usize) -> (r: usize)
    requires
        count > 0,
    ensures
        r == master_slots(master_count, count as int),
        1 <= r <= count,
{
    if master_count < 1 {
        1
    } else if master_count > count {
        count
    } else {
        master_count
    }
}

fn master_column_width(width: u32, ratio: u32) -> (r: u32)
    ensures
        r == master_width(width, ratio),
{
    proof {
        lemma_master_width_fits(width, ratio);
    }
    if ratio >= RATIO_SCALE {
        width
    } else {
        assert(width * ratio <= 0xffff_ffff * 1000) by (nonlinear_arith)
            requires
                0 <= width <= 0xffff_ffff,
                0 <= ratio < 1000,
        ;
        let scaled: u64 = width as u64 * ratio as u64;
        (scaled / (RATIO_SCALE as u64)) as u32
    }
}

/// Computes the usable area of a screen.
pub fn compute_usable_area(screen: Rectangle, bar_height: u32, outer_gap: u32) -> (area: Rectangle)
    ensures
        area == usable_area(screen, bar_height, outer_gap),
{
    let gaps: u64 = 2 * (outer_gap as u64);
    let reserved: u64 = bar_height as u64 + gaps;
    let left: i64 = screen.x as i64 + outer_gap as i64;
    let top: i64 = screen.y as i64 + bar_height as i64 + outer_gap as i64;
    Rectangle {
        x: if left > i32::MAX as i64 {
            i32::MAX
        } else {
            left as i32
        },
        y: if top > i32::MAX as i64 {
            i32::MAX
        } else {
            top as i32
        },
        width: if screen.width as u64 >= gaps {
            (screen.width as u64 - gaps) as u32
        } else {
            0
        },
        height: if screen.height as u64 >= reserved {
            (screen.height as u64 - reserved) as u32
        } else {
            0
        },
    }
}

/// The master-stack rectangle of window `index` out of `count`.
pub fn tile_rectangle(
    area: Rectangle,
    layout: &LayoutConfig,
    gap: u32,
    count: usize,
    index: usize,
) -> (r: Rectangle)
    requires
        index < count,
    ensures
        r == tile_cell(area, *layout, gap, count as int, index as int),
{
    let slots: usize = pick_master_slots(layout.master_count, count);
    if count <= slots {
        let (extent, _step) = split_row(area.height, count, gap);
        let top: u32 = row_offset(area.height, count, gap, index);
        Rectangle { x: area.x, y: pinned(area.y, top), width: area.width, height: extent }
    } else {
        let master: u32 = master_column_width(area.width, layout.master_ratio);
        proof {
            lemma_master_width_fits(area.width, layout.master_ratio);
        }
        let rest: u32 = area.width - master;
        let between: u32 = if gap <= rest {
            gap
        } else {
            0
        };
        assert(between == fitting_gap(area.width - master, 2, gap as int));
        if index < slots {
            let (extent, _step) = split_row(area.height, slots, gap);
            let top: u32 = row_offset(area.height, slots, gap, index);
            Rectangle { x: area.x, y: pinned(area.y, top), width: master, height: extent }
        } else {
            let (extent, _step) = split_row(area.height, count - slots, gap);
            let top: u32 = row_offset(area.height, count - slots, gap, index - slots);
            Rectangle {
                x: pinned(area.x, master + between),
                y: pinned(area.y, top),
                width: rest - between,
                height: extent,
            }
        }
    }
}

/// Places the tiled windows of one tag.
///
/// `windows` are the tag's windows that are neither floating, nor minimized,
/// nor fullscreen, in the tag's order. The floating layout places nothing;
/// monocle gives every window the whole usable area; tiling is the
/// master-stack layout. With no window the result is empty.
pub fn arrange(windows: &Vec<WindowId>, usable_area: Rectangle, layout: &LayoutConfig, gap: u32) -> (placements:
    Vec<Placement>)
    ensures
        placements@ == arrangement(windows@, usable_area, *layout, gap),
{
    let mut placements: Vec<Placement> = Vec::new();
    match layout.layout_type {
        LayoutType::Floating => {
            assert(placements@ =~= arrangement(windows@, usable_area, *layout, gap));
        },
        LayoutType::Monocle => {
            let mut i: usize = 0;
            while i < windows.len()
                invariant
                    i <= windows.len(),
                    layout.layout_type == LayoutType::Monocle,
                    placements@ =~= arrangement(windows@, usable_area, *layout, gap).take(i as int),
                decreases windows.len() - i,
            {
                placements.push(Placement { window: windows[i], geometry: usable_area });
                i += 1;
            }
            assert(placements@ =~= arrangement(windows@, usable_area, *layout, gap));
        },
        LayoutType::Tiling => {
            let count: usize = windows.len();
            let mut i: usize = 0;
            while i < count
                invariant
                    i <= count,
                    count == windows.len(),
                    layout.layout_type == LayoutType::Tiling,
                    placements@ =~= arrangement(windows@, usable_area, *layout, gap).take(i as int),
                decreases count - i,
            {
                let geometry = tile_rectangle(usable_area, layout, gap, count, i);
                placements.push(Placement { window: windows[i], geometry });
                i += 1;
            }
            assert(placements@ =~= arrangement(windows@, usable_area, *layout, gap));
        },
    }
    placements
}

/// Master-stack conservation. With more tiled windows than master slots and
/// a ratio of at most 1000, every master window is `width * ratio / 1000`
/// pixels wide, rounded down, and the master width, the gap between the
/// columns and the width of every stack window add up to the usable width.
/// The gap between the columns is the configured one wherever it fits beside
/// the master column.
pub proof fn lemma_tiling_conserves_width(
    area: Rectangle,
    layout: LayoutConfig,
    gap: u32,
    count: int,
    index: int,
)
    requires
        layout.master_ratio <= RATIO_SCALE,
        0 <= index < count,
        master_slots(layout.master_count, count) < count,
    ensures
        ({
            let slots = master_slots(layout.master_count, count);
            let master = (area.width * layout.master_ratio) / 1000;
            let between = fitting_gap(area.width - master, 2, gap as int);
            let cell = tile_cell(area, layout, gap, count, index);
            &&& 0 <= master <= area.width
            &&& gap <= area.width - master ==> between == gap
            &&& index < slots ==> cell.width == master
            &&& index >= slots ==> master + between + cell.width == area.width
        }),
{
    lemma_master_width_fits(area.width, layout.master_ratio);
    if layout.master_ratio == RATIO_SCALE {
        assert((area.width * 1000) / 1000 == area.width) by (nonlinear_arith);
    }
}

/// No window extends outside the usable area: every rectangle that the
/// tiling and monocle layouts assign lies within the area. This holds of
/// every area, also where a coordinate had to be pinned.
pub proof fn lemma_cells_within_area(
    area: Rectangle,
    layout: LayoutConfig,
    gap: u32,
    count: int,
    index: int,
)
    requires
        0 <= index < count,
    ensures
        area.encloses(layout_cell(area, layout, gap, count, index)),
{
    if layout.layout_type == LayoutType::Tiling {
        let slots = master_slots(layout.master_count, count);
        let height = area.height as int;
        lemma_master_width_fits(area.width, layout.master_ratio);
        if count <= slots {
            lemma_cells_fit(height, count, gap as int, index);
        } else if index < slots {
            lemma_cells_fit(height, slots, gap as int, index);
        } else {
            lemma_cells_fit(height, count - slots, gap as int, index - slots);
        }
    }
}

/// A window as a workspace holds it: its handle and its rectangle.
#[derive(Debug, Clone, Copy, PartialEq, Eq, Structural)]
pub struct Window {
    pub id: WindowId,
    pub geometry: Rectangle,
}

/// A way to place all the windows of a workspace.
pub trait Layout {
    /// The rectangle of window `index` out of `count`.
    spec fn cell(&self, area: Rectangle, count: int, index: int) -> Rectangle;

    /// The layout's symbol.
    spec fn spec_symbol(&self) -> Seq<char>;

    /// Gives every window its rectangle.
    fn arrange(&self, windows: &mut Vec<Window>, area: Rectangle)
        ensures
            final(windows).len() == old(windows).len(),
            forall|i: int|
                0 <= i < old(windows).len() ==> (#[trigger] final(windows)[i]) == (Window {
                    id: old(windows)[i].id,
                    geometry: self.cell(area, old(windows).len() as int, i),
                }),
    ;

    /// The symbol that the bar shows for the layout.
    fn symbol(&self) -> (symbol: &'static str)
        ensures
            symbol@ == self.spec_symbol(),
    ;
}

/// The master-stack layout without gaps.
#[derive(Debug, Clone, Copy, PartialEq, Eq, Structural)]
pub struct TileLayout {
    /// The share of the width that the master column takes, in thousandths.
    pub mfact: u32,
    /// The number of windows in the master column.
    pub nmaster: u32,
}

impl TileLayout {
    /// The layout's parameters.
    pub open spec fn config(self) -> LayoutConfig {
        LayoutConfig {
            layout_type: LayoutType::Tiling,
            master_ratio: self.mfact,
            master_count: self.nmaster as usize,
        }
    }
}

impl Default for TileLayout {
    /// A master column of 550 thousandths with one window.
    fn default() -> (layout: Self)
        ensures
            layout == (TileLayout { mfact: 550, nmaster: 1 }),
    {
        TileLayout { mfact: 550, nmaster: 1 }
    }
}

impl Layout for TileLayout {
    open spec fn cell(&self, area: Rectangle, count: int, index: int) -> Rectangle {
        tile_cell(area, self.config(), 0, count, index)
    }

    open spec fn spec_symbol(&self) -> Seq<char> {
        "[]="@
    }

    fn arrange(&self, windows: &mut Vec<Window>, area: Rectangle) {
        let config = LayoutConfig {
            layout_type: LayoutType::Tiling,
            master_ratio: self.mfact,
            master_count: self.nmaster as usize,
        };
        let count: usize = windows.len();
        let mut i: usize = 0;
        while i < count
            invariant
                i <= count,
                count == windows.len(),
                count == old(windows).len(),
                config == self.config(),
                forall|j: int|
                    0 <= j < i ==> (#[trigger] windows[j]) == (Window {
                        id: old(windows)[j].id,
                        geometry: self.cell(area, count as int, j),
                    }),
                forall|j: int| i <= j < count ==> (#[trigger] windows[j]) == old(windows)[j],
            decreases count - i,
        {
            let geometry = tile_rectangle(area, &config, 0, count, i);
            let id = windows[i].id;
            windows.set(i, Window { id, geometry });
            i += 1;
        }
    }

    fn symbol(&self) -> (symbol: &'static str) {
        "[]="
    }
}

} // verus!
