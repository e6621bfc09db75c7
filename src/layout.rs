//! Geometry of the detail panel: where each section goes in each view mode,
//! where the panel sits, and how high each graph value is drawn.

use crate::format::MB;
use crate::history::{scale_of, HistoryBuffer};
use crate::state::ViewMode;
use vstd::prelude::*;

verus! {

/// Width of the detail panel.
pub const PANEL_WIDTH: i32 = 240;

/// Height of the panel when it shows both directions.
pub const PANEL_HEIGHT_FULL: i32 = 220;

/// Height of the panel when it shows one direction.
pub const PANEL_HEIGHT_SINGLE: i32 = 110;

/// Gap between the panel and the edges of the work area.
pub const PANEL_MARGIN: i32 = 12;

/// Height of a graph at full scale.
pub const GRAPH_HEIGHT: u64 = 50;

/// The smallest full scale of a graph, so that idle traffic stays flat.
pub const MIN_GRAPH_SCALE: u64 = MB;

/// Where the panel draws each of its parts, for one view mode.
#[derive(Clone, Copy, Debug, PartialEq, Eq, Structural)]
pub struct PanelLayout {
    pub width: i32,
    pub height: i32,
    pub show_down: bool,
    pub show_up: bool,
    pub down_baseline: i32,
    pub down_label_y: i32,
    pub down_value_y: i32,
    pub up_baseline: i32,
    pub up_label_y: i32,
    pub up_value_y: i32,
}

/// The layout of the panel in `mode`: both sections stacked, or the one
/// shown at the top of a half-height panel.
pub open spec fn layout_of(mode: ViewMode) -> PanelLayout {
    let all = mode == ViewMode::All;
    PanelLayout {
        width: PANEL_WIDTH,
        height: if all {
            PANEL_HEIGHT_FULL
        } else {
            PANEL_HEIGHT_SINGLE
        },
        show_down: mode != ViewMode::UploadOnly,
        show_up: mode != ViewMode::DownloadOnly,
        down_baseline: 100,
        down_label_y: 12,
        down_value_y: 30,
        up_baseline: if all {
            210
        } else {
            100
        },
        up_label_y: if all {
            120
        } else {
            12
        },
        up_value_y: if all {
            138
        } else {
            30
        },
    }
}

/// The full scale of a graph over `s`: its largest value, but at least
/// `MIN_GRAPH_SCALE`.
pub open spec fn graph_scale_of(s: Seq<u64>) -> u64 {
    if scale_of(s) < MIN_GRAPH_SCALE {
        MIN_GRAPH_SCALE
    } else {
        scale_of(s)
    }
}

/// The layout of the panel in `mode`.
pub fn panel_layout(mode: ViewMode) -> (r: PanelLayout)
    ensures
        r == layout_of(mode),
{
    let all = match mode {
        ViewMode::All => true,
        _ => false,
    };
    PanelLayout {
        width: PANEL_WIDTH,
        height: if all {
            PANEL_HEIGHT_FULL
        } else {
            PANEL_HEIGHT_SINGLE
        },
        show_down: match mode {
            ViewMode::UploadOnly => false,
            _ => true,
        },
        show_up: match mode {
            ViewMode::DownloadOnly => false,
            _ => true,
        },
        down_baseline: 100,
        down_label_y: 12,
        down_value_y: 30,
        up_baseline: if all {
            210
        } else {
            100
        },
        up_label_y: if all {
            120
        } else {
            12
        },
        up_value_y: if all {
            138
        } else {
            30
        },
    }
}

/// Top-left corner of the panel in `mode`, placed in the bottom-right corner
/// of a work area whose right and bottom edges are given, a margin away.
pub fn popup_position(work_right: i32, work_bottom: i32, mode: ViewMode) -> (r: (i32, i32))
    requires
        work_right >= i32::MIN + PANEL_WIDTH + PANEL_MARGIN,
        work_bottom >= i32::MIN + PANEL_HEIGHT_FULL + PANEL_MARGIN,
    ensures
        r.0 == work_right - layout_of(mode).width - PANEL_MARGIN,
        r.1 == work_bottom - layout_of(mode).height - PANEL_MARGIN,
{
    let layout = panel_layout(mode);
    (work_right - layout.width - PANEL_MARGIN, work_bottom - layout.height - PANEL_MARGIN)
}

/// The full scale of a graph over `history`.
pub fn graph_scale(history: &HistoryBuffer) -> (r: u64)
    ensures
        r == graph_scale_of(history@),
        r >= MIN_GRAPH_SCALE,
        forall|i: int| 0 <= i < history@.len() ==> history@[i] <= r,
{
    let m = history.max();
    if m < MIN_GRAPH_SCALE {
        MIN_GRAPH_SCALE
    } else {
        m
    }
}

/// Height of each value of `history` on its graph, oldest first: its share
/// of the graph's full scale times `GRAPH_HEIGHT`, rounded down.
pub fn graph_heights(history: &HistoryBuffer) -> (r: Vec<u32>)
    ensures
        r@.len() == history@.len(),
        forall|i: int|
            0 <= i < history@.len() ==> #[trigger] r@[i] == history@[i] * GRAPH_HEIGHT
                / graph_scale_of(history@) as int,
        forall|i: int| 0 <= i < r@.len() ==> #[trigger] r@[i] <= GRAPH_HEIGHT,
{
    let scale = graph_scale(history);
    let n = history.len();
    let mut out: Vec<u32> = Vec::new();
    let mut i: usize = 0;
    while i < n
        invariant
            n == history@.len(),
            i <= n,
            scale == graph_scale_of(history@),
            scale >= MIN_GRAPH_SCALE,
            forall|k: int| 0 <= k < history@.len() ==> history@[k] <= scale,
            out@.len() == i,
            forall|k: int|
                0 <= k < i ==> #[trigger] out@[k] == history@[k] * GRAPH_HEIGHT / scale as int,
            forall|k: int| 0 <= k < i ==> #[trigger] out@[k] <= GRAPH_HEIGHT,
        decreases n - i,
    {
        let v = history.get(i);
        let v128: u128 = v as u128;
        assert(v128 * 50 <= (scale as u128) * 50) by (nonlinear_arith)
            requires v128 <= scale;
        let h: u128 = v128 * 50 / (scale as u128);
        assert(h <= 50) by (nonlinear_arith)
            requires h == v128 * 50 / (scale as int), v128 <= scale, scale > 0;
        out.push(h as u32);
        i = i + 1;
    }
    out
}

} // verus!
