//! The state that the renderers read between ticks.

use crate::history::{keep_last, HistoryBuffer};
use vstd::prelude::*;

verus! {

/// Capacity of the detail panel's histories: one value per tick.
pub const PANEL_HISTORY: usize = 240;

/// Which directions the detail panel shows.
#[derive(Clone, Copy, Debug, PartialEq, Eq, Structural)]
pub enum ViewMode {
    All,
    DownloadOnly,
    UploadOnly,
}

/// The view modes under the name the panel uses for them.
pub type PopupMode = ViewMode;

/// Everything the renderers read: current rates, their histories, the
/// interface they come from and the view mode.
pub struct AppState {
    pub down_bps: u64,
    pub up_bps: u64,
    pub down_history: HistoryBuffer,
    pub up_history: HistoryBuffer,
    pub view_mode: ViewMode,
    pub interface_name: String,
}

impl AppState {
    /// Both histories have the panel's capacity.
    pub open spec fn wf(&self) -> bool {
        self.down_history.cap() == PANEL_HISTORY && self.up_history.cap() == PANEL_HISTORY
    }

    /// Zero rates, empty histories of the panel's capacity, no interface
    /// name, all directions shown.
    pub fn new() -> (r: Self)
        ensures
            r.down_bps == 0,
            r.up_bps == 0,
            r.down_history@ == Seq::<u64>::empty(),
            r.up_history@ == Seq::<u64>::empty(),
            r.down_history.cap() == PANEL_HISTORY,
            r.up_history.cap() == PANEL_HISTORY,
            r.view_mode == ViewMode::All,
            r.interface_name@ == Seq::<char>::empty(),
            r.wf(),
    {
        AppState {
            down_bps: 0,
            up_bps: 0,
            down_history: HistoryBuffer::new(PANEL_HISTORY),
            up_history: HistoryBuffer::new(PANEL_HISTORY),
            view_mode: ViewMode::All,
            interface_name: String::new(),
        }
    }

    /// Records one tick: the new rates become current and join their
    /// histories, and the interface name is replaced. The view mode stays.
    pub fn update(&mut self, down: u64, up: u64, interface: String)
        requires
            old(self).wf(),
        ensures
            final(self).wf(),
            final(self).down_bps == down,
            final(self).up_bps == up,
            final(self).interface_name == interface,
            final(self).down_history@ == keep_last(old(self).down_history@.push(down), PANEL_HISTORY as nat),
            final(self).up_history@ == keep_last(old(self).up_history@.push(up), PANEL_HISTORY as nat),
            final(self).view_mode == old(self).view_mode,
    {
        self.down_bps = down;
        self.up_bps = up;
        self.interface_name = interface;
        self.down_history.push(down);
        self.up_history.push(up);
    }

    /// Switches the view mode; nothing else changes.
    pub fn set_view_mode(&mut self, mode: ViewMode)
        ensures
            final(self).view_mode == mode,
            final(self).wf() == old(self).wf(),
            final(self).down_bps == old(self).down_bps,
            final(self).up_bps == old(self).up_bps,
            final(self).down_history == old(self).down_history,
            final(self).up_history == old(self).up_history,
            final(self).interface_name == old(self).interface_name,
    {
        self.view_mode = mode;
    }
}

} // verus!
