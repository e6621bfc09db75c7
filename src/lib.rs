//! Throughput sampling and visualisation state for a network speed indicator.
//!
//! The library turns per-tick snapshots of the machine's network interfaces
//! into byte rates, keeps bounded histories of those rates, and derives the
//! strings, tiers, colours and layout figures that the tray icon and the
//! detail panel draw.

pub mod format;
pub mod history;
pub mod icon;
pub mod layout;
pub mod monitor;
pub mod state;
pub mod theme;
pub mod wide;

pub use format::{classify, format_speed, format_speed_compact, format_speed_full, get_speed_color, get_speed_parts, tier_color, tooltip_text, SpeedTier};
pub use monitor::{interface_name, select_interface, InterfaceSnapshot, NetMonitor, NetStats, Observation, RateSample};
pub use history::HistoryBuffer;
pub use state::{AppState, PopupMode, ViewMode};
pub use icon::{icon_label, icon_rgba, label_metrics, IconGenerator, TrayIconGenerator};
pub use layout::{graph_heights, graph_scale, panel_layout, popup_position, PanelLayout};
pub use wide::{registry_string_bytes, wide_string};
