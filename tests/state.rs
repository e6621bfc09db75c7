use netflux::{AppState, PopupMode, ViewMode};

#[test]
fn new_state_is_empty() {
    let s = AppState::new();
    assert_eq!((s.down_bps, s.up_bps), (0, 0));
    assert_eq!(s.down_history.len(), 0);
    assert_eq!(s.up_history.capacity(), 240);
    assert_eq!(s.down_history.capacity(), 240);
    assert_eq!(s.view_mode, ViewMode::All);
    assert_eq!(s.interface_name, "");
}

#[test]
fn update_sets_rates_and_name() {
    let mut s = AppState::new();
    s.set_view_mode(ViewMode::UploadOnly);
    s.update(10, 20, "Ethernet".to_string());
    s.update(30, 40, "Wi-Fi".to_string());
    assert_eq!((s.down_bps, s.up_bps), (30, 40));
    assert_eq!(s.interface_name, "Wi-Fi");
    assert_eq!(s.down_history.snapshot(), vec![10, 30]);
    assert_eq!(s.up_history.snapshot(), vec![20, 40]);
    assert_eq!(s.view_mode, ViewMode::UploadOnly);
}

#[test]
fn update_evicts_oldest_past_capacity() {
    let mut s = AppState::new();
    for v in 0..241u64 {
        s.update(v, 2 * v, String::new());
    }
    assert_eq!(s.down_history.len(), 240);
    assert_eq!(s.down_history.get(0), 1);
    assert_eq!(s.up_history.get(239), 480);
}

#[test]
fn view_mode_switches() {
    let mut s = AppState::new();
    s.update(1, 2, "x".to_string());
    s.set_view_mode(ViewMode::DownloadOnly);
    assert_eq!(s.view_mode, ViewMode::DownloadOnly);
    let m: PopupMode = ViewMode::All;
    s.set_view_mode(m);
    assert_eq!(s.view_mode, ViewMode::All);
    assert_eq!(s.down_bps, 1);
}
