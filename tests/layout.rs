use netflux::{graph_heights, graph_scale, panel_layout, popup_position, HistoryBuffer, ViewMode};

#[test]
fn layout_all() {
    let l = panel_layout(ViewMode::All);
    assert_eq!((l.width, l.height), (240, 220));
    assert!(l.show_down && l.show_up);
    assert_eq!((l.down_baseline, l.down_label_y, l.down_value_y), (100, 12, 30));
    assert_eq!((l.up_baseline, l.up_label_y, l.up_value_y), (210, 120, 138));
}

#[test]
fn layout_single_direction() {
    let d = panel_layout(ViewMode::DownloadOnly);
    assert_eq!(d.height, 110);
    assert!(d.show_down && !d.show_up);
    let u = panel_layout(ViewMode::UploadOnly);
    assert_eq!(u.height, 110);
    assert!(!u.show_down && u.show_up);
    assert_eq!((u.up_baseline, u.up_label_y, u.up_value_y), (100, 12, 30));
}

#[test]
fn popup_sits_in_corner() {
    assert_eq!(popup_position(1920, 1040, ViewMode::All), (1668, 808));
    assert_eq!(popup_position(1920, 1040, ViewMode::DownloadOnly), (1668, 918));
}

#[test]
fn graph_scale_has_floor() {
    let mut h = HistoryBuffer::new(4);
    assert_eq!(graph_scale(&h), 1_048_576);
    h.push(5);
    assert_eq!(graph_scale(&h), 1_048_576);
    h.push(3_000_000);
    assert_eq!(graph_scale(&h), 3_000_000);
}

#[test]
fn graph_heights_scale_to_fifty() {
    let mut h = HistoryBuffer::new(4);
    h.push(0);
    h.push(524_288);
    h.push(1_048_576);
    h.push(1);
    assert_eq!(graph_heights(&h), vec![0, 25, 50, 0]);
    let mut g = HistoryBuffer::new(2);
    g.push(2_097_152);
    g.push(1_048_576);
    assert_eq!(graph_heights(&g), vec![50, 25]);
    assert_eq!(graph_heights(&HistoryBuffer::new(3)), Vec::<u32>::new());
}
