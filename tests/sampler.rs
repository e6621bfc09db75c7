use netflux::{interface_name, select_interface, InterfaceSnapshot, NetMonitor, RateSample};

const SEC: u64 = 1_000_000_000;

fn iface(id: u64, in_octets: u64, out_octets: u64) -> InterfaceSnapshot {
    InterfaceSnapshot {
        id,
        in_octets,
        out_octets,
        is_up: true,
        is_loopback: false,
        alias: vec![0x45, 0x74, 0x68, 0, 0],
    }
}

#[test]
fn first_reading_gives_no_sample() {
    let mut m = NetMonitor::new();
    assert_eq!(m.sample(&iface(1, 1000, 500), 0), None);
    let last = m.last_snapshot.unwrap();
    assert_eq!((last.id, last.in_octets, last.out_octets, last.at_nanos), (1, 1000, 500, 0));
}

#[test]
fn scenario_three_ticks_with_switch() {
    let mut m = NetMonitor::new();
    assert!(m.tick(&vec![iface(1, 1000, 500)], 0).is_none());
    let st = m.tick(&vec![iface(1, 3000, 1500)], SEC).unwrap();
    assert_eq!((st.down_bps, st.up_bps), (2000, 1000));
    assert_eq!(st.interface_name, "Eth");
    assert!(m.tick(&vec![iface(2, 90_000, 80_000)], 2 * SEC).is_none());
    let last = m.last_snapshot.unwrap();
    assert_eq!((last.id, last.in_octets, last.at_nanos), (2, 90_000, 2 * SEC));
}

#[test]
fn sample_scenario_direct() {
    let mut m = NetMonitor::new();
    assert_eq!(m.sample(&iface(7, 1000, 500), 0), None);
    assert_eq!(
        m.sample(&iface(7, 3000, 1500), SEC),
        Some(RateSample { down_bps: 2000, up_bps: 1000 })
    );
    assert_eq!(m.sample(&iface(8, 3000, 1500), 2 * SEC), None);
    assert_eq!(m.last_snapshot.unwrap().id, 8);
}

#[test]
fn counter_regression_gives_zero() {
    let mut m = NetMonitor::new();
    assert!(m.tick(&vec![iface(1, 5000, 100)], 0).is_none());
    let st = m.tick(&vec![iface(1, 4000, 300)], SEC).unwrap();
    assert_eq!(st.down_bps, 0);
    assert_eq!(st.up_bps, 200);
}

#[test]
fn rate_is_rounded_down() {
    let mut m = NetMonitor::new();
    m.sample(&iface(1, 1000, 0), 5 * SEC);
    let s = m.sample(&iface(1, 3001, 7), 7 * SEC).unwrap();
    assert_eq!(s, RateSample { down_bps: 1000, up_bps: 3 });
}

#[test]
fn rate_over_fractional_seconds() {
    let mut m = NetMonitor::new();
    m.sample(&iface(1, 0, 0), 0);
    let s = m.sample(&iface(1, 3000, 1), 1_500_000_000).unwrap();
    assert_eq!(s, RateSample { down_bps: 2000, up_bps: 0 });
}

#[test]
fn identity_change_ignores_counters() {
    let mut m = NetMonitor::new();
    m.sample(&iface(1, 0, 0), 0);
    assert_eq!(m.sample(&iface(2, u64::MAX, u64::MAX), SEC), None);
    let s = m.sample(&iface(2, u64::MAX, u64::MAX), 2 * SEC).unwrap();
    assert_eq!(s, RateSample { down_bps: 0, up_bps: 0 });
}

#[test]
fn no_time_passed_gives_no_sample() {
    let mut m = NetMonitor::new();
    m.sample(&iface(1, 0, 0), SEC);
    assert_eq!(m.sample(&iface(1, 500, 500), SEC), None);
    assert_eq!(m.sample(&iface(1, 900, 900), SEC / 2), None);
    assert_eq!(m.last_snapshot.unwrap().at_nanos, SEC / 2);
    let s = m.sample(&iface(1, 1900, 900), SEC / 2 + SEC).unwrap();
    assert_eq!(s, RateSample { down_bps: 1000, up_bps: 0 });
}

#[test]
fn rate_saturates_at_max() {
    let mut m = NetMonitor::new();
    m.sample(&iface(1, 0, 0), 0);
    let s = m.sample(&iface(1, u64::MAX, 1), 1).unwrap();
    assert_eq!(s, RateSample { down_bps: u64::MAX, up_bps: SEC });
}

#[test]
fn selects_busiest_eligible() {
    let mut lo = iface(1, u64::MAX, u64::MAX);
    lo.is_loopback = true;
    let mut down = iface(2, u64::MAX, 5);
    down.is_up = false;
    let v = vec![lo, down, iface(3, 60, 40), iface(4, 200, 100), iface(5, 150, 150)];
    assert_eq!(select_interface(&v), Some(3));
}

#[test]
fn select_sum_does_not_overflow() {
    let v = vec![iface(1, u64::MAX, 1), iface(2, u64::MAX, 0)];
    assert_eq!(select_interface(&v), Some(0));
}

#[test]
fn select_none_when_only_loopback() {
    let mut lo = iface(1, 10, 10);
    lo.is_loopback = true;
    assert_eq!(select_interface(&vec![lo]), None);
    assert_eq!(select_interface(&vec![]), None);
}

#[test]
fn select_idle_eligible_interface() {
    assert_eq!(select_interface(&vec![iface(9, 0, 0)]), Some(0));
}

#[test]
fn tick_without_eligible_changes_nothing() {
    let mut m = NetMonitor::new();
    m.sample(&iface(1, 10, 10), 0);
    let mut lo = iface(2, 99, 99);
    lo.is_loopback = true;
    assert!(m.tick(&vec![lo], SEC).is_none());
    let last = m.last_snapshot.unwrap();
    assert_eq!((last.id, last.in_octets, last.at_nanos), (1, 10, 0));
}

#[test]
fn name_drops_nul_padding() {
    assert_eq!(interface_name(&vec![0, 0x57, 0x69, 0x2d, 0x46, 0x69, 0, 0, 0]), "Wi-Fi");
    assert_eq!(interface_name(&vec![0, 0, 0]), "");
    assert_eq!(interface_name(&vec![]), "");
}

#[test]
fn name_decodes_utf16() {
    assert_eq!(interface_name(&vec![0xD83D, 0xDE00, 0x41, 0]), "\u{1F600}A");
    assert_eq!(interface_name(&vec![0xD800, 0x41]), "\u{FFFD}A");
    assert_eq!(interface_name(&vec![0x41, 0, 0x42]), "A\u{0}B");
}
