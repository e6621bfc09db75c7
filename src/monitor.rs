//! Interface selection and rate sampling. Time is counted in nanoseconds on
//! a monotonic clock; a rate is the counter growth over the elapsed time,
//! rounded down to whole bytes per second.

use vstd::prelude::*;

verus! {

/// Nanoseconds in one second: the monitor's timestamps count nanoseconds on
/// a monotonic clock.
pub const NANOS_PER_SEC: u64 = 1000000000;

/// One network interface as the operating system reports it at one tick.
pub struct InterfaceSnapshot {
    /// Stable, locally unique identity of the adapter.
    pub id: u64,
    /// Cumulative inbound octets.
    pub in_octets: u64,
    /// Cumulative outbound octets.
    pub out_octets: u64,
    /// Operational status is "up".
    pub is_up: bool,
    /// The link is a software loopback.
    pub is_loopback: bool,
    /// Display name in UTF-16 code units, possibly padded with NULs.
    pub alias: Vec<u16>,
}

/// Inbound and outbound rates in bytes per second.
#[derive(Clone, Copy, Debug, PartialEq, Eq, Structural)]
pub struct RateSample {
    pub down_bps: u64,
    pub up_bps: u64,
}

/// What one successful tick reports.
pub struct NetStats {
    pub down_bps: u64,
    pub up_bps: u64,
    pub interface_name: String,
}

/// The interface tracked since the previous tick: its identity, its counters
/// and when they were read.
#[derive(Clone, Copy, Debug, PartialEq, Eq, Structural)]
pub struct Observation {
    pub id: u64,
    pub in_octets: u64,
    pub out_octets: u64,
    pub at_nanos: u64,
}

/// Turns successive interface snapshots into rates; tracks one interface at
/// a time.
pub struct NetMonitor {
    pub last_snapshot: Option<Observation>,
}

/// An interface that may be reported: up, and not a loopback.
pub open spec fn is_eligible(s: InterfaceSnapshot) -> bool {
    s.is_up && !s.is_loopback
}

/// Lifetime traffic of an interface, both directions.
pub open spec fn total_octets(s: InterfaceSnapshot) -> int {
    s.in_octets + s.out_octets
}

pub open spec fn any_eligible(v: Seq<InterfaceSnapshot>) -> bool {
    exists|j: int| 0 <= j < v.len() && is_eligible(#[trigger] v[j])
}

/// `v[i]` is the eligible interface with the most lifetime traffic, and the
/// first such in `v`.
pub open spec fn is_busiest(v: Seq<InterfaceSnapshot>, i: int) -> bool {
    &&& 0 <= i < v.len()
    &&& is_eligible(v[i])
    &&& forall|j: int|
        0 <= j < v.len() && is_eligible(#[trigger] v[j]) ==> total_octets(v[j]) <= total_octets(
            v[i],
        )
    &&& forall|j: int| 0 <= j < i && is_eligible(#[trigger] v[j]) ==> total_octets(v[j]) < total_octets(v[i])
}

/// Counter growth from `before` to `now`; a counter that went back counts as
/// no growth.
pub open spec fn growth(before: u64, now: u64) -> int {
    if now >= before {
        now - before
    } else {
        0
    }
}

/// Whole bytes per second for `delta` bytes over `dt_nanos` nanoseconds,
/// rounded down and capped at the largest `u64`.
pub open spec fn rate_of(delta: int, dt_nanos: int) -> int {
    let r = delta * NANOS_PER_SEC / dt_nanos;
    if r > u64::MAX {
        u64::MAX as int
    } else {
        r
    }
}

/// The observation recorded for `s` read at `now`.
pub open spec fn observe(s: InterfaceSnapshot, now: u64) -> Observation {
    Observation { id: s.id, in_octets: s.in_octets, out_octets: s.out_octets, at_nanos: now }
}

/// The sample owed for `s` read at `now`, given what was tracked before: none
/// on the first reading, after a change of interface, or when no time passed.
pub open spec fn sample_of(last: Option<Observation>, s: InterfaceSnapshot, now: u64) -> Option<
    RateSample,
> {
    match last {
        None => None,
        Some(o) => {
            if o.id != s.id || now <= o.at_nanos {
                None
            } else {
                Some(
                    RateSample {
                        down_bps: rate_of(growth(o.in_octets, s.in_octets), now - o.at_nanos) as u64,
                        up_bps: rate_of(growth(o.out_octets, s.out_octets), now - o.at_nanos) as u64,
                    },
                )
            }
        },
    }
}

/// `u` without the NUL units at either end.
pub open spec fn trim_nul(u: Seq<u16>) -> Seq<u16>
    decreases u.len(),
{
    if u.len() == 0 {
        u
    } else if u.first() == 0 {
        trim_nul(u.drop_first())
    } else if u.last() == 0 {
        trim_nul(u.drop_last())
    } else {
        u
    }
}

/// UTF-16 decoding in which every unpaired surrogate becomes U+FFFD.
pub open spec fn utf16_lossy(u: Seq<u16>) -> Seq<char>
    decreases u.len(),
{
    if u.len() == 0 {
        Seq::empty()
    } else if u[0] < 0xD800 || u[0] >= 0xE000 {
        seq![(u[0] as u32) as char] + utf16_lossy(u.drop_first())
    } else if u[0] < 0xDC00 && u.len() >= 2 && 0xDC00 <= u[1] && u[1] < 0xE000 {
        seq![((0x10000 + (u[0] - 0xD800) * 0x400 + (u[1] - 0xDC00)) as u32) as char]
            + utf16_lossy(u.subrange(2, u.len() as int))
    } else {
        seq!['\u{FFFD}'] + utf16_lossy(u.drop_first())
    }
}

/// The display name that an interface alias stands for.
pub open spec fn name_of(alias: Seq<u16>) -> Seq<char> {
    utf16_lossy(trim_nul(alias))
}

/// What a tick owes for the interface `s` that it selected, given the
/// observation it started from and the one it left.
pub open spec fn tick_outcome(
    last: Option<Observation>,
    s: InterfaceSnapshot,
    now: u64,
    r: Option<NetStats>,
    new_last: Option<Observation>,
) -> bool {
    &&& new_last == Some(observe(s, now))
    &&& match sample_of(last, s, now) {
        None => r is None,
        Some(smp) => r matches Some(st) && st.down_bps == smp.down_bps && st.up_bps == smp.up_bps
            && st.interface_name@ == name_of(s.alias@),
    }
}

/// Relies on String::from_utf16_lossy: decodes UTF-16, replacing each
/// unpaired surrogate by U+FFFD.
#[verifier::external_body]
fn decode_utf16_lossy(units: &[u16]) -> (r: String)
    ensures
        r@ == utf16_lossy(units@),
{
    String::from_utf16_lossy(units)
}

/// The display name in an interface alias: NUL padding at either end is
/// dropped, the rest decoded from UTF-16.
pub fn interface_name(alias: &Vec<u16>) -> (r: String)
    ensures
        r@ == name_of(alias@),
{
    let mut start: usize = 0;
    let mut end: usize = alias.len();
    assert(alias@.subrange(0, alias@.len() as int) =~= alias@);
    while start < end && alias[start] == 0
        invariant
            start <= end <= alias@.len(),
            trim_nul(alias@.subrange(start as int, end as int)) == trim_nul(alias@),
        decreases end - start,
    {
        assert(alias@.subrange(start as int, end as int).drop_first() =~= alias@.subrange(
            start + 1,
            end as int,
        ));
        start = start + 1;
    }
    while end > start && alias[end - 1] == 0
        invariant
            start <= end <= alias@.len(),
            start < end ==> alias@[start as int] != 0,
            trim_nul(alias@.subrange(start as int, end as int)) == trim_nul(alias@),
        decreases end - start,
    {
        assert(alias@.subrange(start as int, end as int).drop_last() =~= alias@.subrange(
            start as int,
            end - 1,
        ));
        end = end - 1;
    }
    let mut units: Vec<u16> = Vec::new();
    let mut k: usize = start;
    while k < end
        invariant
            start <= k <= end <= alias@.len(),
            units@ =~= alias@.subrange(start as int, k as int),
        decreases end - k,
    {
        units.push(alias[k]);
        k = k + 1;
    }
    decode_utf16_lossy(units.as_slice())
}

/// Index of the interface to report on: the eligible one with the greatest
/// lifetime traffic, the first of equals; `None` when none is eligible.
pub fn select_interface(interfaces: &Vec<InterfaceSnapshot>) -> (r: Option<usize>)
    ensures
        r is None <==> !any_eligible(interfaces@),
        r matches Some(i) ==> is_busiest(interfaces@, i as int),
{
    let mut best: Option<usize> = None;
    let mut best_total: u128 = 0;
    let mut i: usize = 0;
    while i < interfaces.len()
        invariant
            i <= interfaces@.len(),
            best is None ==> forall|j: int| 0 <= j < i ==> !is_eligible(#[trigger] interfaces@[j]),
            best matches Some(b) ==> {
                &&& b < i
                &&& is_eligible(interfaces@[b as int])
                &&& best_total == total_octets(interfaces@[b as int])
                &&& forall|j: int|
                    0 <= j < i && is_eligible(#[trigger] interfaces@[j]) ==> total_octets(
                        interfaces@[j],
                    ) <= best_total
                &&& forall|j: int|
                    0 <= j < b && is_eligible(#[trigger] interfaces@[j]) ==> total_octets(
                        interfaces@[j],
                    ) < best_total
            },
        decreases interfaces@.len() - i,
    {
        let s = &interfaces[i];
        if s.is_up && !s.is_loopback {
            let total: u128 = s.in_octets as u128 + s.out_octets as u128;
            if best.is_none() || total > best_total {
                best = Some(i);
                best_total = total;
            }
        }
        i = i + 1;
    }
    proof {
        if best is None && any_eligible(interfaces@) {
            let j = choose|j: int| 0 <= j < interfaces@.len() && is_eligible(#[trigger] interfaces@[j]);
            assert(!is_eligible(interfaces@[j]));
        }
    }
    best
}

/// At most one index of a list of interfaces is the busiest.
pub proof fn lemma_busiest_unique(v: Seq<InterfaceSnapshot>, i: int)
    requires
        is_busiest(v, i),
    ensures
        forall|j: int| #[trigger] is_busiest(v, j) ==> j == i,
{
    assert forall|j: int| #[trigger] is_busiest(v, j) implies j == i by {
        if j < i {
            assert(total_octets(v[j]) < total_octets(v[i]));
            assert(total_octets(v[i]) <= total_octets(v[j]));
        } else if i < j {
            assert(total_octets(v[i]) < total_octets(v[j]));
            assert(total_octets(v[j]) <= total_octets(v[i]));
        }
    }
}

/// Two readings of one interface `dt_nanos` nanoseconds apart, its inbound
/// counter not going back: the second yields the inbound growth divided by
/// the elapsed time, rounded down (where that fits a `u64`).
pub proof fn lemma_rate_between_readings(
    first: InterfaceSnapshot,
    second: InterfaceSnapshot,
    t0: u64,
    dt_nanos: u64,
)
    requires
        first.id == second.id,
        first.in_octets <= second.in_octets,
        dt_nanos > 0,
        t0 + dt_nanos <= u64::MAX,
        (second.in_octets - first.in_octets) * NANOS_PER_SEC / (dt_nanos as int) <= u64::MAX,
    ensures
        sample_of(Some(observe(first, t0)), second, (t0 + dt_nanos) as u64) matches Some(smp)
            && smp.down_bps == (second.in_octets - first.in_octets) * NANOS_PER_SEC / (
        dt_nanos as int),
{
}

/// A reading of another interface than the one tracked yields no sample,
/// whatever the counters and the time.
pub proof fn lemma_identity_change_no_sample(last: Observation, s: InterfaceSnapshot, now: u64)
    requires
        last.id != s.id,
    ensures
        sample_of(Some(last), s, now) is None,
{
}

/// A tick that selects another interface than the one tracked reports
/// nothing and starts tracking the new one.
pub proof fn lemma_tick_after_switch(
    last: Observation,
    v: Seq<InterfaceSnapshot>,
    i: int,
    now: u64,
    r: Option<NetStats>,
    new_last: Option<Observation>,
)
    requires
        is_busiest(v, i),
        last.id != v[i].id,
        tick_outcome(Some(last), v[i], now, r, new_last),
    ensures
        r is None,
        new_last == Some(observe(v[i], now)),
{
}

/// A counter lower than at the previous reading of the same interface
/// counts as no traffic: the rate is zero, not a wrapped-around value.
pub proof fn lemma_counter_regression(last: Observation, s: InterfaceSnapshot, now: u64)
    requires
        last.id == s.id,
        now > last.at_nanos,
        s.in_octets < last.in_octets,
    ensures
        sample_of(Some(last), s, now) matches Some(smp) && smp.down_bps == 0,
{
}

/// Whole bytes per second for `delta` bytes over `dt_nanos` nanoseconds.
pub fn rate(delta: u64, dt_nanos: u64) -> (r: u64)
    requires
        dt_nanos > 0,
    ensures
        r == rate_of(delta as int, dt_nanos as int),
{
    let d: u128 = delta as u128;
    assert(d * 1000000000 <= 0xffff_ffff_ffff_ffff * 1000000000) by (nonlinear_arith)
        requires d <= 0xffff_ffff_ffff_ffff;
    let scaled: u128 = d * (NANOS_PER_SEC as u128);
    let q: u128 = scaled / (dt_nanos as u128);
    if q > u64::MAX as u128 {
        u64::MAX
    } else {
        q as u64
    }
}

impl NetMonitor {
    /// A monitor that has observed nothing yet.
    pub fn new() -> (r: Self)
        ensures
            r.last_snapshot is None,
    {
        NetMonitor { last_snapshot: None }
    }

    /// Rates for `selected` read at `now_nanos`, against the previous reading
    /// of the same interface; records this reading in its place.
    pub fn sample(&mut self, selected: &InterfaceSnapshot, now_nanos: u64) -> (r: Option<
        RateSample,
    >)
        ensures
            r == sample_of(old(self).last_snapshot, *selected, now_nanos),
            final(self).last_snapshot == Some(observe(*selected, now_nanos)),
    {
        let result = match self.last_snapshot {
            None => None,
            Some(o) => {
                if o.id != selected.id || now_nanos <= o.at_nanos {
                    None
                } else {
                    let dt = now_nanos - o.at_nanos;
                    let down = rate(selected.in_octets.saturating_sub(o.in_octets), dt);
                    let up = rate(selected.out_octets.saturating_sub(o.out_octets), dt);
                    Some(RateSample { down_bps: down, up_bps: up })
                }
            },
        };
        self.last_snapshot = Some(
            Observation {
                id: selected.id,
                in_octets: selected.in_octets,
                out_octets: selected.out_octets,
                at_nanos: now_nanos,
            },
        );
        result
    }
    /// One tick over the interfaces read at `now_nanos`: selects the busiest
    /// eligible interface and samples it. With no eligible interface nothing
    /// changes and nothing is reported.
    pub fn tick(&mut self, interfaces: &Vec<InterfaceSnapshot>, now_nanos: u64) -> (r: Option<
        NetStats,
    >)
        ensures
            !any_eligible(interfaces@) ==> r is None && final(self).last_snapshot == old(
                self,
            ).last_snapshot,
            forall|i: int|
                is_busiest(interfaces@, i) ==> tick_outcome(
                    old(self).last_snapshot,
                    #[trigger] interfaces@[i],
                    now_nanos,
                    r,
                    final(self).last_snapshot,
                ),
    {
        match select_interface(interfaces) {
            None => None,
            Some(i) => {
                proof {
                    lemma_busiest_unique(interfaces@, i as int);
                }
                let s = &interfaces[i];
                match self.sample(s, now_nanos) {
                    None => None,
                    Some(smp) => Some(
                        NetStats {
                            down_bps: smp.down_bps,
                            up_bps: smp.up_bps,
                            interface_name: interface_name(&s.alias),
                        },
                    ),
                }
            },
        }
    }
}


} // verus!
