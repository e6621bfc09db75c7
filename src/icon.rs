//! What the tray icon shows of a rate: its label, the label's size, its
//! colour, and the conversion of drawn pixels to RGBA.

use crate::format::{classify, color_of, decimal, push_decimal, tier_color, tier_of, GB, KB, MB};
use crate::history::{after_pushes, keep_last, lemma_overfull_keeps_last, scale_of, HistoryBuffer};
use vstd::prelude::*;

verus! {

/// Capacity of the icon's history: one value per tick.
pub const ICON_HISTORY: usize = 32;

/// Side of the square icon, in pixels.
pub const ICON_SIZE: u32 = 32;

/// The number on the icon: the rate in whole units, rounded down.
pub open spec fn label_value(bps: nat) -> Seq<char> {
    if bps < KB {
        decimal(bps)
    } else if bps < MB {
        decimal(bps / KB as nat)
    } else if bps < GB {
        decimal(bps / MB as nat)
    } else {
        decimal(bps / GB as nat)
    }
}

/// The unit under the number on the icon.
pub open spec fn label_unit(bps: nat) -> Seq<char> {
    if bps < KB {
        seq!['B']
    } else if bps < MB {
        seq!['K', 'B']
    } else if bps < GB {
        seq!['M', 'B']
    } else {
        seq!['G', 'B']
    }
}

/// Font height and vertical offset of the icon's number, by its length:
/// the fewer the digits, the larger they are drawn.
pub open spec fn metrics_of(len: nat) -> (i32, i32) {
    if len == 1 {
        (-22i32, -5i32)
    } else if len == 2 {
        (-18i32, -3i32)
    } else {
        (-14i32, -1i32)
    }
}

/// The four bytes, red, green, blue and alpha, of a drawn pixel read as
/// 0x00RRGGBB: any pixel that was drawn on is opaque, an untouched one stays
/// fully transparent.
pub open spec fn rgba_of(p: u32) -> Seq<u8> {
    seq![
        ((p / 0x10000) % 0x100) as u8,
        ((p / 0x100) % 0x100) as u8,
        (p % 0x100) as u8,
        if p == 0 { 0u8 } else { 0xffu8 },
    ]
}

/// The scale of the icon's history: its largest value, or 1 when that is 0.
pub open spec fn icon_scale(s: Seq<u64>) -> u64 {
    if scale_of(s) == 0 {
        1
    } else {
        scale_of(s)
    }
}

/// The number and the unit of the icon's label: whole bytes, kilobytes,
/// megabytes or gigabytes, rounded down, so that the number stays short.
pub fn icon_label(bps: u64) -> (r: (String, String))
    ensures
        r.0@ == label_value(bps as nat),
        r.1@ == label_unit(bps as nat),
{
    let mut value = String::new();
    let unit: &str;
    if bps < KB {
        push_decimal(&mut value, bps as u128);
        proof {
            reveal_strlit("B");
        }
        unit = "B";
    } else if bps < MB {
        push_decimal(&mut value, (bps / KB) as u128);
        proof {
            reveal_strlit("KB");
        }
        unit = "KB";
    } else if bps < GB {
        push_decimal(&mut value, (bps / MB) as u128);
        proof {
            reveal_strlit("MB");
        }
        unit = "MB";
    } else {
        push_decimal(&mut value, (bps / GB) as u128);
        proof {
            reveal_strlit("GB");
        }
        unit = "GB";
    }
    assert(value@ =~= label_value(bps as nat));
    (value, String::from_str(unit))
}

/// Font height and vertical offset for an icon number of `len` characters.
pub fn label_metrics(len: usize) -> (r: (i32, i32))
    ensures
        r == metrics_of(len as nat),
{
    if len == 1 {
        (-22, -5)
    } else if len == 2 {
        (-18, -3)
    } else {
        (-14, -1)
    }
}

/// The icon's pixels as RGBA bytes, four per pixel in order, every pixel
/// that was drawn on made opaque.
pub fn icon_rgba(pixels: &Vec<u32>) -> (r: Vec<u8>)
    requires
        4 * pixels@.len() <= usize::MAX,
    ensures
        r@.len() == 4 * pixels@.len(),
        forall|i: int|
            0 <= i < pixels@.len() ==> r@.subrange(4 * i, 4 * i + 4) == rgba_of(
                #[trigger] pixels@[i],
            ),
{
    let mut out: Vec<u8> = Vec::with_capacity(4 * pixels.len());
    let mut i: usize = 0;
    while i < pixels.len()
        invariant
            i <= pixels@.len(),
            out@.len() == 4 * i,
            forall|k: int|
                0 <= k < i ==> out@.subrange(4 * k, 4 * k + 4) == rgba_of(#[trigger] pixels@[k]),
        decreases pixels@.len() - i,
    {
        let p = pixels[i];
        let ghost before = out@;
        out.push((p / 0x10000 % 0x100) as u8);
        out.push((p / 0x100 % 0x100) as u8);
        out.push((p % 0x100) as u8);
        out.push(
            if p == 0 {
                0u8
            } else {
                0xffu8
            },
        );
        assert(out@.subrange(4 * i, 4 * i + 4) =~= rgba_of(p));
        assert forall|k: int| 0 <= k < i + 1 implies out@.subrange(4 * k, 4 * k + 4) == rgba_of(
            #[trigger] pixels@[k],
        ) by {
            if k < i {
                assert(out@.subrange(4 * k, 4 * k + 4) =~= before.subrange(4 * k, 4 * k + 4));
            }
        }
        i = i + 1;
    }
    out
}

/// After `ICON_HISTORY + k` recordings (`k > 0`) on a new icon, its history
/// holds exactly the last `ICON_HISTORY` rates, in the order recorded.
pub proof fn lemma_icon_history_keeps_last(vals: Seq<u64>)
    requires
        vals.len() > ICON_HISTORY,
    ensures
        after_pushes(Seq::empty(), ICON_HISTORY as nat, vals).len() == ICON_HISTORY,
        after_pushes(Seq::empty(), ICON_HISTORY as nat, vals) == vals.subrange(
            vals.len() - ICON_HISTORY,
            vals.len() as int,
        ),
{
    lemma_overfull_keeps_last(ICON_HISTORY as nat, vals);
}

/// The history of download rates that an icon is drawn for, kept over the
/// icon's last `ICON_HISTORY` ticks.
pub struct IconGenerator {
    pub history: HistoryBuffer,
}

impl IconGenerator {
    /// The history has the icon's capacity.
    pub open spec fn wf(&self) -> bool {
        self.history.cap() == ICON_HISTORY
    }

    /// An icon with an empty history of the icon's capacity.
    pub fn new() -> (r: Self)
        ensures
            r.history@ == Seq::<u64>::empty(),
            r.wf(),
    {
        IconGenerator { history: HistoryBuffer::new(ICON_HISTORY) }
    }

    /// Records the rate the icon is drawn for and returns the scale of the
    /// history with it.
    pub fn record(&mut self, speed: u64) -> (r: u64)
        requires
            old(self).wf(),
        ensures
            final(self).wf(),
            final(self).history@ == keep_last(old(self).history@.push(speed), ICON_HISTORY as nat),
            r == icon_scale(final(self).history@),
    {
        self.history.push(speed);
        let m = self.history.max();
        if m == 0 {
            1
        } else {
            m
        }
    }
}

/// The tray icon: a rate's number and unit in the colour of its tier.
pub struct TrayIconGenerator;

impl TrayIconGenerator {
    /// The colour the icon draws a rate in: that of the rate's tier.
    pub fn text_color(speed: u64) -> (r: u32)
        ensures
            r == color_of(tier_of(speed as int)),
    {
        tier_color(classify(speed))
    }
}

} // verus!
