//! What is known of a fan.
use vstd::prelude::*;

use crate::text::{digits, lemma_digits_differ};

verus! {

/// What a fan belongs to.
#[derive(Clone, Copy, PartialEq, Eq, Structural, Debug)]
pub enum FanType {
    System,
    Nvidia,
    Amd,
}

/// How a fan is controlled, as far as a scan can tell.
#[derive(Clone, Copy, PartialEq, Eq, Structural, Debug)]
pub enum FanMode {
    Auto,
}

/// A temperature, in the unit in which it was reported.
#[derive(Clone, Copy, PartialEq, Eq, Structural, Debug)]
pub enum Temperature {
    Celsius(u32),
    Millidegrees(u32),
}

/// A fan that a scan found.
pub struct FanInfo {
    pub id: String,
    pub label: String,
    pub fan_type: FanType,
    pub mode: FanMode,
    pub rpm: Option<u32>,
    pub speed_pct: Option<u8>,
    pub temperature: Option<Temperature>,
    pub rpm_min: Option<u32>,
    pub rpm_max: Option<u32>,
    pub controllable: bool,
    pub is_pump: bool,
}

/// The contents of a [`FanInfo`].
#[verifier::ext_equal]
pub struct FanView {
    pub id: Seq<char>,
    pub label: Seq<char>,
    pub fan_type: FanType,
    pub mode: FanMode,
    pub rpm: Option<u32>,
    pub speed_pct: Option<u8>,
    pub temperature: Option<Temperature>,
    pub rpm_min: Option<u32>,
    pub rpm_max: Option<u32>,
    pub controllable: bool,
    pub is_pump: bool,
}

impl View for FanInfo {
    type V = FanView;

    open spec fn view(&self) -> FanView {
        FanView {
            id: self.id@,
            label: self.label@,
            fan_type: self.fan_type,
            mode: self.mode,
            rpm: self.rpm,
            speed_pct: self.speed_pct,
            temperature: self.temperature,
            rpm_min: self.rpm_min,
            rpm_max: self.rpm_max,
            controllable: self.controllable,
            is_pump: self.is_pump,
        }
    }
}

/// The contents of a list of fans.
pub open spec fn fan_views(fans: Seq<FanInfo>) -> Seq<FanView> {
    fans.map_values(|fan: FanInfo| fan@)
}

/// `pct`, but not less than `floor`.
pub open spec fn at_least(pct: u8, floor: u8) -> u8 {
    if pct < floor {
        floor
    } else {
        pct
    }
}

/// `pct`, but not less than `floor`.
pub fn floored(pct: u8, floor: u8) -> (out: u8)
    ensures
        out == at_least(pct, floor),
{
    if pct < floor {
        floor
    } else {
        pct
    }
}

/// How many pumps are among the fans.
pub open spec fn pumps(fans: Seq<FanView>) -> nat
    decreases fans.len(),
{
    if fans.len() == 0 {
        0
    } else {
        pumps(fans.drop_last()) + (if fans.last().is_pump {
            1nat
        } else {
            0nat
        })
    }
}

/// The label of the next fan after the ones in `fans`: pumps and other fans are each numbered
/// from one.
pub open spec fn next_label(fans: Seq<FanView>, is_pump: bool) -> Seq<char> {
    if is_pump {
        "Pump "@ + digits(pumps(fans) + 1)
    } else {
        "Fan "@ + digits((fans.len() - pumps(fans) + 1) as nat)
    }
}

/// There are at most as many pumps as fans.
pub proof fn lemma_pumps_among_fans(fans: Seq<FanView>)
    ensures
        pumps(fans) <= fans.len(),
    decreases fans.len(),
{
    if fans.len() > 0 {
        lemma_pumps_among_fans(fans.drop_last());
    }
}

/// How many fans other than pumps are among the fans.
spec fn others(fans: Seq<FanView>) -> int {
    fans.len() - pumps(fans)
}

proof fn lemma_counts_grow(fans: Seq<FanView>, i: int, j: int)
    requires
        0 <= i <= j <= fans.len(),
    ensures
        pumps(fans.take(i)) <= pumps(fans.take(j)),
        others(fans.take(i)) <= others(fans.take(j)),
    decreases j - i,
{
    if i < j {
        lemma_counts_grow(fans, i, j - 1);
        assert(fans.take(j).drop_last() =~= fans.take(j - 1));
    }
}

/// Two fans that were labelled one after the other have different labels.
pub proof fn lemma_labels_differ(fans: Seq<FanView>, i: int, j: int)
    requires
        0 <= i < j < fans.len(),
        fans[i].label == next_label(fans.take(i), fans[i].is_pump),
        fans[j].label == next_label(fans.take(j), fans[j].is_pump),
    ensures
        fans[i].label != fans[j].label,
{
    reveal_strlit("Pump ");
    reveal_strlit("Fan ");
    lemma_counts_grow(fans, i + 1, j);
    assert(fans.take(i + 1).drop_last() =~= fans.take(i));
    lemma_pumps_among_fans(fans.take(i));
    lemma_pumps_among_fans(fans.take(j));
    if fans[i].is_pump == fans[j].is_pump {
        let prefix = if fans[i].is_pump {
            "Pump "@
        } else {
            "Fan "@
        };
        let m = if fans[i].is_pump {
            pumps(fans.take(i)) + 1
        } else {
            (others(fans.take(i)) + 1) as nat
        };
        let n = if fans[i].is_pump {
            pumps(fans.take(j)) + 1
        } else {
            (others(fans.take(j)) + 1) as nat
        };
        lemma_digits_differ(m, n);
        assert((prefix + digits(m)).skip(prefix.len() as int) =~= digits(m));
        assert((prefix + digits(n)).skip(prefix.len() as int) =~= digits(n));
    } else {
        assert(fans[i].label[0] != fans[j].label[0]);
    }
}

} // verus!
