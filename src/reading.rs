//! One sample of the power state, the rule that says whether it can be acted
//! on, and how a sample is assembled from what the sensors report.
//!
//! Temperatures are held in thousandths of a degree and percentages in
//! thousandths of a percent.

use vstd::prelude::*;
use crate::text::{Decimal, decimal_of, parse_decimal, trim, trimmed};

verus! {

/// Upper end of the valid battery range, in thousandths of a percent.
pub const FULL_MILLI: i64 = 100_000;

/// A sample of the power state. Each field is absent when its source gave
/// nothing usable.
#[derive(Clone, Debug)]
pub struct SystemInfo {
    /// Mean temperature of the thermal sensors, in thousandths of a degree.
    pub cpu_temp: Option<i64>,
    /// Battery charge, in thousandths of a percent.
    pub battery_percentage: Option<i64>,
    /// Charge status, as the battery reports it.
    pub battery_status: Option<String>,
}

/// The charge statuses that a battery reports.
pub open spec fn known_status(s: Seq<char>) -> bool {
    s == "Charging"@ || s == "Discharging"@ || s == "Full"@ || s == "Not charging"@
}

/// A reading can be acted on: its percentage lies in [0, 100] and its status
/// is a known one. The temperature plays no part.
pub open spec fn reading_valid(pct: Option<i64>, status: Option<Seq<char>>) -> bool {
    match (pct, status) {
        (Some(p), Some(s)) => 0 <= p <= FULL_MILLI && known_status(s),
        _ => false,
    }
}

pub open spec fn status_view(s: Option<String>) -> Option<Seq<char>> {
    match s {
        Some(t) => Some(t@),
        None => None,
    }
}

/// Whether two texts are the same, character for character.
pub fn same_text(a: &str, b: &str) -> (r: bool)
    ensures
        r == (a@ == b@),
{
    let n = a.unicode_len();
    if n != b.unicode_len() {
        return false;
    }
    let mut i: usize = 0;
    while i < n
        invariant
            i <= n,
            n == a@.len(),
            n == b@.len(),
            forall|j: int| 0 <= j < i ==> a@[j] == b@[j],
        decreases n - i,
    {
        if a.get_char(i) != b.get_char(i) {
            return false;
        }
        i = i + 1;
    }
    assert(a@ =~= b@);
    true
}

/// Whether `s` is one of the charge statuses that a battery reports.
pub fn is_known_status(s: &str) -> (r: bool)
    ensures
        r == known_status(s@),
{
    same_text(s, "Charging") || same_text(s, "Discharging") || same_text(s, "Full")
        || same_text(s, "Not charging")
}

/// Sum of a sequence of integers.
pub open spec fn seq_sum(s: Seq<i64>) -> int
    decreases s.len(),
{
    if s.len() == 0 {
        0
    } else {
        seq_sum(s.drop_last()) + s.last()
    }
}

/// `a / n`, rounded toward zero.
pub open spec fn div_toward_zero(a: int, n: int) -> int {
    if a >= 0 {
        a / n
    } else {
        -((-a) / n)
    }
}

/// Mean of `s`, rounded toward zero.
pub open spec fn mean(s: Seq<i64>) -> int {
    div_toward_zero(seq_sum(s), s.len() as int)
}

/// Mean of the values in `v`, rounded toward zero.
pub fn mean_milli(v: &Vec<i64>) -> (r: i64)
    requires
        v.len() > 0,
    ensures
        r as int == mean(v@),
{
    let n = v.len();
    let mut acc: i128 = 0;
    let mut i: usize = 0;
    while i < n
        invariant
            i <= n,
            n == v@.len(),
            acc == seq_sum(v@.subrange(0, i as int)),
            -(i * 0x8000_0000_0000_0000) <= acc <= i * 0x7fff_ffff_ffff_ffff,
        decreases n - i,
    {
        assert(v@.subrange(0, i + 1).drop_last() =~= v@.subrange(0, i as int));
        acc = acc + v[i] as i128;
        i = i + 1;
    }
    assert(v@.subrange(0, n as int) =~= v@);
    let m = n as i128;
    if acc >= 0 {
        assert(acc / m <= 0x7fff_ffff_ffff_ffff) by (nonlinear_arith)
            requires
                acc >= 0,
                m > 0,
                acc <= m * 0x7fff_ffff_ffff_ffff,
        ;
        (acc / m) as i64
    } else {
        let pos: i128 = -acc;
        assert(pos / m <= 0x8000_0000_0000_0000) by (nonlinear_arith)
            requires
                pos >= 0,
                m > 0,
                pos <= m * 0x8000_0000_0000_0000,
        ;
        assert(pos / m >= 0) by (nonlinear_arith)
            requires
                pos >= 0,
                m > 0,
        ;
        (-(pos / m)) as i64
    }
}

/// The temperature, in thousandths of a degree, that a thermal-zone file
/// holding `t` (in thousandths of a degree) reports: its whole part, or 0
/// when it holds no number.
pub open spec fn zone_milli(t: Seq<char>) -> int {
    match decimal_of(trimmed(t)) {
        Some(d) => if d.negative {
            -(d.whole as int)
        } else {
            d.whole as int
        },
        None => 0,
    }
}

/// The temperature that the sensors report: the mean of the component
/// readings where there are any, else what the thermal-zone file holds,
/// else 0.
pub open spec fn cpu_temp_of(components: Seq<i64>, zone: Option<Seq<char>>) -> int {
    if components.len() > 0 {
        mean(components)
    } else {
        match zone {
            Some(t) => zone_milli(t),
            None => 0,
        }
    }
}

/// The percentage, in thousandths, that a capacity file holding `t` reports.
pub open spec fn capacity_milli(t: Seq<char>) -> Option<int> {
    match decimal_of(trimmed(t)) {
        Some(d) => Some(d.milli()),
        None => None,
    }
}

/// The temperature, in thousandths of a degree, reported by the thermal
/// components (`components`, each in thousandths of a degree) or, where
/// there are none, by the thermal-zone file's text `zone`.
pub fn cpu_temp_from(components: &Vec<i64>, zone: Option<&str>) -> (r: i64)
    ensures
        r as int == cpu_temp_of(components@, opt_view(zone)),
{
    if components.len() > 0 {
        mean_milli(components)
    } else {
        match zone {
            Some(t) => match parse_decimal(trim(t)) {
                Some(d) => if d.negative {
                    -(d.whole as i64)
                } else {
                    d.whole as i64
                },
                None => 0,
            },
            None => 0,
        }
    }
}

pub open spec fn opt_view(s: Option<&str>) -> Option<Seq<char>> {
    match s {
        Some(t) => Some(t@),
        None => None,
    }
}

/// The battery percentage, in thousandths, that a capacity file's text reports.
pub fn capacity_from(t: &str) -> (r: Option<i64>)
    ensures
        r matches Some(p) ==> capacity_milli(t@) == Some(p as int),
        r is None ==> capacity_milli(t@) is None,
{
    match parse_decimal(trim(t)) {
        Some(d) => Some(d.to_milli()),
        None => None,
    }
}

/// The battery level and status for display: the capacity file's value, or
/// 0 when it gives none, and the status file's text, or "Unknown" when there
/// is none.
pub fn battery_info_from(capacity: Option<&str>, status: Option<&str>) -> (r: (i64, String))
    ensures
        r.0 as int == match opt_view(capacity) {
            Some(t) => match capacity_milli(t) {
                Some(p) => p,
                None => 0,
            },
            None => 0,
        },
        r.1@ == match opt_view(status) {
            Some(t) => trimmed(t),
            None => "Unknown"@,
        },
{
    let pct = match capacity {
        Some(t) => match capacity_from(t) {
            Some(p) => p,
            None => 0,
        },
        None => 0,
    };
    let st = match status {
        Some(t) => trim(t).to_owned(),
        None => "Unknown".to_owned(),
    };
    (pct, st)
}

impl SystemInfo {
    /// The reading can be acted on.
    pub open spec fn is_valid(&self) -> bool {
        reading_valid(self.battery_percentage, status_view(self.battery_status))
    }

    /// Assembles a sample from what the sensors report: the component
    /// temperatures (thousandths of a degree), and the texts of the
    /// thermal-zone, capacity and status files, each absent when it could
    /// not be read. The temperature is always present; the percentage is
    /// absent when the capacity text holds no number.
    pub fn from_sources(
        components: &Vec<i64>,
        zone: Option<&str>,
        capacity: Option<&str>,
        status: Option<&str>,
    ) -> (r: SystemInfo)
        ensures
            r.cpu_temp == Some(cpu_temp_of(components@, opt_view(zone)) as i64),
            r.battery_percentage matches Some(p) ==> (opt_view(capacity) matches Some(t)
                && capacity_milli(t) == Some(p as int)),
            r.battery_percentage is None ==> (opt_view(capacity) matches Some(t) ==> capacity_milli(t) is None),
            status_view(r.battery_status) == match opt_view(status) {
                Some(t) => Some(trimmed(t)),
                None => None,
            },
    {
        let cpu_temp = Some(cpu_temp_from(components, zone));
        let battery_percentage = match capacity {
            Some(t) => capacity_from(t),
            None => None,
        };
        let battery_status = match status {
            Some(t) => Some(trim(t).to_owned()),
            None => None,
        };
        SystemInfo { cpu_temp, battery_percentage, battery_status }
    }

    /// Whether the reading can be acted on: the percentage is present and in
    /// [0, 100], and the status is present and one of "Charging",
    /// "Discharging", "Full" and "Not charging".
    pub fn validate(&self) -> (r: bool)
        ensures
            r == self.is_valid(),
    {
        match (self.battery_percentage, &self.battery_status) {
            (Some(p), Some(s)) => 0 <= p && p <= FULL_MILLI && is_known_status(s.as_str()),
            _ => false,
        }
    }
}

/// Validity depends on the percentage and the status alone: two readings
/// that agree on both are both valid or both invalid, whatever their
/// temperatures.
pub proof fn lemma_validity_ignores_temperature(a: SystemInfo, b: SystemInfo)
    requires
        a.battery_percentage == b.battery_percentage,
        status_view(a.battery_status) == status_view(b.battery_status),
    ensures
        a.is_valid() == b.is_valid(),
{
}

} // verus!
