//! Battery: what the panel makes of UPower's display device, that is,
//! whether it is a battery, whether it charges, and the time left as
//! text.
//!
//! The percentage is a floating-point property and stays with the
//! caller, as does the choice of icon that depends on it.

use vstd::prelude::*;
use crate::text::{concat_str, dec_int, div_trunc, i64_to_string, rem_trunc};

pub mod state;

verus! {

/// UPower's device type of a battery.
pub const DEVICE_TYPE_BATTERY: u32 = 2;

/// Whether a UPower device type is a battery.
pub fn is_battery(device_type: u32) -> (b: bool)
    ensures
        b == (device_type == DEVICE_TYPE_BATTERY),
{
    device_type == DEVICE_TYPE_BATTERY
}

/// Whole hours in a number of seconds.
pub open spec fn duration_hours(secs: int) -> int {
    div_trunc(secs, 3600)
}

/// Whole minutes left over after the whole hours.
pub open spec fn duration_minutes(secs: int) -> int {
    div_trunc(rem_trunc(secs, 3600), 60)
}

/// A duration as the panel shows it: `"{h}h {m}m"` with at least one
/// whole hour, `"{m}m"` otherwise.
pub open spec fn duration_text(secs: int) -> Seq<char> {
    let h = duration_hours(secs);
    let m = duration_minutes(secs);
    if h > 0 {
        dec_int(h) + "h "@ + dec_int(m) + "m"@
    } else {
        dec_int(m) + "m"@
    }
}

/// Formats a number of seconds as hours and minutes.
pub fn format_duration(secs: i64) -> (s: String)
    ensures
        s@ == duration_text(secs as int),
{
    // Hours and minutes through the magnitude, then the sign back on, so
    // that both round toward zero.
    let neg = secs < 0;
    let mag: u64 = if neg { ((-(secs + 1)) as u64) + 1 } else { secs as u64 };
    let hq: u64 = mag / 3600;
    let mq: u64 = (mag % 3600) / 60;
    assert(hq <= i64::MAX) by (nonlinear_arith)
        requires mag <= 0x8000_0000_0000_0000u64, hq == mag / 3600;
    let hours: i64 = if neg { -(hq as i64) } else { hq as i64 };
    let mins: i64 = if neg { -(mq as i64) } else { mq as i64 };
    proof {
        let a = secs as int;
        if neg {
            assert(mag as int == -a);
            assert(div_trunc(a, 3600) == -(hq as int));
            assert(rem_trunc(a, 3600) == -((mag % 3600) as int)) by (nonlinear_arith)
                requires
                    div_trunc(a, 3600) == -((mag / 3600) as int),
                    rem_trunc(a, 3600) == a - 3600 * div_trunc(a, 3600),
                    mag as int == -a,
            {
            }
            let r = rem_trunc(a, 3600);
            if r < 0 {
                assert(div_trunc(r, 60) == -(((mag % 3600) / 60) as int));
            } else {
                assert(r == 0);
                assert(mq == 0);
            }
        } else {
            assert(div_trunc(a, 3600) == hq as int);
            assert(rem_trunc(a, 3600) == (mag % 3600) as int) by (nonlinear_arith)
                requires
                    div_trunc(a, 3600) == (mag / 3600) as int,
                    rem_trunc(a, 3600) == a - 3600 * div_trunc(a, 3600),
                    mag as int == a,
            {
            }
        }
        assert(hours as int == duration_hours(a));
        assert(mins as int == duration_minutes(a));
    }
    let m_text = concat_str(i64_to_string(mins).as_str(), "m");
    if hours > 0 {
        let h_text = concat_str(i64_to_string(hours).as_str(), "h ");
        let s = concat_str(h_text.as_str(), m_text.as_str());
        assert(s@ =~= dec_int(hours as int) + "h "@ + dec_int(mins as int) + "m"@);
        s
    } else {
        m_text
    }
}

/// Which of UPower's time properties gives the time left in a state:
/// the time to full while charging, the time to empty while discharging,
/// none otherwise.
#[derive(Debug, Clone, Copy, PartialEq, Eq, Structural)]
pub enum TimeProperty {
    TimeToFull,
    TimeToEmpty,
}

/// The time property to read for a device state.
pub fn time_property(state_val: u32) -> (p: Option<TimeProperty>)
    ensures
        p == if state_val == state::CHARGING {
            Some(TimeProperty::TimeToFull)
        } else if state_val == state::DISCHARGING {
            Some(TimeProperty::TimeToEmpty)
        } else {
            None
        },
{
    if state_val == state::CHARGING {
        Some(TimeProperty::TimeToFull)
    } else if state_val == state::DISCHARGING {
        Some(TimeProperty::TimeToEmpty)
    } else {
        None
    }
}

/// The time left as text, from the seconds that the state's time
/// property gave (`None` when reading it failed): shown only for a
/// positive number of seconds.
pub fn time_remaining(seconds: Option<i64>) -> (t: Option<String>)
    ensures
        match seconds {
            Some(secs) if secs > 0 => t matches Some(s) && s@ == duration_text(secs as int),
            _ => t is None,
        },
{
    match seconds {
        Some(secs) => {
            if secs > 0 {
                Some(format_duration(secs))
            } else {
                None
            }
        },
        None => None,
    }
}

/// Battery status, apart from the percentage.
#[derive(Debug, Clone)]
pub struct BatteryStatus {
    /// Whether charging
    pub charging: bool,
    /// Whether fully charged
    pub fully_charged: bool,
    /// Time remaining (formatted string)
    pub time_remaining: Option<String>,
    /// Whether battery is present
    pub present: bool,
}

impl Default for BatteryStatus {
    fn default() -> (s: Self)
        ensures
            !s.charging,
            !s.fully_charged,
            s.time_remaining is None,
            !s.present,
    {
        BatteryStatus { charging: false, fully_charged: false, time_remaining: None, present: false }
    }
}

impl BatteryStatus {
    /// Takes in a device state that was read, with the seconds that its
    /// time property gave (see `time_property`; `None` when reading it
    /// failed). In a state without a time property there is no time left
    /// to show, whatever `seconds` holds.
    pub fn apply_state(&mut self, state_val: u32, seconds: Option<i64>)
        ensures
            final(self).charging == (state_val == state::CHARGING),
            final(self).fully_charged == (state_val == state::FULLY_CHARGED),
            final(self).present == old(self).present,
            match seconds {
                Some(secs) if secs > 0 && (state_val == state::CHARGING || state_val
                    == state::DISCHARGING) => final(self).time_remaining matches Some(s) && s@
                    == duration_text(secs as int),
                _ => final(self).time_remaining is None,
            },
    {
        self.charging = state_val == state::CHARGING;
        self.fully_charged = state_val == state::FULLY_CHARGED;
        self.time_remaining = match time_property(state_val) {
            Some(_) => time_remaining(seconds),
            None => None,
        };
    }

    /// Whether the battery can be shown: the display device is a battery
    /// and it is present.
    pub fn is_available(&self, available: bool) -> (b: bool)
        ensures
            b == (available && self.present),
    {
        available && self.present
    }
}

} // verus!
