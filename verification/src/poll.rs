//! Decisions of the polling loop: change detection between successive
//! readings, countdown captions, one-shot reporting and exit codes, and
//! the error messages for signal failures. The blocking loop itself (the
//! signal reads and the sleeps) lives with the binary and feeds plain
//! values through these functions.

use vstd::prelude::*;

use crate::decimal::{dec_rep, u64_to_string};
use crate::term::{colored_label, display_name_of, style_of, StyledLabel};
use crate::thermal::{classify, description_of, ThermalPressure};

verus! {

/// Seconds in one poll cycle: one reading, then this many countdown ticks.
pub const CHECK_INTERVAL: u64 = 5;

/// Exit code of a run that could not register or read the signal.
pub const FAILURE_EXIT_CODE: u8 = 2;

/// Whether a reading fires the change event: it does exactly when it
/// differs from the last observed value, and the very first reading
/// (no prior value) always fires.
pub open spec fn fires_change(last: Option<ThermalPressure>, p: ThermalPressure) -> bool {
    last != Some(p)
}

/// The last observed value used for change detection. A failed read
/// leaves it untouched: the loop reports the failure and observes
/// nothing.
pub struct ChangeTracker {
    pub last: Option<ThermalPressure>,
}

impl ChangeTracker {
    /// Before the first reading no value has been observed.
    pub fn new() -> (t: Self)
        ensures
            t.last is None,
    {
        ChangeTracker { last: None }
    }

    /// Observes one successful reading: reports whether the change event
    /// fires and remembers the reading as the last observed value.
    pub fn observe(&mut self, pressure: ThermalPressure) -> (changed: bool)
        ensures
            changed == fires_change(old(self).last, pressure),
            final(self).last == Some(pressure),
    {
        let changed = match self.last {
            Some(prev) => prev != pressure,
            None => true,
        };
        self.last = Some(pressure);
        changed
    }
}

/// The value the tracker holds after observing `readings` in order:
/// nothing at first, then the most recent reading.
pub open spec fn last_after(readings: Seq<ThermalPressure>) -> Option<ThermalPressure> {
    if readings.len() == 0 {
        None
    } else {
        Some(readings.last())
    }
}

/// Law: over any sequence of successful readings observed in order, the
/// change event fires for the first reading and for exactly those later
/// readings that differ from their immediate predecessor — once per
/// distinct transition, never for a repeated identical reading.
pub proof fn lemma_change_fires_per_transition(readings: Seq<ThermalPressure>, i: int)
    requires
        0 <= i < readings.len(),
    ensures
        fires_change(last_after(readings.take(i)), readings[i]) == (i == 0 || readings[i]
            != readings[i - 1]),
{
    if i > 0 {
        assert(readings.take(i).last() == readings[i - 1]);
    }
}

/// The countdown caption shown during the inter-poll wait.
pub fn countdown_caption(remaining: u64) -> (s: String)
    ensures
        s@ == "Next check in "@ + dec_rep(remaining as nat) + "s"@,
{
    let mut s = String::from_str("Next check in ");
    let digits = u64_to_string(remaining);
    s.append(digits.as_str());
    s.append("s");
    s
}

/// The message reported when registering the signal source fails with a
/// raw status code.
pub fn register_error_message(status: u32) -> (s: String)
    ensures
        s@ == "failed to register thermal notification (status: "@ + dec_rep(status as nat)
            + ")"@,
{
    let mut s = String::from_str("failed to register thermal notification (status: ");
    let digits = u64_to_string(status as u64);
    s.append(digits.as_str());
    s.append(")");
    s
}

/// The message reported when reading the signal fails with a raw status
/// code.
pub fn read_error_message(status: u32) -> (s: String)
    ensures
        s@ == "failed to read thermal state (status: "@ + dec_rep(status as nat) + ")"@,
{
    let mut s = String::from_str("failed to read thermal state (status: ");
    let digits = u64_to_string(status as u64);
    s.append(digits.as_str());
    s.append(")");
    s
}

/// Everything a one-shot query prints and returns for a successfully read
/// state: the classified level, its styled label and description, and the
/// process exit code — 0 when nominal, 1 when throttled.
pub struct OneShotReport {
    pub pressure: ThermalPressure,
    pub label: StyledLabel,
    pub description: String,
    pub exit_code: u8,
}

/// Builds the one-shot report for a raw state code.
pub fn one_shot_report(state: u64) -> (r: OneShotReport)
    ensures
        r.pressure == classify(state),
        r.label.text@ == display_name_of(classify(state)),
        r.label.style == style_of(classify(state)),
        r.description@ == description_of(classify(state)),
        r.exit_code == (if classify(state) is Nominal {
            0u8
        } else {
            1u8
        }),
{
    let pressure = ThermalPressure::from_state(state);
    let label = colored_label(pressure);
    let description = String::from_str(pressure.description());
    let exit_code: u8 = if pressure.is_throttled() {
        1
    } else {
        0
    };
    OneShotReport { pressure, label, description, exit_code }
}

} // verus!
