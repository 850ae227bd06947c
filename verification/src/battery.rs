//! Watches the battery's status line.
use vstd::prelude::*;
use crate::timers::{ElapsedMs, EveryNMillis};

verus! {

/// What the status line says of the battery.
#[derive(Clone, Copy, Debug, PartialEq, Eq, Structural)]
pub enum BatteryStatus {
    Low,
    Okay,
}

/// The last known status of the battery and the rhythm of its checks.
#[derive(Clone, Copy, Debug)]
pub struct Battery {
    pub status: BatteryStatus,
    pub check_interval: EveryNMillis,
}

/// The status that a level of the status line stands for.
pub open spec fn status_of(pin_is_high: bool) -> BatteryStatus {
    if pin_is_high {
        BatteryStatus::Okay
    } else {
        BatteryStatus::Low
    }
}

impl Battery {
    /// A battery that counts as fine until the first check, which is due
    /// at once, and is checked every `check_ms` milliseconds after that.
    pub fn new(check_ms: u32) -> (battery: Self)
        ensures
            battery.status == BatteryStatus::Okay,
            battery.check_interval.next_trigger == 0,
            battery.check_interval.period_ms == check_ms,
    {
        Battery { status: BatteryStatus::Okay, check_interval: EveryNMillis::new(check_ms) }
    }

    /// Checks the battery if a check is due. `pin_is_high` is the level of
    /// the status line; it is only looked at when the check is due. The
    /// answer holds whether the status has changed, and the status.
    pub fn check(&mut self, elapsed_ms: &ElapsedMs, pin_is_high: bool) -> (answer: (bool, BatteryStatus))
        ensures
            answer.1 == final(self).status,
            final(self).status == if old(self).check_interval.is_due(elapsed_ms@) {
                status_of(pin_is_high)
            } else {
                old(self).status
            },
            answer.0 == (final(self).status != old(self).status),
            final(self).check_interval.period_ms == old(self).check_interval.period_ms,
            final(self).check_interval.next_trigger == if old(self).check_interval.is_due(
                elapsed_ms@,
            ) {
                vstd::wrapping::u32_specs::wrapping_add(
                    elapsed_ms@,
                    old(self).check_interval.period_ms,
                )
            } else {
                old(self).check_interval.next_trigger
            },
    {
        let mut changed = false;
        if self.check_interval.ready(elapsed_ms).is_some() {
            let new_status = if pin_is_high {
                BatteryStatus::Okay
            } else {
                BatteryStatus::Low
            };
            if self.status != new_status {
                self.status = new_status;
                changed = true;
            }
        }
        (changed, self.status)
    }
}

} // verus!
