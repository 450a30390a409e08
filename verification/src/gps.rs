//! Position fixes that are paid for out of a battery.
//!
//! A locator answers two questions. Asking for the current location costs
//! energy whether or not an answer comes back, and yields nothing once the
//! battery is empty. Asking for the last known location is free and never
//! changes anything.

use vstd::prelude::*;
use crate::battery::{Battery, BatteryModel};

verus! {

/// Energy drawn by every attempt at a fix, in mAh.
pub const FIX_COST_MAH: i64 = 35;

/// A position on the globe. Both coordinates are in units of 1e-7 degree.
#[derive(Clone, Copy, Debug, PartialEq, Eq, Structural)]
pub struct GPSLocation {
    /// Latitude, positive to the north.
    pub lat: i32,
    /// Longitude, positive to the east.
    pub lon: i32,
}

/// An onboard locator.
pub trait GPSLocator {
    /// What `get_last_location` reports.
    spec fn last_known(&self) -> Option<GPSLocation>;

    /// Tries to obtain the current location. `None` means that none could be
    /// had, for want of power or of a fix. A location that is returned
    /// becomes the last known one; a failed attempt leaves the last known
    /// location as it was.
    fn get_current_location(&mut self) -> (fix: Option<GPSLocation>)
        ensures
            fix is Some ==> final(self).last_known() == fix,
            fix is None ==> final(self).last_known() == old(self).last_known(),
    ;

    /// The last location that `get_current_location` returned, if any.
    /// Asking does not change the answer.
    fn get_last_location(&mut self) -> (last: Option<GPSLocation>)
        ensures
            last == old(self).last_known(),
            final(self).last_known() == old(self).last_known(),
    ;
}

/// The mathematical state of a power-aware locator.
pub struct LocatorModel {
    /// The fix that the receiver currently holds, if it holds one.
    pub current_location: Option<GPSLocation>,
    /// The last location handed out, if any was.
    pub last_location: Option<GPSLocation>,
    /// The battery that pays for the fixes.
    pub power_source: BatteryModel,
}

impl LocatorModel {
    /// The battery after it has paid for one attempt.
    pub open spec fn power_after_attempt(self) -> BatteryModel {
        self.power_source.discharge(FIX_COST_MAH as int)
    }

    /// What one attempt at a fix yields: nothing when paying for it leaves
    /// the battery empty, otherwise the fix that the receiver holds.
    pub open spec fn attempt_result(self) -> Option<GPSLocation> {
        if self.power_after_attempt().level == 0 {
            None
        } else {
            self.current_location
        }
    }

    /// State after one attempt at a fix: the battery has paid, and a
    /// location that was handed out has become the last known one.
    pub open spec fn after_attempt(self) -> LocatorModel {
        LocatorModel {
            current_location: self.current_location,
            last_location: if self.attempt_result() is Some {
                self.attempt_result()
            } else {
                self.last_location
            },
            power_source: self.power_after_attempt(),
        }
    }

    /// State after `n` attempts in a row.
    pub open spec fn after_attempts(self, n: nat) -> LocatorModel
        decreases n,
    {
        if n == 0 {
            self
        } else {
            self.after_attempts((n - 1) as nat).after_attempt()
        }
    }

    /// An attempt yields a location exactly when the receiver holds a fix
    /// and the battery holds more than the cost of the attempt.
    pub proof fn lemma_attempt_succeeds_iff(self)
        requires
            0 <= self.power_source.level,
        ensures
            self.attempt_result() is Some <==> self.current_location is Some
                && self.power_source.level > FIX_COST_MAH,
    {
    }

    /// After an attempt that yields a location, that location is the last
    /// known one.
    pub proof fn lemma_promotion(self)
        requires
            self.attempt_result() is Some,
        ensures
            self.after_attempt().last_location == self.attempt_result(),
    {
    }

    /// An attempt that yields nothing leaves the last known location as it
    /// was.
    pub proof fn lemma_failure_keeps_last(self)
        requires
            self.attempt_result() is None,
        ensures
            self.after_attempt().last_location == self.last_location,
    {
    }

    /// Once the battery is empty it stays empty, and every further attempt
    /// yields nothing, whether or not the receiver holds a fix.
    pub proof fn lemma_exhaustion(self, n: nat)
        requires
            self.power_source.level == 0,
        ensures
            self.after_attempts(n).power_source.level == 0,
            self.after_attempts(n).attempt_result() is None,
        decreases n,
    {
        if n > 0 {
            self.lemma_exhaustion((n - 1) as nat);
        }
    }
}

/// A receiver without any permission scheme: it fails to report the current
/// location only for want of power or of a fix.
pub struct NEO7M {
    current_location: Option<GPSLocation>,
    last_location: Option<GPSLocation>,
    power_source: Battery,
}

impl View for NEO7M {
    type V = LocatorModel;

    closed spec fn view(&self) -> LocatorModel {
        LocatorModel {
            current_location: self.current_location,
            last_location: self.last_location,
            power_source: self.power_source@,
        }
    }
}

impl NEO7M {
    /// A locator that owns `power_source`, holds `current_location` as its
    /// fix and has handed out no location yet.
    pub fn new(current_location: Option<GPSLocation>, power_source: Battery) -> (locator: NEO7M)
        ensures
            locator@ == (LocatorModel {
                current_location,
                last_location: None,
                power_source: power_source@,
            }),
    {
        NEO7M { current_location, last_location: None, power_source }
    }

    /// The battery that pays for the fixes.
    pub fn power_source(&self) -> (battery: &Battery)
        ensures
            battery@ == self@.power_source,
    {
        &self.power_source
    }
}

impl GPSLocator for NEO7M {
    open spec fn last_known(&self) -> Option<GPSLocation> {
        self@.last_location
    }

    /// Draws the cost of a fix from the battery, then reports the fix that
    /// the receiver holds unless the battery is now empty. A location comes
    /// back exactly when there is a fix and the battery held more than the
    /// cost.
    fn get_current_location(&mut self) -> (fix: Option<GPSLocation>)
        ensures
            fix == old(self)@.attempt_result(),
            final(self)@ == old(self)@.after_attempt(),
            fix is Some <==> old(self)@.current_location is Some
                && old(self)@.power_source.level > FIX_COST_MAH,
    {
        proof {
            self.power_source.lemma_model_bounds();
        }
        self.power_source.discharge(FIX_COST_MAH);
        if self.power_source.remaining() == 0 {
            None
        } else {
            match self.current_location {
                Some(location) => {
                    self.last_location = self.current_location;
                    Some(location)
                },
                None => None,
            }
        }
    }

    /// Reads the last known location. Costs no energy and leaves the
    /// locator, battery included, exactly as it was.
    fn get_last_location(&mut self) -> (last: Option<GPSLocation>)
        ensures
            last == old(self)@.last_location,
            final(self)@ == old(self)@,
    {
        self.last_location
    }
}

} // verus!
