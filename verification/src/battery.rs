//! A finite-capacity battery with clamped charging and discharging.
//!
//! Charge is counted in whole milliamp-hours (mAh). Requests are signed and
//! are never rejected: a request larger in magnitude than the present level
//! drives the level to a boundary instead, to empty when discharging and to
//! the nominal capacity when charging. A request within the level is applied
//! as it stands, so a charge of less than the present level can lift the
//! level above the nominal capacity.

use vstd::prelude::*;
use vstd::arithmetic::div_mod::{
    lemma_div_by_multiple, lemma_div_is_ordered, lemma_fundamental_div_mod,
};

verus! {

/// Capacity of the large preset battery, in mAh.
pub const CAPACITY_10K_MAH: u32 = 10000;

/// Capacity of the small preset battery, in mAh.
pub const CAPACITY_4K_MAH: u32 = 4500;

/// The mathematical state of a battery, in unbounded integers.
pub struct BatteryModel {
    /// Nominal capacity in mAh.
    pub capacity: int,
    /// Charge currently held, in mAh.
    pub level: int,
}

/// One request made of a battery.
pub enum BatteryRequest {
    /// Draw the given number of mAh.
    Discharge(int),
    /// Store the given number of mAh.
    Charge(int),
}

impl BatteryModel {
    /// The capacity is positive and the level is not negative.
    pub open spec fn wf(self) -> bool {
        0 < self.capacity && 0 <= self.level
    }

    /// The level lies between empty and the nominal capacity.
    pub open spec fn in_range(self) -> bool {
        0 <= self.level <= self.capacity
    }

    /// The request is larger in magnitude than the charge currently held.
    pub open spec fn exceeds(self, amount: int) -> bool {
        amount > self.level || -amount > self.level
    }

    /// State after a request to draw `amount`: empty when the request
    /// exceeds the level, otherwise the level less `amount`.
    pub open spec fn discharge(self, amount: int) -> BatteryModel {
        BatteryModel {
            capacity: self.capacity,
            level: if self.exceeds(amount) {
                0
            } else {
                self.level - amount
            },
        }
    }

    /// State after a request to store `amount`: at capacity when the request
    /// exceeds the level, otherwise the level plus `amount`.
    pub open spec fn charge(self, amount: int) -> BatteryModel {
        BatteryModel {
            capacity: self.capacity,
            level: if self.exceeds(amount) {
                self.capacity
            } else {
                self.level + amount
            },
        }
    }

    /// A request to draw `amount` is within the level and leaves more than
    /// the capacity behind. Only a negative request can do so to a battery
    /// that is in range.
    pub open spec fn discharge_overfills(self, amount: int) -> bool {
        !self.exceeds(amount) && self.level - amount > self.capacity
    }

    /// A request to store `amount` is within the level and leaves more than
    /// the capacity behind. Only a positive request can do so to a battery
    /// that is in range.
    pub open spec fn charge_overfills(self, amount: int) -> bool {
        !self.exceeds(amount) && self.level + amount > self.capacity
    }

    /// The level as a whole percentage of the capacity, rounded down.
    pub open spec fn percent(self) -> int {
        self.level * 100 / self.capacity
    }

    /// State after one request.
    pub open spec fn apply(self, request: BatteryRequest) -> BatteryModel {
        match request {
            BatteryRequest::Discharge(amount) => self.discharge(amount),
            BatteryRequest::Charge(amount) => self.charge(amount),
        }
    }

    /// The request is one that overfills this battery.
    pub open spec fn overfilled_by(self, request: BatteryRequest) -> bool {
        match request {
            BatteryRequest::Discharge(amount) => self.discharge_overfills(amount),
            BatteryRequest::Charge(amount) => self.charge_overfills(amount),
        }
    }

    /// State after a sequence of requests, made in order.
    pub open spec fn after(self, requests: Seq<BatteryRequest>) -> BatteryModel
        decreases requests.len(),
    {
        if requests.len() == 0 {
            self
        } else {
            self.after(requests.drop_last()).apply(requests.last())
        }
    }

    /// The level never becomes negative, whatever is requested.
    pub proof fn lemma_level_never_negative(self, amount: int)
        requires
            self.wf(),
        ensures
            self.discharge(amount).wf(),
            self.charge(amount).wf(),
    {
    }

    /// A battery that is in range stays in range under every request except
    /// one that overfills it.
    pub proof fn lemma_range_kept(self, amount: int)
        requires
            self.in_range(),
        ensures
            !self.discharge_overfills(amount) ==> self.discharge(amount).in_range(),
            !self.charge_overfills(amount) ==> self.charge(amount).in_range(),
            self.discharge_overfills(amount) ==> !self.discharge(amount).in_range(),
            self.charge_overfills(amount) ==> !self.charge(amount).in_range(),
    {
    }

    /// Starting in range, a battery is in range after every request of a
    /// sequence in which no request overfills the battery it meets.
    pub proof fn lemma_range_invariant(self, requests: Seq<BatteryRequest>)
        requires
            self.in_range(),
            forall|i: int|
                0 <= i < requests.len() ==> !(#[trigger] self.after(requests.take(i))).overfilled_by(
                    requests[i],
                ),
        ensures
            forall|i: int|
                0 <= i <= requests.len() ==> (#[trigger] self.after(requests.take(i))).in_range(),
        decreases requests.len(),
    {
        if requests.len() > 0 {
            let n = requests.len() as int;
            let earlier = requests.drop_last();
            assert forall|i: int| 0 <= i < earlier.len() implies !(#[trigger] self.after(
                earlier.take(i),
            )).overfilled_by(earlier[i]) by {
                assert(earlier.take(i) =~= requests.take(i));
            }
            self.lemma_range_invariant(earlier);
            assert forall|i: int| 0 <= i <= n implies (#[trigger] self.after(
                requests.take(i),
            )).in_range() by {
                if i < n {
                    assert(requests.take(i) =~= earlier.take(i));
                } else {
                    assert(requests.take(n) =~= requests);
                    assert(earlier.take(n - 1) =~= earlier);
                    let before = self.after(earlier);
                    match requests.last() {
                        BatteryRequest::Discharge(amount) => before.lemma_range_kept(amount),
                        BatteryRequest::Charge(amount) => before.lemma_range_kept(amount),
                    }
                }
            }
        }
    }

    /// Within the level, drawing `amount` and storing `-amount` are the same
    /// request, and so are storing `amount` and drawing `-amount`.
    pub proof fn lemma_sign_symmetry(self, amount: int)
        requires
            !self.exceeds(amount),
        ensures
            !self.exceeds(-amount),
            self.discharge(amount) == self.charge(-amount),
            self.charge(amount) == self.discharge(-amount),
    {
    }

    /// The percentage is the quotient of `100 * level` by the capacity,
    /// rounded down: it falls short of the exact ratio by less than one.
    pub proof fn lemma_percent_is_floor(self)
        requires
            self.wf(),
        ensures
            self.percent() * self.capacity <= 100 * self.level < (self.percent() + 1)
                * self.capacity,
    {
        let x = self.level * 100;
        let d = self.capacity;
        lemma_fundamental_div_mod(x, d);
        assert((x / d + 1) * d == (x / d) * d + d) by (nonlinear_arith);
    }

    /// The percentage of a battery that is in range lies between 0 and 100.
    pub proof fn lemma_percent_bounds(self)
        requires
            self.wf(),
            self.in_range(),
        ensures
            0 <= self.percent() <= 100,
            self.level == 0 ==> self.percent() == 0,
            self.level == self.capacity ==> self.percent() == 100,
    {
        let d = self.capacity;
        lemma_div_is_ordered(self.level * 100, d * 100, d);
        lemma_div_by_multiple(100, d);
    }
}

/// A battery of fixed capacity holding a number of milliamp-hours.
pub struct Battery {
    capacity: u32,
    charge_left: u32,
}

impl View for Battery {
    type V = BatteryModel;

    closed spec fn view(&self) -> BatteryModel {
        BatteryModel { capacity: self.capacity as int, level: self.charge_left as int }
    }
}

impl Battery {
    #[verifier::type_invariant]
    spec fn positive_capacity(self) -> bool {
        self.capacity > 0
    }

    /// Both numbers of the model fit the 32-bit counters that hold them.
    pub proof fn lemma_model_bounds(&self)
        ensures
            0 <= self@.level <= u32::MAX,
            0 <= self@.capacity <= u32::MAX,
    {
    }

    /// A battery of the given capacity holding `level` mAh.
    pub fn new(capacity: u32, level: u32) -> (battery: Battery)
        requires
            0 < capacity,
            level <= capacity,
        ensures
            battery@ == (BatteryModel { capacity: capacity as int, level: level as int }),
            battery@.wf(),
            battery@.in_range(),
    {
        Battery { capacity, charge_left: level }
    }

    /// A full battery of 10,000 mAh.
    pub fn new_10k_mah() -> (battery: Battery)
        ensures
            battery@ == (BatteryModel { capacity: 10000, level: 10000 }),
    {
        Battery { capacity: CAPACITY_10K_MAH, charge_left: CAPACITY_10K_MAH }
    }

    /// A full battery of 4,500 mAh.
    pub fn new_4k_mah() -> (battery: Battery)
        ensures
            battery@ == (BatteryModel { capacity: 4500, level: 4500 }),
    {
        Battery { capacity: CAPACITY_4K_MAH, charge_left: CAPACITY_4K_MAH }
    }

    /// Draws `amount` mAh. A request that exceeds the present level in
    /// magnitude, in either direction, empties the battery; any other
    /// request lowers the level by `amount`, which raises it when `amount`
    /// is negative.
    ///
    /// The one demand on the caller comes from the width of the counter:
    /// where a negative request raises the level, the new level must fit.
    pub fn discharge(&mut self, amount: i64)
        requires
            amount < 0 && !old(self)@.exceeds(amount as int) ==> old(self)@.level - amount
                <= u32::MAX,
        ensures
            final(self)@ == old(self)@.discharge(amount as int),
            final(self)@.wf(),
            old(self)@.exceeds(amount as int) ==> final(self)@.level == 0,
            old(self)@.in_range() && !old(self)@.discharge_overfills(amount as int)
                ==> final(self)@.in_range(),
    {
        proof {
            use_type_invariant(&*self);
        }
        let level = self.charge_left as i64;
        if amount > level || amount < -level {
            self.charge_left = 0;
        } else {
            self.charge_left = (level - amount) as u32;
        }
    }

    /// Stores `amount` mAh. A request that exceeds the present level in
    /// magnitude, in either direction, fills the battery to its capacity;
    /// any other request raises the level by `amount`, which lowers it when
    /// `amount` is negative. The sum is not held to the capacity.
    ///
    /// The one demand on the caller comes from the width of the counter:
    /// where a positive request raises the level, the new level must fit.
    pub fn charge(&mut self, amount: i64)
        requires
            amount > 0 && !old(self)@.exceeds(amount as int) ==> old(self)@.level + amount
                <= u32::MAX,
        ensures
            final(self)@ == old(self)@.charge(amount as int),
            final(self)@.wf(),
            old(self)@.exceeds(amount as int) ==> final(self)@.level == final(self)@.capacity,
            old(self)@.in_range() && !old(self)@.charge_overfills(amount as int)
                ==> final(self)@.in_range(),
    {
        proof {
            use_type_invariant(&*self);
        }
        let level = self.charge_left as i64;
        if amount > level || amount < -level {
            self.charge_left = self.capacity;
        } else {
            self.charge_left = (level + amount) as u32;
        }
    }

    /// Charge currently held, in mAh.
    pub fn remaining(&self) -> (level: u32)
        ensures
            level == self@.level,
    {
        self.charge_left
    }

    /// Nominal capacity, in mAh.
    pub fn capacity(&self) -> (capacity: u32)
        ensures
            capacity == self@.capacity,
            capacity > 0,
    {
        proof {
            use_type_invariant(self);
        }
        self.capacity
    }

    /// The level as a whole percentage of the capacity, rounded down. It is
    /// at most 100 whenever the level is within the capacity.
    pub fn percent_remaining(&self) -> (percent: u64)
        ensures
            percent == self@.percent(),
            self@.in_range() ==> percent <= 100,
    {
        proof {
            use_type_invariant(self);
            if self@.in_range() {
                self@.lemma_percent_bounds();
            }
        }
        (self.charge_left as u64 * 100) / (self.capacity as u64)
    }
}

} // verus!
