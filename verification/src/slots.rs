//! Device slots: the provider's bounded compute resource.
//!
//! A provider's GPU is a limited resource: a worker must hold a slot while a
//! job's run phase is on the device, and give it back unconditionally on
//! every exit path. The ledger here counts slots; it never hands out more
//! than it was created with.

use vstd::prelude::*;

verus! {

/// A counter of device slots: at most `total` are ever out at once.
#[derive(Clone, Copy, PartialEq, Eq, Structural, Debug)]
pub struct DeviceSlots {
    /// How many slots the device offers.
    pub total: u64,
    /// How many slots are currently held by running jobs.
    pub in_use: u64,
}

impl DeviceSlots {
    /// No more slots are out than the device offers.
    pub open spec fn wf(self) -> bool {
        self.in_use <= self.total
    }

    /// A fresh ledger with every slot free.
    pub fn new(total: u64) -> (s: DeviceSlots)
        ensures
            s.wf(),
            s.total == total,
            s.in_use == 0,
    {
        DeviceSlots { total, in_use: 0 }
    }

    /// Try to take a slot before entering the run phase. Succeeds exactly
    /// when one is free, and never lets more than `total` slots out.
    pub fn acquire(&mut self) -> (got: bool)
        requires
            old(self).wf(),
        ensures
            final(self).wf(),
            final(self).total == old(self).total,
            got == (old(self).in_use < old(self).total),
            got ==> final(self).in_use == old(self).in_use + 1,
            !got ==> *final(self) == *old(self),
    {
        if self.in_use < self.total {
            self.in_use = self.in_use + 1;
            true
        } else {
            false
        }
    }

    /// Give a slot back on exit from the run phase — success, failure,
    /// timeout or cancellation alike. Releasing with nothing held changes
    /// nothing.
    pub fn release(&mut self)
        requires
            old(self).wf(),
        ensures
            final(self).wf(),
            final(self).total == old(self).total,
            old(self).in_use > 0 ==> final(self).in_use == old(self).in_use - 1,
            old(self).in_use == 0 ==> *final(self) == *old(self),
    {
        if self.in_use > 0 {
            self.in_use = self.in_use - 1;
        }
    }

    /// How many slots are free.
    pub fn free(&self) -> (n: u64)
        requires
            self.wf(),
        ensures
            n == self.total - self.in_use,
    {
        self.total - self.in_use
    }
}

} // verus!
