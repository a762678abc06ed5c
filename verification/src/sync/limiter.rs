//! The concurrency limiter: a fixed-capacity pool of permits that bounds how
//! many remote detail calls are in flight at once, whichever pipelines make
//! them.

use vstd::prelude::*;

verus! {

/// The number of permits the synchronization runs with.
pub const DEFAULT_PERMITS: usize = 10;

/// A counting permit pool. At most `capacity` permits are out at any moment.
#[derive(Debug)]
pub struct ConcurrencyLimiter {
    capacity: usize,
    in_flight: usize,
}

impl ConcurrencyLimiter {
    /// The fixed number of permits of this pool.
    pub closed spec fn capacity_spec(&self) -> nat {
        self.capacity as nat
    }

    /// The number of permits that are out.
    pub closed spec fn in_flight_spec(&self) -> nat {
        self.in_flight as nat
    }

    #[verifier::type_invariant]
    spec fn bounded(&self) -> bool {
        self.in_flight <= self.capacity
    }

    /// A pool of `capacity` permits, none of them out.
    pub fn new(capacity: usize) -> (pool: Self)
        ensures
            pool.capacity_spec() == capacity,
            pool.in_flight_spec() == 0,
    {
        ConcurrencyLimiter { capacity, in_flight: 0 }
    }

    /// The fixed number of permits of this pool.
    pub fn capacity(&self) -> (capacity: usize)
        ensures
            capacity == self.capacity_spec(),
    {
        self.capacity
    }

    /// The number of permits that are out. It never exceeds the capacity.
    pub fn in_flight(&self) -> (in_flight: usize)
        ensures
            in_flight == self.in_flight_spec(),
            in_flight <= self.capacity_spec(),
    {
        proof {
            use_type_invariant(self);
        }
        self.in_flight
    }

    /// The number of permits that can still be taken.
    pub fn available(&self) -> (free: usize)
        ensures
            free == self.capacity_spec() - self.in_flight_spec(),
    {
        proof {
            use_type_invariant(self);
        }
        self.capacity - self.in_flight
    }

    /// Takes a permit if one is free, and says whether it did.
    pub fn try_acquire(&mut self) -> (granted: bool)
        ensures
            final(self).capacity_spec() == old(self).capacity_spec(),
            granted == (old(self).in_flight_spec() < old(self).capacity_spec()),
            final(self).in_flight_spec() == old(self).in_flight_spec() + if granted {
                1nat
            } else {
                0nat
            },
            final(self).in_flight_spec() <= final(self).capacity_spec(),
    {
        proof {
            use_type_invariant(&*self);
        }
        if self.in_flight < self.capacity {
            *self = ConcurrencyLimiter { capacity: self.capacity, in_flight: self.in_flight + 1 };
            true
        } else {
            false
        }
    }

    /// Gives a permit back. Where none is out the pool is left as it is.
    pub fn release(&mut self) -> (released: bool)
        ensures
            final(self).capacity_spec() == old(self).capacity_spec(),
            released == (old(self).in_flight_spec() > 0),
            final(self).in_flight_spec() == old(self).in_flight_spec() - if released {
                1int
            } else {
                0int
            },
    {
        proof {
            use_type_invariant(&*self);
        }
        if self.in_flight > 0 {
            *self = ConcurrencyLimiter { capacity: self.capacity, in_flight: self.in_flight - 1 };
            true
        } else {
            false
        }
    }
}

} // verus!
