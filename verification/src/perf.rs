//! Frame arrival statistics.

use vstd::prelude::*;
use crate::input::{elapsed, Nanos};

verus! {

/// Arrival times of rendered frames, in arrival order.
#[derive(Debug, Default)]
pub struct FrameStats {
    timestamps: Vec<Nanos>,
}

impl FrameStats {
    /// Arrival times recorded so far.
    pub closed spec fn arrivals(&self) -> Seq<Nanos> {
        self.timestamps@
    }

    /// No frame recorded.
    pub fn new() -> (r: Self)
        ensures
            r.arrivals() == Seq::<Nanos>::empty(),
    {
        FrameStats { timestamps: Vec::new() }
    }

    /// Records a frame arriving at `at`.
    pub fn record_at(&mut self, at: Nanos)
        ensures
            final(self).arrivals() == old(self).arrivals().push(at),
    {
        self.timestamps.push(at);
    }

    /// Time between consecutive arrivals, in nanoseconds (zero where the
    /// clock went back).
    pub fn intervals(&self) -> (r: Vec<Nanos>)
        ensures
            r@.len() == if self.arrivals().len() == 0 {
                0
            } else {
                self.arrivals().len() - 1
            },
            forall|i: int|
                0 <= i < r@.len() ==> #[trigger] r@[i] == elapsed(
                    self.arrivals()[i + 1],
                    self.arrivals()[i],
                ),
    {
        let mut r: Vec<Nanos> = Vec::new();
        let n = self.timestamps.len();
        if n == 0 {
            return r;
        }
        let mut i: usize = 0;
        while i + 1 < n
            invariant
                n == self.timestamps@.len(),
                n > 0,
                i + 1 <= n,
                r@.len() == i,
                forall|k: int|
                    0 <= k < i ==> #[trigger] r@[k] == elapsed(
                        self.timestamps@[k + 1],
                        self.timestamps@[k],
                    ),
            decreases n - i,
        {
            let later = self.timestamps[i + 1];
            let earlier = self.timestamps[i];
            r.push(if later >= earlier { later - earlier } else { 0 });
            i = i + 1;
        }
        r
    }

    /// The recorded arrival times.
    pub fn timestamps(&self) -> (r: &[Nanos])
        ensures
            r@ == self.arrivals(),
    {
        self.timestamps.as_slice()
    }
}

} // verus!
