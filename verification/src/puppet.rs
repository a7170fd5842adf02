//! The physics drivers of one puppet, and the pass that takes them through a
//! frame.

use vstd::prelude::*;
use crate::driver::{Frame, ParamWrite, SimplePhysics};

verus! {

/// The physics drivers of a puppet, in the order in which the rig lists them.
#[derive(Debug)]
pub struct Puppet {
    pub drivers: Vec<SimplePhysics>,
}

impl Puppet {
    /// The driver at `i` after a pass over `frames`: taken through its own
    /// frame, or unchanged where the pass has no frame for it.
    pub open spec fn driver_after(self, frames: Seq<Frame>, i: int) -> SimplePhysics
        recommends
            0 <= i < self.drivers@.len(),
    {
        if i < frames.len() {
            self.drivers@[i].after(frames[i])
        } else {
            self.drivers@[i]
        }
    }

    /// What the driver at `i` writes in a pass over `frames`.
    pub open spec fn driver_emits(self, frames: Seq<Frame>, i: int) -> Option<ParamWrite>
        recommends
            0 <= i < self.drivers@.len(),
    {
        if i < frames.len() {
            self.drivers@[i].emits(frames[i])
        } else {
            None
        }
    }

    pub fn new(drivers: Vec<SimplePhysics>) -> (r: Puppet)
        ensures
            r.drivers == drivers,
    {
        Puppet { drivers }
    }

    /// Takes every driver through one frame: the driver at `i` takes
    /// `frames[i]`, and one without a frame sits the pass out. The result
    /// holds, for each driver in order, what it writes. No driver reads or
    /// changes another.
    pub fn update_physics(&mut self, frames: &Vec<Frame>) -> (writes: Vec<Option<ParamWrite>>)
        ensures
            final(self).drivers@.len() == old(self).drivers@.len(),
            writes@.len() == old(self).drivers@.len(),
            forall|i: int|
                0 <= i < old(self).drivers@.len() ==> #[trigger] final(self).drivers@[i] == old(
                    self,
                ).driver_after(frames@, i),
            forall|i: int|
                0 <= i < old(self).drivers@.len() ==> #[trigger] writes@[i] == old(
                    self,
                ).driver_emits(frames@, i),
    {
        let ghost before = *self;
        let mut writes: Vec<Option<ParamWrite>> = Vec::new();
        let n: usize = self.drivers.len();
        let mut i: usize = 0;
        while i < n
            invariant
                i <= n,
                n == before.drivers@.len(),
                self.drivers@.len() == n,
                writes@.len() == i,
                forall|j: int| 0 <= j < i ==> #[trigger] self.drivers@[j] == before.driver_after(
                    frames@, j),
                forall|j: int| i <= j < n ==> #[trigger] self.drivers@[j] == before.drivers@[j],
                forall|j: int| 0 <= j < i ==> #[trigger] writes@[j] == before.driver_emits(
                    frames@, j),
            decreases n - i,
        {
            if i < frames.len() {
                let mut driver: SimplePhysics = self.drivers[i];
                let w = driver.tick(&frames[i]);
                self.drivers.set(i, driver);
                writes.push(w);
            } else {
                writes.push(None);
            }
            i = i + 1;
        }
        writes
    }
}

/// Drivers are independent: what a pass makes of a driver, and what the
/// driver writes, depends on that driver and its own frame alone, not on its
/// place in the puppet nor on any other driver or frame.
pub proof fn lemma_drivers_are_independent(
    p: Puppet,
    frames: Seq<Frame>,
    i: int,
    q: Puppet,
    other_frames: Seq<Frame>,
    j: int,
)
    requires
        0 <= i < p.drivers@.len(),
        0 <= i < frames.len(),
        0 <= j < q.drivers@.len(),
        0 <= j < other_frames.len(),
        p.drivers@[i] == q.drivers@[j],
        frames[i] == other_frames[j],
    ensures
        p.driver_after(frames, i) == q.driver_after(other_frames, j),
        p.driver_emits(frames, i) == q.driver_emits(other_frames, j),
{
}

} // verus!
