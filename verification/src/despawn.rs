//! Bodies that are removed when their time is up.

use vstd::prelude::*;

verus! {

/// The time a body has left, and the effect that its removal sets off, named
/// by a handle of the caller's.
#[derive(Clone, Copy, Debug, PartialEq, Eq, Structural)]
pub struct DespawnInTime {
    pub effect: Option<u64>,
    pub time: u32,
}

impl DespawnInTime {
    /// The timer after `dt` microseconds: it runs down and stops at zero.
    pub open spec fn ticked(self, dt: int) -> DespawnInTime {
        DespawnInTime {
            time: if self.time > dt {
                (self.time - dt) as u32
            } else {
                0
            },
            ..self
        }
    }

    /// Whether the time is up after `dt` microseconds.
    pub open spec fn expires(self, dt: int) -> bool {
        self.time <= dt
    }

    /// A timer of `time` microseconds with an effect or none.
    pub fn new(time: u32, effect: Option<u64>) -> (timer: DespawnInTime)
        ensures
            timer == (DespawnInTime { effect, time }),
    {
        DespawnInTime { effect, time }
    }
}

/// One tick of the timers: each runs down by `dt`. The result says for each
/// timer, in the order given, whether its time is up: its body is to be
/// removed, and its effect, where it has one, is to be set off once.
pub fn update_despawn(timers: &mut Vec<DespawnInTime>, dt: u32) -> (expired: Vec<bool>)
    ensures
        final(timers)@.len() == old(timers)@.len(),
        expired@.len() == old(timers)@.len(),
        forall|i: int|
            0 <= i < old(timers)@.len() ==> {
                &&& #[trigger] final(timers)@[i] == old(timers)@[i].ticked(dt as int)
                &&& expired@[i] == old(timers)@[i].expires(dt as int)
            },
{
    let n: usize = timers.len();
    let mut expired: Vec<bool> = Vec::new();
    let mut i: usize = 0;
    while i < n
        invariant
            i <= n,
            timers@.len() == n,
            old(timers)@.len() == n,
            expired@.len() == i,
            forall|j: int|
                0 <= j < i ==> {
                    &&& #[trigger] timers@[j] == old(timers)@[j].ticked(dt as int)
                    &&& expired@[j] == old(timers)@[j].expires(dt as int)
                },
            forall|j: int| i <= j < n ==> #[trigger] timers@[j] == old(timers)@[j],
        decreases n - i,
    {
        let mut timer: DespawnInTime = timers[i];
        timer.time = timer.time.saturating_sub(dt);
        expired.push(timer.time == 0);
        timers[i] = timer;
        i = i + 1;
    }
    expired
}

} // verus!
