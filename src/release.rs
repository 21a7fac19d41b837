use vstd::prelude::*;

verus! {

/// The earliest moment at which the next paced packet may leave. Instants
/// are nanoseconds on the caller's monotonic clock.
#[derive(Clone, Copy, Debug, PartialEq, Eq, Structural)]
pub enum ReleaseTime {
    Immediate,
    At(u64),
}

/// `a + b`, capped at `u64::MAX`.
pub open spec fn saturating_add(a: nat, b: nat) -> nat {
    if a + b > u64::MAX { u64::MAX as nat } else { a + b }
}

/// The release time `t` clamped upward to the instant `at`.
pub open spec fn max_with(t: ReleaseTime, at: u64) -> ReleaseTime {
    match t {
        ReleaseTime::Immediate => ReleaseTime::At(at),
        ReleaseTime::At(cur) => ReleaseTime::At(if cur >= at { cur } else { at }),
    }
}

/// Whether release time `a` is no later than `b`; `Immediate` is the
/// earliest of all.
pub open spec fn release_le(a: ReleaseTime, b: ReleaseTime) -> bool {
    match (a, b) {
        (ReleaseTime::Immediate, _) => true,
        (ReleaseTime::At(_), ReleaseTime::Immediate) => false,
        (ReleaseTime::At(x), ReleaseTime::At(y)) => x <= y,
    }
}

impl ReleaseTime {
    /// Clamps this release time upward to the instant `at`.
    pub fn set_max(&mut self, at: u64)
        ensures
            *final(self) == max_with(*old(self), at),
    {
        match *self {
            ReleaseTime::Immediate => {
                *self = ReleaseTime::At(at);
            },
            ReleaseTime::At(cur) => {
                if cur < at {
                    *self = ReleaseTime::At(at);
                }
            },
        }
    }

    /// Moves a set release time `delay` nanoseconds later, capped at the
    /// clock's last instant. Only a release time that holds an instant can
    /// be advanced.
    pub fn inc(&mut self, delay: u64)
        requires
            *old(self) is At,
        ensures
            *final(self) == ReleaseTime::At(
                saturating_add((*old(self))->At_0 as nat, delay as nat) as u64,
            ),
    {
        if let ReleaseTime::At(cur) = *self {
            *self = ReleaseTime::At(cur.saturating_add(delay));
        }
    }
}

/// What the pacer tells the send loop: the earliest release time of the
/// next packet, and whether one more packet may leave before it.
#[derive(Clone, Copy, Debug, PartialEq, Eq, Structural)]
pub struct ReleaseDecision {
    pub time: ReleaseTime,
    pub allow_burst: bool,
}

} // verus!
