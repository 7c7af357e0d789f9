//! One account's claim progress, and the time-window arithmetic over it.

use vstd::prelude::*;

verus! {

/// Per-account claim state, created on the first `start` and never deleted.
#[derive(Clone, Copy, PartialEq, Eq, Structural, Debug)]
pub struct Profile {
    /// How many blocks the account must wait between claims. Set by the
    /// caller at `start`; immutable until the next `start`.
    pub claim_era: u8,
    /// The block at which the current era began. Reset on every `start`
    /// and on every successful claim.
    pub start_block: u32,
    /// How many badges the account has claimed, one per successful claim.
    pub badges_claimed: u8,
}

/// How many blocks of the current era are still to be waited out at block
/// `now`: zero once a full era has elapsed, the shortfall otherwise.
pub open spec fn spec_remaining(p: Profile, now: u32) -> u8
    recommends
        p.start_block <= now,
{
    if now - p.start_block >= p.claim_era {
        0
    } else {
        (p.claim_era - (now - p.start_block)) as u8
    }
}

impl Profile {
    /// The remaining wait, computed at block `now`. The host's block height
    /// never runs backwards, so `now` is at least `start_block`.
    pub fn remaining(&self, now: u32) -> (r: u8)
        requires
            self.start_block <= now,
        ensures
            r == spec_remaining(*self, now),
    {
        let elapsed: u32 = now - self.start_block;
        if elapsed >= self.claim_era as u32 {
            0
        } else {
            self.claim_era - (elapsed as u8)
        }
    }
}

} // verus!
