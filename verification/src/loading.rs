//! Frame-counted animations: the blinking cat of the loading screen and the
//! schedule of falling leaves in the main menu.
use vstd::prelude::*;

verus! {

/// How open the cat's eyes are.
#[derive(Clone, Copy, Debug, PartialEq, Eq, Structural)]
pub enum CatEyes {
    Open,
    HalfClosed,
    Closed,
}

/// One update of the blink: the new frame count and the eyes to show from
/// now on, if they change. The eyes are open for 35 updates, then half
/// closed, closed and half closed for 5 updates each; the cycle is 50 updates.
pub open spec fn blink(frames: u8) -> (u8, Option<CatEyes>) {
    let f = frames + 1;
    if f == 35 {
        (35, Some(CatEyes::HalfClosed))
    } else if f == 40 {
        (40, Some(CatEyes::Closed))
    } else if f == 45 {
        (45, Some(CatEyes::HalfClosed))
    } else if f == 50 {
        (0, Some(CatEyes::Open))
    } else {
        (f as u8, None)
    }
}

/// One update of the blink (see `blink`).
pub fn blink_step(frames: u8) -> (r: (u8, Option<CatEyes>))
    requires
        frames < 255,
    ensures
        r == blink(frames),
        frames < 50 ==> r.0 < 50,
{
    let f = frames + 1;
    if f == 35 {
        (35, Some(CatEyes::HalfClosed))
    } else if f == 40 {
        (40, Some(CatEyes::Closed))
    } else if f == 45 {
        (45, Some(CatEyes::HalfClosed))
    } else if f == 50 {
        (0, Some(CatEyes::Open))
    } else {
        (f, None)
    }
}

/// Updates between two leaves, in turn.
pub const LEAF_SPAWN_TIMES: [u16; 19] = [
    44,
    153,
    10,
    93,
    588,
    97,
    126,
    642,
    323,
    65,
    23,
    224,
    123,
    345,
    49,
    342,
    164,
    32,
    471,
];

/// Number of spawn positions, taken in turn.
pub const LEAF_SPAWN_POSITIONS: usize = 16;

/// When the next leaf falls and from which of the spawn positions.
pub struct LeafSchedule {
    frames: u16,
    spawn_time: usize,
    spawn_position: usize,
}

impl LeafSchedule {
    #[verifier::type_invariant]
    spec fn well_formed(self) -> bool {
        &&& self.spawn_time < 19
        &&& self.spawn_position < LEAF_SPAWN_POSITIONS
        &&& self.frames < LEAF_SPAWN_TIMES[self.spawn_time as int]
    }

    /// Updates since the last leaf.
    pub closed spec fn frames(&self) -> nat {
        self.frames as nat
    }

    /// Which spawn time comes next.
    pub closed spec fn time_index(&self) -> nat {
        self.spawn_time as nat
    }

    /// Which spawn position comes next.
    pub closed spec fn position_index(&self) -> nat {
        self.spawn_position as nat
    }

    /// The schedule at its start.
    pub fn new() -> (r: LeafSchedule)
        ensures
            r.frames() == 0,
            r.time_index() == 0,
            r.position_index() == 0,
    {
        LeafSchedule { frames: 0, spawn_time: 0, spawn_position: 0 }
    }

    /// One update: when the wait for the current spawn time is over, a leaf
    /// falls; returns the spawn position it falls from.
    pub fn update(&mut self) -> (r: Option<usize>)
        ensures
            old(self).frames() + 1 == LEAF_SPAWN_TIMES[old(self).time_index() as int] ==> {
                &&& r == Some(old(self).position_index() as usize)
                &&& final(self).frames() == 0
                &&& final(self).time_index() == (old(self).time_index() + 1) % 19
                &&& final(self).position_index() == (old(self).position_index() + 1)
                    % LEAF_SPAWN_POSITIONS as nat
            },
            old(self).frames() + 1 != LEAF_SPAWN_TIMES[old(self).time_index() as int] ==> {
                &&& r is None
                &&& final(self).frames() == old(self).frames() + 1
                &&& final(self).time_index() == old(self).time_index()
                &&& final(self).position_index() == old(self).position_index()
            },
            r matches Some(p) ==> p < LEAF_SPAWN_POSITIONS,
    {
        proof {
            use_type_invariant(&*self);
        }
        let frames = self.frames + 1;
        if frames == LEAF_SPAWN_TIMES[self.spawn_time] {
            let position = self.spawn_position;
            let next_time = if self.spawn_time + 1 == 19 {
                0
            } else {
                self.spawn_time + 1
            };
            let next_position = if self.spawn_position + 1 == LEAF_SPAWN_POSITIONS {
                0
            } else {
                self.spawn_position + 1
            };
            *self = LeafSchedule { frames: 0, spawn_time: next_time, spawn_position: next_position };
            Some(position)
        } else {
            *self = LeafSchedule {
                frames,
                spawn_time: self.spawn_time,
                spawn_position: self.spawn_position,
            };
            None
        }
    }
}

} // verus!
