//! Generic GameObject decisions independent of model placement: collision
//! eligibility of doors and which field notifications change animation.

use vstd::prelude::*;

verus! {

/// GameObject type of doors.
pub const DOOR_OBJECT_TYPE: u8 = 0;

/// GameObject type whose state notifications always restart animation.
pub const ALWAYS_NOTIFY_OBJECT_TYPE: u8 = 15;

/// Query flag that removes a door from collision.
pub const DOOR_NO_COLLISION_FLAG: u32 = 0x8000;

/// Flag that pauses a transition animation.
pub const PAUSED_FLAG: u32 = 0x80;

/// Collision switch of one GameObject behavior.
#[derive(Clone, Copy, Debug, PartialEq, Eq)]
pub struct BehaviorCollision {
    pub door: bool,
    pub enabled: bool,
}

/// Whether a collision switch blocks movement for an object of this type
/// and query flags.
pub open spec fn spec_eligible(c: BehaviorCollision, object_type: u8, query_flags: u32) -> bool {
    !(object_type == DOOR_OBJECT_TYPE && query_flags & DOOR_NO_COLLISION_FLAG != 0) && c.enabled
}

/// The switch after a state write: a door collides exactly while closed.
pub open spec fn spec_state_written(c: BehaviorCollision, closed: bool) -> BehaviorCollision {
    if c.door {
        BehaviorCollision { enabled: closed, ..c }
    } else {
        c
    }
}

impl BehaviorCollision {
    pub fn new(object_type: u8) -> (collision: Self)
        ensures
            collision.door == (object_type == DOOR_OBJECT_TYPE),
            !collision.enabled,
    {
        BehaviorCollision { door: object_type == DOOR_OBJECT_TYPE, enabled: false }
    }

    /// Whether the object blocks movement now.
    pub fn eligible(&self, object_type: u8, query_flags: u32) -> (eligible: bool)
        ensures
            eligible == spec_eligible(*self, object_type, query_flags),
    {
        !(object_type == DOOR_OBJECT_TYPE && query_flags & DOOR_NO_COLLISION_FLAG != 0)
            && self.enabled
    }

    /// The first placed collision enables a non-door, or a
    /// closed door, when its bounds have a positive extent.
    pub fn initialize(&mut self, closed: bool, positive_extent: bool)
        ensures
            final(self).door == old(self).door,
            final(self).enabled == if !old(self).door || closed {
                positive_extent
            } else {
                old(self).enabled
            },
    {
        if !self.door || closed {
            self.enabled = positive_extent;
        }
    }

    /// After every state write a door collides exactly while closed.
    pub fn state_written(&mut self, closed: bool)
        ensures
            *final(self) == spec_state_written(*old(self), closed),
    {
        if self.door {
            self.enabled = closed;
        }
    }
}

/// A state notification changes animation when the state byte changed, or
/// always for the type that re-runs its state.
pub fn state_notification_applies(previous: u8, current: u8, object_type: u8) -> (applies: bool)
    ensures
        applies == (previous != current || object_type == ALWAYS_NOTIFY_OBJECT_TYPE),
{
    previous != current || object_type == ALWAYS_NOTIFY_OBJECT_TYPE
}

/// A flags notification pauses or resumes a loaded transition animation when
/// the pause flag toggled; returns the new paused state, if any.
pub fn flags_notification_pause(flags: u32, previous: u32, transition: bool, has_playback: bool) -> (paused:
    Option<bool>)
    ensures
        paused == if (flags ^ previous) & PAUSED_FLAG != 0 && transition && has_playback {
            Some(flags & PAUSED_FLAG != 0)
        } else {
            None::<bool>
        },
{
    if (flags ^ previous) & PAUSED_FLAG != 0 && transition && has_playback {
        Some(flags & PAUSED_FLAG != 0)
    } else {
        None
    }
}

/// GameObject types whose behavior is the generic one (doors, buttons,
/// chests and the like); path transports and specialized clocks have other
/// owners.
pub open spec fn spec_has_generic_behavior(object_type: u8) -> bool {
    ||| object_type <= 3
    ||| 5 <= object_type <= 6
    ||| 8 <= object_type <= 10
    ||| object_type == 12
    ||| 16 <= object_type <= 19
    ||| 22 <= object_type <= 27
    ||| 29 <= object_type <= 30
    ||| object_type == 34
}

pub fn has_generic_behavior(object_type: u8) -> (generic: bool)
    ensures
        generic == spec_has_generic_behavior(object_type),
{
    matches!(object_type, 0..=3 | 5..=6 | 8..=10 | 12 | 16..=19 | 22..=27 | 29..=30 | 34)
}

/// A door's collision always follows its state once written: whatever was
/// enabled before, a closed door blocks unless its query flags remove it
/// from collision, and an open door never blocks.
pub proof fn law_door_collision_follows_state(c: BehaviorCollision, closed: bool, query_flags: u32)
    requires
        c.door,
    ensures
        spec_eligible(spec_state_written(c, closed), DOOR_OBJECT_TYPE, query_flags) == (closed
            && query_flags & DOOR_NO_COLLISION_FLAG == 0),
{
}

} // verus!
