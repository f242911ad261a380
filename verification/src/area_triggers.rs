//! Periodic AreaTrigger entry ownership: which authored trigger the active
//! mover entered, polled on the stock 100 ms cadence of a wrapping clock.
//!
//! Volume containment is floating-point geometry; the caller evaluates it per
//! entry and hands the answers in as `inside[i]`.

use vstd::prelude::*;

use crate::search::{first_from, lemma_first_from, lemma_first_from_unique};

verus! {

/// Interval between two trigger polls, in client milliseconds.
pub const POLL_INTERVAL_MS: u32 = 100;

/// One authored trigger row, ordered by map in the catalog.
#[derive(Clone, Copy, Debug, PartialEq, Eq)]
pub struct AreaTriggerEntry {
    pub id: u32,
    pub map_id: u32,
}

/// Mathematical state of the tracker.
pub struct AreaTriggerState {
    pub entries: Seq<AreaTriggerEntry>,
    pub map_id: Option<u32>,
    pub map_start: int,
    pub map_end: int,
    pub active: Option<int>,
    pub check_at: u32,
}

/// `a + b` on the wrapping 32-bit millisecond clock.
pub open spec fn wrap_add(a: u32, b: u32) -> u32 {
    ((a + b) % 0x1_0000_0000) as u32
}

/// The clock has reached `check_at`: `now - check_at` is non-negative as a
/// signed 32-bit difference.
pub open spec fn is_due(now: u32, check_at: u32) -> bool {
    (now - check_at) % 0x1_0000_0000 < 0x8000_0000
}

/// The contiguous run of rows for `map`: it starts at the first row whose map
/// is not below `map` when that row belongs to `map`, and continues while rows
/// do not exceed `map`. Empty when the first such row belongs to another map.
pub open spec fn map_run(entries: Seq<AreaTriggerEntry>, map: u32) -> (int, int) {
    let start = first_from(entries, 0, |e: AreaTriggerEntry| e.map_id >= map);
    if start < entries.len() && entries[start].map_id == map {
        (start, first_from(entries, start, |e: AreaTriggerEntry| e.map_id > map))
    } else {
        (0, 0)
    }
}

/// Whether the caller reported the player inside row `i`'s volume.
pub open spec fn contains(inside: Seq<bool>, i: int) -> bool {
    0 <= i < inside.len() && inside[i]
}

/// The first row of `[start, end)` whose volume contains the player, or `end`.
pub open spec fn first_containing(inside: Seq<bool>, start: int, end: int) -> int {
    first_from(Seq::new(end as nat, |i: int| contains(inside, i)), start, |b: bool| b)
}

impl AreaTriggerState {
    pub open spec fn well_formed(self) -> bool {
        &&& 0 <= self.map_start <= self.map_end <= self.entries.len()
        &&& self.active matches Some(a) ==> 0 <= a < self.entries.len()
    }

    /// Entering a map resets the active row and schedules the next poll.
    pub open spec fn entered(self, map: u32, now: u32) -> Self {
        AreaTriggerState {
            map_id: Some(map),
            active: None,
            check_at: wrap_add(now, POLL_INTERVAL_MS),
            map_start: map_run(self.entries, map).0,
            map_end: map_run(self.entries, map).1,
            ..self
        }
    }

    /// Leaving the world forgets the map and the active row.
    pub open spec fn disconnected(self) -> Self {
        AreaTriggerState { map_id: None, map_start: 0, map_end: 0, active: None, ..self }
    }

    /// The state and fired trigger after one poll.
    pub open spec fn polled(
        self,
        now: u32,
        map: u32,
        inside: Option<Seq<bool>>,
        mover: Option<u64>,
    ) -> (Self, Option<u32>) {
        if self.map_id is None {
            (self.entered(map, now), None)
        } else if !is_due(now, self.check_at) {
            (self, None)
        } else {
            let scheduled = AreaTriggerState { check_at: wrap_add(now, POLL_INTERVAL_MS), ..self };
            match inside {
                None => (scheduled, None),
                Some(inside) => {
                    let on_map = if scheduled.map_id != Some(map) {
                        scheduled.entered(map, now)
                    } else {
                        scheduled
                    };
                    if on_map.active matches Some(a) && contains(inside, a) {
                        (on_map, None)
                    } else {
                        let released = AreaTriggerState { active: None, ..on_map };
                        if mover is None {
                            (released, None)
                        } else {
                            let k = first_containing(inside, on_map.map_start, on_map.map_end);
                            if k < on_map.map_end {
                                (
                                    AreaTriggerState { active: Some(k), ..released },
                                    Some(self.entries[k].id),
                                )
                            } else {
                                (released, None)
                            }
                        }
                    }
                }
            }
        }
    }
}

pub open spec fn opt_seq(inside: Option<&[bool]>) -> Option<Seq<bool>> {
    match inside {
        Some(s) => Some(s@),
        None => None,
    }
}

/// Tracks the AreaTrigger the active mover stands in, firing once per entry.
pub struct RuntimeAreaTriggers {
    entries: Vec<AreaTriggerEntry>,
    map_id: Option<u32>,
    map_start: usize,
    map_end: usize,
    active: Option<usize>,
    check_at: u32,
}

impl View for RuntimeAreaTriggers {
    type V = AreaTriggerState;

    closed spec fn view(&self) -> AreaTriggerState {
        AreaTriggerState {
            entries: self.entries@,
            map_id: self.map_id,
            map_start: self.map_start as int,
            map_end: self.map_end as int,
            active: match self.active {
                Some(a) => Some(a as int),
                None => None,
            },
            check_at: self.check_at,
        }
    }
}

impl RuntimeAreaTriggers {
    /// Starts without a map, polling immediately on the first service.
    pub fn new(entries: Vec<AreaTriggerEntry>) -> (tracker: Self)
        ensures
            tracker@.entries == entries@,
            tracker@.map_id is None,
            tracker@.map_start == 0,
            tracker@.map_end == 0,
            tracker@.active is None,
            tracker@.check_at == 0,
            tracker@.well_formed(),
    {
        RuntimeAreaTriggers {
            entries,
            map_id: None,
            map_start: 0,
            map_end: 0,
            active: None,
            check_at: 0,
        }
    }

    /// The trigger rows, in catalog order.
    pub fn entries(&self) -> (entries: &[AreaTriggerEntry])
        ensures
            entries@ == self@.entries,
    {
        self.entries.as_slice()
    }

    /// The row whose volume the player currently stands in, if any.
    pub fn active(&self) -> (active: Option<usize>)
        ensures
            match active {
                Some(a) => self@.active == Some(a as int),
                None => self@.active is None,
            },
    {
        self.active
    }

    /// Finds the run of rows that belong to `map`.
    fn find_map_run(&self, map: u32) -> (run: (usize, usize))
        requires
            self@.well_formed(),
        ensures
            run.0 as int == map_run(self@.entries, map).0,
            run.1 as int == map_run(self@.entries, map).1,
            run.0 <= run.1 <= self@.entries.len(),
    {
        let ghost entries = self@.entries;
        let ghost at_or_above = |e: AreaTriggerEntry| e.map_id >= map;
        let ghost above = |e: AreaTriggerEntry| e.map_id > map;
        let n = self.entries.len();
        let mut start: usize = 0;
        while start < n && self.entries[start].map_id < map
            invariant
                n == entries.len(),
                entries == self@.entries,
                0 <= start <= n,
                at_or_above == (|e: AreaTriggerEntry| e.map_id >= map),
                forall|i: int| 0 <= i < start ==> !at_or_above(#[trigger] entries[i]),
            decreases n - start,
        {
            start += 1;
        }
        proof {
            lemma_first_from_unique(entries, 0, start as int, at_or_above);
        }
        if start < n && self.entries[start].map_id == map {
            let mut end: usize = start;
            while end < n && self.entries[end].map_id <= map
                invariant
                    n == entries.len(),
                    entries == self@.entries,
                    start <= end <= n,
                    above == (|e: AreaTriggerEntry| e.map_id > map),
                    forall|i: int| start <= i < end ==> !above(#[trigger] entries[i]),
                decreases n - end,
            {
                end += 1;
            }
            proof {
                lemma_first_from_unique(entries, start as int, end as int, above);
            }
            (start, end)
        } else {
            (0, 0)
        }
    }

    /// Entering a map resets the active row and schedules the next 100 ms callback.
    pub fn enter_map(&mut self, map_id: u32, now: u32)
        requires
            old(self)@.well_formed(),
        ensures
            final(self)@ == old(self)@.entered(map_id, now),
            final(self)@.well_formed(),
    {
        let run = self.find_map_run(map_id);
        self.map_id = Some(map_id);
        self.active = None;
        self.check_at = now.wrapping_add(POLL_INTERVAL_MS);
        self.map_start = run.0;
        self.map_end = run.1;
    }

    /// Forgets the map and the active row when the world goes away.
    pub fn disconnect(&mut self)
        requires
            old(self)@.well_formed(),
        ensures
            final(self)@ == old(self)@.disconnected(),
            final(self)@.well_formed(),
    {
        self.map_id = None;
        self.map_start = 0;
        self.map_end = 0;
        self.active = None;
    }

    /// Whether a service turn does any work now: a tracker that knows its map
    /// is idle until its next poll is due.
    pub fn should_service(&self, now: u32) -> (work: bool)
        ensures
            work == !(self@.map_id is Some && !is_due(now, self@.check_at)),
    {
        !(self.map_id.is_some() && now.wrapping_sub(self.check_at) >= 0x8000_0000)
    }

    /// The start of a service turn: without a world the tracker disconnects
    /// and does nothing; with one it works when `should_service` says so.
    pub fn begin_service(&mut self, world_active: bool, now: u32) -> (work: bool)
        requires
            old(self)@.well_formed(),
        ensures
            final(self)@.well_formed(),
            !world_active ==> !work && final(self)@ == old(self)@.disconnected(),
            world_active ==> final(self)@ == old(self)@ && work == !(old(self)@.map_id is Some
                && !is_due(now, old(self)@.check_at)),
    {
        if !world_active {
            self.disconnect();
            return false;
        }
        self.should_service(now)
    }

    /// One poll: `inside` holds, per row, whether the live player's position
    /// lies in that row's volume on `map_id` (absent while the player is dead or
    /// has no position); `active_mover` names the mover that would send the
    /// trigger packet. Returns the identifier of a newly entered trigger.
    pub fn poll(
        &mut self,
        now: u32,
        map_id: u32,
        inside: Option<&[bool]>,
        active_mover: Option<u64>,
    ) -> (fired: Option<u32>)
        requires
            old(self)@.well_formed(),
        ensures
            (final(self)@, fired) == old(self)@.polled(now, map_id, opt_seq(inside), active_mover),
            final(self)@.well_formed(),
    {
        if self.map_id.is_none() {
            self.enter_map(map_id, now);
            return None;
        }
        if now.wrapping_sub(self.check_at) >= 0x8000_0000 {
            return None;
        }
        self.check_at = now.wrapping_add(POLL_INTERVAL_MS);
        let inside = match inside {
            Some(inside) => inside,
            None => return None,
        };
        if self.map_id != Some(map_id) {
            self.enter_map(map_id, now);
        }
        if let Some(active) = self.active {
            if active < inside.len() && inside[active] {
                return None;
            }
            self.active = None;
        }
        if active_mover.is_none() {
            return None;
        }
        let start = self.map_start;
        let end = self.map_end;
        let ghost virt = Seq::new(end as nat, |i: int| contains(inside@, i));
        let ghost truthy = |b: bool| b;
        let mut index: usize = start;
        while index < end && !(index < inside.len() && inside[index])
            invariant
                start <= index <= end,
                virt == Seq::new(end as nat, |i: int| contains(inside@, i)),
                truthy == (|b: bool| b),
                forall|i: int| start <= i < index ==> !truthy(#[trigger] virt[i]),
            decreases end - index,
        {
            index += 1;
        }
        proof {
            lemma_first_from_unique(virt, start as int, index as int, truthy);
        }
        if index < end {
            self.active = Some(index);
            Some(self.entries[index].id)
        } else {
            None
        }
    }
}

/// While the player stays inside the active trigger's volume on the same map,
/// no poll fires a trigger: an entry re-arms only after leaving that volume.
pub proof fn law_active_trigger_does_not_refire(
    state: AreaTriggerState,
    now: u32,
    inside: Seq<bool>,
    mover: Option<u64>,
)
    requires
        state.well_formed(),
        state.map_id is Some,
        state.active matches Some(a) && contains(inside, a),
    ensures
        state.polled(now, state.map_id->0, Some(inside), mover).1 is None,
        state.polled(now, state.map_id->0, Some(inside), mover).0.active == state.active,
{
}

/// A fired trigger is the first row of the current map's run whose volume
/// contains the player; it becomes the active row, and firing needs a live
/// position, an active mover and a due poll.
pub proof fn law_fired_trigger_is_first_containing_row(
    state: AreaTriggerState,
    now: u32,
    map: u32,
    inside: Option<Seq<bool>>,
    mover: Option<u64>,
)
    requires
        state.well_formed(),
        state.polled(now, map, inside, mover).1 is Some,
    ensures
        ({
            let (next, fired) = state.polled(now, map, inside, mover);
            &&& state.map_id is Some
            &&& is_due(now, state.check_at)
            &&& mover is Some
            &&& inside is Some
            &&& next.map_id == Some(map)
            &&& next.active matches Some(k) && next.map_start <= k < next.map_end
                && contains(inside->0, k) && fired == Some(state.entries[k].id)
                && forall|i: int| next.map_start <= i < k ==> !contains(inside->0, i)
        }),
{
    let (next, fired) = state.polled(now, map, inside, mover);
    let ins = inside->0;
    let on_map = if state.map_id != Some(map) {
        AreaTriggerState { check_at: wrap_add(now, POLL_INTERVAL_MS), ..state }.entered(map, now)
    } else {
        AreaTriggerState { check_at: wrap_add(now, POLL_INTERVAL_MS), ..state }
    };
    let virt = Seq::new(on_map.map_end as nat, |i: int| contains(ins, i));
    let run = map_run(state.entries, map);
    lemma_first_from(state.entries, 0, |e: AreaTriggerEntry| e.map_id >= map);
    let start = first_from(state.entries, 0, |e: AreaTriggerEntry| e.map_id >= map);
    if start < state.entries.len() {
        lemma_first_from(state.entries, start, |e: AreaTriggerEntry| e.map_id > map);
    }
    assert(0 <= on_map.map_start <= on_map.map_end);
    lemma_first_from(virt, on_map.map_start, |b: bool| b);
    let k = first_containing(ins, on_map.map_start, on_map.map_end);
    assert forall|i: int| next.map_start <= i < k implies !contains(ins, i) by {
        assert(!(|b: bool| b)(virt[i]));
    }
}

/// A poll made before `check_at` changes nothing once the map is known; a due
/// poll schedules the next one exactly one interval after `now`.
pub proof fn law_poll_cadence(
    state: AreaTriggerState,
    now: u32,
    map: u32,
    inside: Option<Seq<bool>>,
    mover: Option<u64>,
)
    requires
        state.well_formed(),
        state.map_id is Some,
    ensures
        !is_due(now, state.check_at) ==> state.polled(now, map, inside, mover) == (state, None::<u32>),
        is_due(now, state.check_at) ==> state.polled(now, map, inside, mover).0.check_at == wrap_add(now, POLL_INTERVAL_MS),
{
}

} // verus!
