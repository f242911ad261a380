//! World environment decisions with integer inputs: the screen-effect fog
//! owner, the MapObj day/night emissive schedule and authored map clocks.
//! Light and fog colors are floating-point and computed by the caller.

use vstd::prelude::*;

use std::collections::VecDeque;

use crate::search::{first_from, lemma_first_from_unique};

verus! {

/// Half-minutes in a day.
pub const DAY_HALF_MINUTES: u32 = 2880;

pub const DAWN_START: u32 = 720;

pub const DAWN_END: u32 = 840;

pub const DUSK_START: u32 = 2460;

pub const DUSK_END: u32 = 2580;

/// The cyclic DayNight scalar consumed by MapObj material color, in 120ths:
/// fully enabled through 06:00, fading out by 07:00, disabled through 20:30,
/// fading back to full by 21:30.
pub open spec fn spec_emissive_120ths(half_minutes: u32) -> u32 {
    let time = half_minutes % DAY_HALF_MINUTES;
    if time < DAWN_START {
        120
    } else if time < DAWN_END {
        (DAWN_END - time) as u32
    } else if time < DUSK_START {
        0
    } else if time < DUSK_END {
        (time - DUSK_START) as u32
    } else {
        120
    }
}

pub fn world_model_emissive_120ths(half_minutes: u32) -> (weight: u32)
    ensures
        weight == spec_emissive_120ths(half_minutes),
        weight <= 120,
{
    let time = half_minutes % DAY_HALF_MINUTES;
    if time < DAWN_START {
        120
    } else if time < DAWN_END {
        DAWN_END - time
    } else if time < DUSK_START {
        0
    } else if time < DUSK_END {
        time - DUSK_START
    } else {
        120
    }
}

/// One queued screen-effect selection: its effect type (absent for no
/// declaration), its fog context and the full-screen-effects setting.
pub struct FogChange<C> {
    pub kind: Option<u32>,
    pub context: Option<C>,
    pub full_screen_effects: bool,
}

/// The manual fog a resolved change installs: the fog context it is built
/// on and whether full-screen effects color it.
pub struct ManualFog<C> {
    pub context: C,
    pub full_screen_effects: bool,
}

/// Manual fog activated by screen-effect callbacks, retained between frames.
pub struct ScreenEffectFog<C> {
    manual: Option<ManualFog<C>>,
    kind: u32,
    pending: VecDeque<FogChange<C>>,
}

/// The effect type after one change: no declaration resets it, types 0..=3
/// select themselves, and other types keep the previous one.
pub open spec fn next_kind(kind: u32, change: Option<u32>) -> u32 {
    match change {
        None => 0,
        Some(k) => if k <= 3 {
            k
        } else {
            kind
        },
    }
}

/// The manual fog after one change: type 2 installs fog on the
/// change's context (or the frame's), no declaration and types 0, 1, 3 clear
/// it, and other types keep the previous owner.
pub open spec fn next_manual<C>(manual: Option<ManualFog<C>>, change: FogChange<C>, frame: C) -> Option<
    ManualFog<C>,
> {
    match change.kind {
        Some(k) => if k == 2 {
            Some(
                ManualFog {
                    context: match change.context {
                        Some(c) => c,
                        None => frame,
                    },
                    full_screen_effects: change.full_screen_effects,
                },
            )
        } else if k <= 3 {
            None
        } else {
            manual
        },
        None => None,
    }
}

/// Applies queued changes in order.
pub open spec fn applied<C>(kind: u32, manual: Option<ManualFog<C>>, changes: Seq<FogChange<C>>, frame: C) -> (
    u32,
    Option<ManualFog<C>>,
)
    decreases changes.len(),
{
    if changes.len() == 0 {
        (kind, manual)
    } else {
        let (k, m) = applied(kind, manual, changes.drop_last(), frame);
        (next_kind(k, changes.last().kind), next_manual(m, changes.last(), frame))
    }
}

impl<C: Copy> ScreenEffectFog<C> {
    pub closed spec fn kind(&self) -> u32 {
        self.kind
    }

    pub closed spec fn manual(&self) -> Option<ManualFog<C>> {
        self.manual
    }

    pub closed spec fn pending(&self) -> Seq<FogChange<C>> {
        self.pending@
    }

    pub fn new() -> (fog: Self)
        ensures
            fog.kind() == 0,
            fog.manual() is None,
            fog.pending() == Seq::<FogChange<C>>::empty(),
    {
        ScreenEffectFog { manual: None, kind: 0, pending: VecDeque::new() }
    }

    /// The ghost screen effect is active.
    pub fn ghost(&self) -> (active: bool)
        ensures
            active == (self.kind() == 1),
    {
        self.kind == 1
    }

    /// Queues a selection; it applies at the next resolve.
    pub fn select(&mut self, kind: Option<u32>, context: Option<C>, full_screen_effects: bool)
        ensures
            final(self).kind() == old(self).kind(),
            final(self).manual() == old(self).manual(),
            final(self).pending() == old(self).pending().push(
                FogChange { kind, context, full_screen_effects },
            ),
    {
        self.pending.push_back(FogChange { kind, context, full_screen_effects });
    }

    /// Applies every queued change in order against the frame's fog context
    /// and returns the manual fog now in force.
    pub fn resolve(&mut self, frame: C) -> (manual: Option<ManualFog<C>>)
        ensures
            (final(self).kind(), final(self).manual()) == applied(
                old(self).kind(),
                old(self).manual(),
                old(self).pending(),
                frame,
            ),
            final(self).pending() == Seq::<FogChange<C>>::empty(),
            manual == final(self).manual(),
    {
        let ghost all = self.pending@;
        let ghost k0 = self.kind;
        let ghost m0 = self.manual;
        let ghost mut done: int = 0;
        while self.pending.len() > 0
            invariant
                0 <= done <= all.len(),
                self.pending@ == all.skip(done),
                (self.kind, self.manual) == applied(k0, m0, all.take(done), frame),
                all == old(self).pending@,
                k0 == old(self).kind,
                m0 == old(self).manual,
            ensures
                done == all.len(),
                (self.kind, self.manual) == applied(k0, m0, all.take(done), frame),
                self.pending@.len() == 0,
            decreases self.pending@.len(),
        {
            let change = match self.pending.pop_front() {
                Some(c) => c,
                None => {
                    break;
                },
            };
            assert(all.take(done + 1).drop_last() =~= all.take(done));
            assert(all.take(done + 1).last() == change);
            match change.kind {
                None => {
                    self.kind = 0;
                },
                Some(k) => {
                    if k <= 3 {
                        self.kind = k;
                    }
                },
            }
            match change.kind {
                Some(k) => {
                    if k == 2 {
                        let context = match change.context {
                            Some(c) => c,
                            None => frame,
                        };
                        self.manual = Some(
                            ManualFog { context, full_screen_effects: change.full_screen_effects },
                        );
                    } else if k <= 3 {
                        self.manual = None;
                    }
                },
                None => {
                    self.manual = None;
                },
            }
            proof {
                done = done + 1;
            }
            assert(self.pending@ =~= all.skip(done));
        }
        assert(all.take(done) =~= all);
        match &self.manual {
            Some(m) => Some(ManualFog { context: m.context, full_screen_effects: m.full_screen_effects }),
            None => None,
        }
    }
}

/// The ghost overlay draws only for the ghost effect with both full-screen
/// and death effects enabled.
pub fn ghost_effect(ghost: bool, full_screen_effects: bool, death_effects: bool) -> (enabled: bool)
    ensures
        enabled == (ghost && full_screen_effects && death_effects),
{
    ghost && full_screen_effects && death_effects
}

/// The maps that author a time-of-day override, as `(map, minutes)` rows in
/// catalog order.
pub open spec fn spec_map_time_overrides(maps: Seq<(u32, Option<i32>)>) -> Seq<(u32, i32)>
    decreases maps.len(),
{
    if maps.len() == 0 {
        Seq::empty()
    } else {
        let rest = spec_map_time_overrides(maps.drop_last());
        match maps.last().1 {
            Some(minutes) => rest.push((maps.last().0, minutes)),
            None => rest,
        }
    }
}

pub fn map_time_overrides(maps: &[(u32, Option<i32>)]) -> (overrides: Vec<(u32, i32)>)
    ensures
        overrides@ == spec_map_time_overrides(maps@),
{
    let mut overrides: Vec<(u32, i32)> = Vec::new();
    let mut i: usize = 0;
    while i < maps.len()
        invariant
            0 <= i <= maps@.len(),
            overrides@ == spec_map_time_overrides(maps@.take(i as int)),
        decreases maps@.len() - i,
    {
        assert(maps@.take(i as int + 1).drop_last() =~= maps@.take(i as int));
        assert(maps@.take(i as int + 1).last() == maps@[i as int]);
        if let Some(minutes) = maps[i].1 {
            overrides.push((maps[i].0, minutes));
        }
        i += 1;
    }
    assert(maps@.take(i as int) =~= maps@);
    overrides
}

/// The authored time-of-day override of a map, from `(map, minutes)` rows
/// (in catalog order, one row per map): the first row of that map.
pub open spec fn overrides_map(map_id: u32) -> spec_fn((u32, i32)) -> bool {
    |e: (u32, i32)| e.0 == map_id
}

pub open spec fn override_index(overrides: Seq<(u32, i32)>, map_id: u32) -> int {
    first_from(overrides, 0, overrides_map(map_id))
}

pub fn map_time_override(overrides: &[(u32, i32)], map_id: u32) -> (minutes: Option<i32>)
    ensures
        ({
            let k = override_index(overrides@, map_id);
            minutes == if k < overrides@.len() {
                Some(overrides@[k].1)
            } else {
                None::<i32>
            }
        }),
{
    let ghost p = overrides_map(map_id);
    let mut i: usize = 0;
    while i < overrides.len() && overrides[i].0 != map_id
        invariant
            0 <= i <= overrides@.len(),
            p == overrides_map(map_id),
            forall|j: int| 0 <= j < i ==> !p(#[trigger] overrides@[j]),
        decreases overrides@.len() - i,
    {
        i += 1;
    }
    proof {
        lemma_first_from_unique(overrides@, 0, i as int, p);
    }
    if i < overrides.len() {
        Some(overrides[i].1)
    } else {
        None
    }
}

/// The environment cannot choose its view-distance policy without the
/// machine's physical memory size.
#[derive(Clone, Copy, Debug, PartialEq, Eq, Structural)]
pub enum RuntimeWorldEnvironmentError {
    MissingPhysicalMemory,
}

/// The world environment's effect switches, its screen-effect fog and the
/// authored map clocks; `C` is the frame's fog context. Light tables, view
/// distance and weather lighting are floating-point and stay with the caller.
pub struct RuntimeWorldEnvironment<C> {
    total_physical_memory_bytes: u64,
    map_time_overrides: Vec<(u32, i32)>,
    screen_effect_fog: ScreenEffectFog<C>,
    full_screen_effects: bool,
    death_effects: bool,
}

impl<C: Copy> RuntimeWorldEnvironment<C> {
    pub closed spec fn memory(&self) -> u64 {
        self.total_physical_memory_bytes
    }

    pub closed spec fn overrides(&self) -> Seq<(u32, i32)> {
        self.map_time_overrides@
    }

    pub closed spec fn fog(&self) -> ScreenEffectFog<C> {
        self.screen_effect_fog
    }

    pub closed spec fn full_screen_effects(&self) -> bool {
        self.full_screen_effects
    }

    pub closed spec fn death_effects(&self) -> bool {
        self.death_effects
    }

    /// Both effect switches start enabled; a machine that reports no
    /// physical memory is refused.
    pub fn new(total_physical_memory_bytes: u64) -> (environment: Result<
        Self,
        RuntimeWorldEnvironmentError,
    >)
        ensures
            match environment {
                Ok(e) => {
                    &&& total_physical_memory_bytes != 0
                    &&& e.memory() == total_physical_memory_bytes
                    &&& e.overrides() == Seq::<(u32, i32)>::empty()
                    &&& e.fog().kind() == 0 && e.fog().manual() is None && e.fog().pending()
                        == Seq::<FogChange<C>>::empty()
                    &&& e.full_screen_effects() && e.death_effects()
                },
                Err(error) => total_physical_memory_bytes == 0 && error
                    == RuntimeWorldEnvironmentError::MissingPhysicalMemory,
            },
    {
        if total_physical_memory_bytes == 0 {
            return Err(RuntimeWorldEnvironmentError::MissingPhysicalMemory);
        }
        Ok(
            RuntimeWorldEnvironment {
                total_physical_memory_bytes,
                map_time_overrides: Vec::new(),
                screen_effect_fog: ScreenEffectFog::new(),
                full_screen_effects: true,
                death_effects: true,
            },
        )
    }

    /// Retains the authored map clocks of a map catalog's `(map, override)`
    /// rows.
    pub fn with_map_time_overrides(self, maps: &[(u32, Option<i32>)]) -> (environment: Self)
        ensures
            environment.overrides() == spec_map_time_overrides(maps@),
            environment.memory() == self.memory(),
            environment.fog() == self.fog(),
            environment.full_screen_effects() == self.full_screen_effects(),
            environment.death_effects() == self.death_effects(),
    {
        RuntimeWorldEnvironment { map_time_overrides: map_time_overrides(maps), ..self }
    }

    /// The authored clock override of a map, if any.
    pub fn map_time_override(&self, map_id: u32) -> (minutes: Option<i32>)
        ensures
            ({
                let k = override_index(self.overrides(), map_id);
                minutes == if k < self.overrides().len() {
                    Some(self.overrides()[k].1)
                } else {
                    None::<i32>
                }
            }),
    {
        map_time_override(self.map_time_overrides.as_slice(), map_id)
    }

    /// Queues a screen-effect selection (absent for an undeclared effect)
    /// with the current frame's fog context and the full-screen setting.
    pub fn select_screen_effect(&mut self, effect_type: Option<u32>, current_context: Option<C>)
        ensures
            final(self).fog().pending() == old(self).fog().pending().push(
                FogChange {
                    kind: effect_type,
                    context: current_context,
                    full_screen_effects: old(self).full_screen_effects(),
                },
            ),
            final(self).fog().kind() == old(self).fog().kind(),
            final(self).fog().manual() == old(self).fog().manual(),
            final(self).full_screen_effects() == old(self).full_screen_effects(),
            final(self).death_effects() == old(self).death_effects(),
            final(self).overrides() == old(self).overrides(),
    {
        self.screen_effect_fog.select(effect_type, current_context, self.full_screen_effects);
    }

    pub fn set_full_screen_effects(&mut self, enabled: bool)
        ensures
            final(self).full_screen_effects() == enabled,
            final(self).death_effects() == old(self).death_effects(),
            final(self).fog() == old(self).fog(),
            final(self).overrides() == old(self).overrides(),
    {
        self.full_screen_effects = enabled;
    }

    pub fn set_death_effects(&mut self, enabled: bool)
        ensures
            final(self).death_effects() == enabled,
            final(self).full_screen_effects() == old(self).full_screen_effects(),
            final(self).fog() == old(self).fog(),
            final(self).overrides() == old(self).overrides(),
    {
        self.death_effects = enabled;
    }

    /// Applies the queued selections against this frame's fog context and
    /// returns the manual fog in force.
    pub fn resolve_fog(&mut self, frame: C) -> (manual: Option<ManualFog<C>>)
        ensures
            (final(self).fog().kind(), final(self).fog().manual()) == applied(
                old(self).fog().kind(),
                old(self).fog().manual(),
                old(self).fog().pending(),
                frame,
            ),
            final(self).fog().pending() == Seq::<FogChange<C>>::empty(),
            manual == final(self).fog().manual(),
            final(self).full_screen_effects() == old(self).full_screen_effects(),
            final(self).death_effects() == old(self).death_effects(),
            final(self).overrides() == old(self).overrides(),
    {
        self.screen_effect_fog.resolve(frame)
    }

    /// The ghost overlay draws for the ghost effect with both switches on.
    pub fn ghost_effect_enabled(&self) -> (enabled: bool)
        ensures
            enabled == (self.fog().kind() == 1 && self.full_screen_effects()
                && self.death_effects()),
    {
        ghost_effect(self.screen_effect_fog.ghost(), self.full_screen_effects, self.death_effects)
    }

    /// Forgets the world's screen effect; the tables and switches stay.
    pub fn disconnect(&mut self)
        ensures
            final(self).fog().kind() == 0,
            final(self).fog().manual() is None,
            final(self).fog().pending() == Seq::<FogChange<C>>::empty(),
            final(self).full_screen_effects() == old(self).full_screen_effects(),
            final(self).death_effects() == old(self).death_effects(),
            final(self).overrides() == old(self).overrides(),
            final(self).memory() == old(self).memory(),
    {
        self.screen_effect_fog = ScreenEffectFog::new();
    }
}

/// The schedule is cyclic: a time and the same time one day later have the
/// same emissive weight.
pub proof fn law_emissive_is_daily(half_minutes: u32)
    requires
        half_minutes + DAY_HALF_MINUTES <= u32::MAX,
    ensures
        spec_emissive_120ths(half_minutes) == spec_emissive_120ths(
            (half_minutes + DAY_HALF_MINUTES) as u32,
        ),
{
    let h = half_minutes as int;
    let d = DAY_HALF_MINUTES as int;
    assert((h + d) % d == h % d) by (nonlinear_arith)
        requires
            d == 2880,
            h >= 0,
    ;
}

/// Only the last manual-fog-deciding change matters: queueing a type-2 effect
/// after any other change installs fog on that effect's context.
pub proof fn law_last_fog_change_wins<C>(
    kind: u32,
    manual: Option<ManualFog<C>>,
    earlier: Seq<FogChange<C>>,
    context: C,
    full: bool,
    frame: C,
)
    ensures
        applied(
            kind,
            manual,
            earlier.push(FogChange { kind: Some(2), context: Some(context), full_screen_effects: full }),
            frame,
        ).1 == Some(ManualFog { context, full_screen_effects: full }),
{
    let changes = earlier.push(
        FogChange { kind: Some(2), context: Some(context), full_screen_effects: full },
    );
    assert(changes.drop_last() =~= earlier);
}

/// Selecting the ghost effect makes the ghost overlay draw from the next
/// resolved frame while both switches are on, and no overlay survives a
/// newer deciding effect.
pub proof fn law_ghost_follows_last_effect<C>(
    kind: u32,
    manual: Option<ManualFog<C>>,
    earlier: Seq<FogChange<C>>,
    full: bool,
    frame: C,
    later: u32,
)
    requires
        later <= 3,
        later != 1,
    ensures
        applied(
            kind,
            manual,
            earlier.push(FogChange { kind: Some(1), context: None, full_screen_effects: full }),
            frame,
        ).0 == 1,
        applied(
            kind,
            manual,
            earlier.push(FogChange { kind: Some(1), context: None, full_screen_effects: full }).push(
                FogChange { kind: Some(later), context: None, full_screen_effects: full },
            ),
            frame,
        ).0 != 1,
{
    let once = earlier.push(FogChange { kind: Some(1), context: None, full_screen_effects: full });
    let twice = once.push(FogChange { kind: Some(later), context: None, full_screen_effects: full });
    assert(once.drop_last() =~= earlier);
    assert(twice.drop_last() =~= once);
}

} // verus!
