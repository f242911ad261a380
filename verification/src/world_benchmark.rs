//! The schedule of the offline World benchmark: its phases, the frames it
//! captures, its preconditions and the terrain residency changes it counts.
//! The caller drives the production presentation and measures the time.

use vstd::prelude::*;

use crate::text::str_equal;

verus! {

/// The fixed phases, followed by the travel phases when a travel segment is
/// given.
pub open spec fn spec_world_benchmark_phases(travel: bool) -> Seq<&'static str> {
    if travel {
        seq!["streaming", "stationary", "orbit", "pointer", "travel_out", "travel_back", "settled"]
    } else {
        seq!["streaming", "stationary", "orbit", "pointer"]
    }
}

pub fn world_benchmark_phases(travel: bool) -> (phases: Vec<&'static str>)
    ensures
        phases@ == spec_world_benchmark_phases(travel),
{
    let mut phases: Vec<&'static str> = Vec::new();
    phases.push("streaming");
    phases.push("stationary");
    phases.push("orbit");
    phases.push("pointer");
    if travel {
        phases.push("travel_out");
        phases.push("travel_back");
        phases.push("settled");
    }
    assert(phases@ =~= spec_world_benchmark_phases(travel));
    phases
}

/// Phases whose frames move the camera, sampled four times per phase.
pub open spec fn moving_phase(phase: Seq<char>) -> bool {
    phase == "orbit"@ || phase == "travel_out"@ || phase == "travel_back"@
}

/// Frames captured when a capture directory is given: the first and last
/// frame of every phase, and every quarter of a moving phase.
pub open spec fn spec_captures_frame(phase: Seq<char>, index: int, frames: int) -> bool {
    let quarter = if frames / 4 >= 1 {
        frames / 4
    } else {
        1
    };
    index == 0 || index + 1 == frames || (moving_phase(phase) && index % quarter == 0)
}

pub fn captures_frame(phase: &str, index: usize, frames: usize) -> (capture: bool)
    requires
        frames >= 1,
        index < frames,
    ensures
        capture == spec_captures_frame(phase@, index as int, frames as int),
{
    let quarter = if frames / 4 >= 1 {
        frames / 4
    } else {
        1
    };
    let moving = str_equal(phase, "orbit") || str_equal(phase, "travel_out") || str_equal(
        phase,
        "travel_back",
    );
    index == 0 || index + 1 == frames || (moving && index % quarter == 0)
}

/// Why the benchmark cannot start: it needs a fresh application (no world,
/// terrain frame or world UI yet) and a fixture player with its FrameXML
/// facts.
pub fn world_benchmark_precondition(
    world_active: bool,
    terrain_frame: bool,
    world_ui: bool,
    player_ready: bool,
) -> (error: Option<&'static str>)
    ensures
        error == if world_active || terrain_frame || world_ui {
            Some("requires a fresh diagnostic application")
        } else if !player_ready {
            Some("fixture player is missing FrameXML facts")
        } else {
            None::<&'static str>
        },
{
    if world_active || terrain_frame || world_ui {
        Some("requires a fresh diagnostic application")
    } else if !player_ready {
        Some("fixture player is missing FrameXML facts")
    } else {
        None
    }
}

/// Tiles of `tiles` that are absent from `other`.
pub open spec fn spec_not_in(tiles: Seq<(u32, u32)>, other: Seq<(u32, u32)>) -> nat
    decreases tiles.len(),
{
    if tiles.len() == 0 {
        0
    } else {
        spec_not_in(tiles.drop_last(), other) + if other.contains(tiles.last()) {
            0nat
        } else {
            1nat
        }
    }
}

fn contains_tile(tiles: &[(u32, u32)], tile: (u32, u32)) -> (found: bool)
    ensures
        found == tiles@.contains(tile),
{
    let mut i: usize = 0;
    while i < tiles.len()
        invariant
            0 <= i <= tiles@.len(),
            forall|j: int| 0 <= j < i ==> tiles@[j] != tile,
        decreases tiles@.len() - i,
    {
        if tiles[i].0 == tile.0 && tiles[i].1 == tile.1 {
            assert(tiles@[i as int] == tile);
            return true;
        }
        i += 1;
    }
    false
}

fn count_not_in(tiles: &[(u32, u32)], other: &[(u32, u32)]) -> (count: usize)
    ensures
        count == spec_not_in(tiles@, other@),
{
    let mut count: usize = 0;
    let mut i: usize = 0;
    while i < tiles.len()
        invariant
            0 <= i <= tiles@.len(),
            count == spec_not_in(tiles@.take(i as int), other@),
            count <= i,
        decreases tiles@.len() - i,
    {
        assert(tiles@.take(i as int + 1).drop_last() =~= tiles@.take(i as int));
        assert(tiles@.take(i as int + 1).last() == tiles@[i as int]);
        if !contains_tile(other, tiles[i]) {
            count += 1;
        }
        i += 1;
    }
    assert(tiles@.take(i as int) =~= tiles@);
    count
}

/// The terrain tiles one streaming transaction admitted and evicted: those
/// resident after it but not before, and those resident before but not
/// after.
pub fn tile_changes(previous: &[(u32, u32)], current: &[(u32, u32)]) -> (changes: (usize, usize))
    ensures
        changes.0 == spec_not_in(current@, previous@),
        changes.1 == spec_not_in(previous@, current@),
{
    (count_not_in(current, previous), count_not_in(previous, current))
}

/// A transaction that changes nothing reports no admission or eviction.
pub proof fn law_unchanged_residency_reports_nothing(tiles: Seq<(u32, u32)>)
    ensures
        spec_not_in(tiles, tiles) == 0,
{
    assert forall|i: int| 0 <= i < tiles.len() implies tiles.contains(#[trigger] tiles[i]) by {
        assert(tiles[i] == tiles[i]);
    }
    lemma_not_in_superset(tiles, tiles);
}

proof fn lemma_not_in_superset(tiles: Seq<(u32, u32)>, other: Seq<(u32, u32)>)
    requires
        forall|i: int| 0 <= i < tiles.len() ==> other.contains(#[trigger] tiles[i]),
    ensures
        spec_not_in(tiles, other) == 0,
    decreases tiles.len(),
{
    if tiles.len() > 0 {
        assert forall|i: int| 0 <= i < tiles.drop_last().len() implies other.contains(
            #[trigger] tiles.drop_last()[i],
        ) by {
            assert(tiles.drop_last()[i] == tiles[i]);
        }
        lemma_not_in_superset(tiles.drop_last(), other);
        assert(other.contains(tiles[tiles.len() - 1]));
    }
}

/// The first and last frame of any phase are captured; in each of the
/// moving phases `orbit`, `travel_out` and `travel_back`, every frame whose
/// index is a multiple of a quarter of the phase (at least one frame) is
/// captured too; in any other phase nothing between the first and the last
/// frame is.
pub proof fn law_moving_phases_capture_every_quarter(phase: Seq<char>, index: int, frames: int)
    requires
        frames >= 1,
        0 <= index < frames,
    ensures
        spec_captures_frame(phase, 0, frames),
        spec_captures_frame(phase, frames - 1, frames),
        index % (if frames / 4 >= 1 {
            frames / 4
        } else {
            1
        }) == 0 ==> {
            &&& spec_captures_frame("orbit"@, index, frames)
            &&& spec_captures_frame("travel_out"@, index, frames)
            &&& spec_captures_frame("travel_back"@, index, frames)
        },
        phase != "orbit"@ && phase != "travel_out"@ && phase != "travel_back"@ ==> (
        spec_captures_frame(phase, index, frames) == (index == 0 || index + 1 == frames)),
{
}

} // verus!
