//! Character-owned ordinary camera persistence: which CVars
//! the character cache owns, and the order in which world CVars are applied.
//!
//! The floating-point conversions of the saved distance and pitch stay with
//! the caller.

use vstd::prelude::*;

use crate::text::{eq_ignore_ascii_case, str_eq_ignore_ascii_case};

verus! {

/// Registered defaults: (name, value).
pub fn saved_camera_defaults() -> (defaults: [(&'static str, &'static str); 3])
    ensures
        defaults[0].0@ == "cameraSavedDistance"@,
        defaults[0].1@ == "5.55"@,
        defaults[1].0@ == "cameraSavedPitch"@,
        defaults[1].1@ == "10.0"@,
        defaults[2].0@ == "cameraSavedVehicleDistance"@,
        defaults[2].1@ == "-1.0"@,
{
    [
        ("cameraSavedDistance", "5.55"),
        ("cameraSavedPitch", "10.0"),
        ("cameraSavedVehicleDistance", "-1.0"),
    ]
}

/// The character cache owns the three saved camera CVars, by case-insensitive name.
pub open spec fn spec_is_saved_camera_cvar(name: Seq<char>) -> bool {
    ||| eq_ignore_ascii_case("cameraSavedDistance"@, name)
    ||| eq_ignore_ascii_case("cameraSavedPitch"@, name)
    ||| eq_ignore_ascii_case("cameraSavedVehicleDistance"@, name)
}

pub fn is_saved_camera_cvar(name: &str) -> (saved: bool)
    ensures
        saved == spec_is_saved_camera_cvar(name@),
{
    let defaults = saved_camera_defaults();
    str_eq_ignore_ascii_case(defaults[0].0, name) || str_eq_ignore_ascii_case(defaults[1].0, name)
        || str_eq_ignore_ascii_case(defaults[2].0, name)
}

pub open spec fn pair_view(p: (String, String)) -> (Seq<char>, Seq<char>) {
    (p.0@, p.1@)
}

pub open spec fn pairs_view(s: Seq<(String, String)>) -> Seq<(Seq<char>, Seq<char>)> {
    s.map_values(|p: (String, String)| pair_view(p))
}

/// The pairs whose name is (`camera` true) or is not (`camera` false) a saved
/// camera CVar, in their original order.
pub open spec fn keep_cvars(s: Seq<(Seq<char>, Seq<char>)>, camera: bool) -> Seq<(Seq<char>, Seq<char>)>
    decreases s.len(),
{
    if s.len() == 0 {
        s
    } else {
        let rest = keep_cvars(s.drop_last(), camera);
        if spec_is_saved_camera_cvar(s.last().0) == camera {
            rest.push(s.last())
        } else {
            rest
        }
    }
}

pub open spec fn defaults_view() -> Seq<(Seq<char>, Seq<char>)> {
    seq![
        ("cameraSavedDistance"@, "5.55"@),
        ("cameraSavedPitch"@, "10.0"@),
        ("cameraSavedVehicleDistance"@, "-1.0"@),
    ]
}

/// Appends the pairs of `source` whose camera ownership is `camera`.
fn append_kept(out: &mut Vec<(String, String)>, source: &[(String, String)], camera: bool)
    ensures
        pairs_view(final(out)@) == pairs_view(old(out)@) + keep_cvars(pairs_view(source@), camera),
{
    let ghost start = pairs_view(out@);
    let n = source.len();
    let mut i: usize = 0;
    while i < n
        invariant
            n == source@.len(),
            0 <= i <= n,
            pairs_view(out@) == start + keep_cvars(pairs_view(source@.take(i as int)), camera),
        decreases n - i,
    {
        let ghost before = out@;
        assert(pairs_view(source@.take(i as int + 1)).drop_last() =~= pairs_view(
            source@.take(i as int),
        ));
        assert(pairs_view(source@.take(i as int + 1)).last() == pair_view(source@[i as int]));
        if is_saved_camera_cvar(source[i].0.as_str()) == camera {
            let name = source[i].0.clone();
            let value = source[i].1.clone();
            out.push((name, value));
            assert(pairs_view(out@) =~= pairs_view(before).push(pair_view(source@[i as int])));
        }
        i += 1;
    }
    assert(source@.take(n as int) =~= source@);
}

/// Load order of world CVars: global settings other than the saved camera,
/// then the registered camera defaults, then the character's saved camera.
pub fn world_cvar_values(
    global: &[(String, String)],
    character: Option<&[(String, String)]>,
) -> (values: Vec<(String, String)>)
    ensures
        pairs_view(values@) == keep_cvars(pairs_view(global@), false) + defaults_view() + match character {
            Some(c) => keep_cvars(pairs_view(c@), true),
            None => Seq::empty(),
        },
{
    let mut values: Vec<(String, String)> = Vec::new();
    assert(pairs_view(values@) =~= Seq::empty());
    append_kept(&mut values, global, false);
    let ghost filtered = pairs_view(values@);
    let defaults = saved_camera_defaults();
    let mut i: usize = 0;
    while i < 3
        invariant
            0 <= i <= 3,
            defaults[0].0@ == "cameraSavedDistance"@,
            defaults[0].1@ == "5.55"@,
            defaults[1].0@ == "cameraSavedPitch"@,
            defaults[1].1@ == "10.0"@,
            defaults[2].0@ == "cameraSavedVehicleDistance"@,
            defaults[2].1@ == "-1.0"@,
            pairs_view(values@) == filtered + defaults_view().take(i as int),
        decreases 3 - i,
    {
        let ghost before = values@;
        values.push((defaults[i].0.to_owned(), defaults[i].1.to_owned()));
        assert(pairs_view(values@) =~= pairs_view(before).push(defaults_view()[i as int]));
        assert(defaults_view().take(i as int + 1) =~= defaults_view().take(i as int).push(
            defaults_view()[i as int],
        ));
        i += 1;
    }
    assert(defaults_view().take(3) =~= defaults_view());
    match character {
        Some(c) => {
            append_kept(&mut values, c, true);
        },
        None => {
            assert(pairs_view(values@) =~= pairs_view(values@) + Seq::empty());
        },
    }
    values
}

/// The saved camera always comes from the character cache: in the result, a
/// camera CVar never comes from the global settings, and every non-camera
/// CVar does.
pub proof fn law_camera_cvars_are_character_owned(s: Seq<(Seq<char>, Seq<char>)>)
    ensures
        forall|i: int|
            0 <= i < keep_cvars(s, false).len() ==> !spec_is_saved_camera_cvar(
                (#[trigger] keep_cvars(s, false)[i]).0,
            ),
        forall|i: int|
            0 <= i < keep_cvars(s, true).len() ==> spec_is_saved_camera_cvar(
                (#[trigger] keep_cvars(s, true)[i]).0,
            ),
    decreases s.len(),
{
    if s.len() > 0 {
        law_camera_cvars_are_character_owned(s.drop_last());
        let f = keep_cvars(s, false);
        let rf = keep_cvars(s.drop_last(), false);
        assert forall|i: int| 0 <= i < f.len() implies !spec_is_saved_camera_cvar((#[trigger] f[i]).0) by {
            if i < rf.len() {
                assert(f[i] == rf[i]);
            }
        }
        let t = keep_cvars(s, true);
        let rt = keep_cvars(s.drop_last(), true);
        assert forall|i: int| 0 <= i < t.len() implies spec_is_saved_camera_cvar((#[trigger] t[i]).0) by {
            if i < rt.len() {
                assert(t[i] == rt[i]);
            }
        }
    }
}

} // verus!
