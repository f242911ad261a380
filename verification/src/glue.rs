//! Glue screen bookkeeping: stock routes, presentation admission of process
//! actions, and the decisions of the offline Glue benchmark replay.

use vstd::prelude::*;

use crate::text::{eq_ignore_ascii_case, str_eq_ignore_ascii_case, str_equal};

verus! {

/// A stock Glue route used by an explicitly requested offline diagnostic replay.
#[derive(Clone, Copy, Debug, PartialEq, Eq)]
pub enum GlueBenchmarkScreen {
    /// AccountLogin, with intro/legal dialogs disabled in the caller's profile.
    Login,
    /// A directory supplied by the diagnostic caller rather than a server.
    CharacterSelection,
    /// The real DBC-backed character creation flow with Wrath entitlement.
    CharacterCreation,
}

impl GlueBenchmarkScreen {
    pub open spec fn spec_token(self) -> Seq<char> {
        match self {
            GlueBenchmarkScreen::Login => "login"@,
            GlueBenchmarkScreen::CharacterSelection => "charselect"@,
            GlueBenchmarkScreen::CharacterCreation => "charcreate"@,
        }
    }

    /// Returns the exact SET_GLUE_SCREEN token used by build-12340 GlueXML.
    pub fn token(self) -> (token: &'static str)
        ensures
            token@ == self.spec_token(),
    {
        match self {
            GlueBenchmarkScreen::Login => "login",
            GlueBenchmarkScreen::CharacterSelection => "charselect",
            GlueBenchmarkScreen::CharacterCreation => "charcreate",
        }
    }
}

/// Raw frame intervals for one action, including work after scene publication
/// (durations in nanoseconds).
#[derive(Clone, Debug)]
pub struct GlueBenchmarkResult {
    /// Identity copied from the requested step.
    pub name: String,
    /// Time spent delivering the action, before the first frame service.
    pub action_duration: u128,
    /// Action start to a complete requested scene with its current audio admitted.
    pub ready_duration: u128,
    /// Present intervals through the first complete scene; the first includes input.
    pub transition_frames: Vec<u128>,
    /// Following present intervals, retaining deferred GPU waits and UI fades.
    pub following_frames: Vec<u128>,
}

/// Where an offline replay stands.
#[derive(Clone, Copy, Debug, PartialEq, Eq, Structural)]
pub enum GlueReplayPhase {
    /// The next step waits to start.
    Pending,
    /// The step's action is being delivered.
    Action,
    /// Frames are presented until the requested scene is ready.
    Transition,
    /// The following frames are measured.
    Following,
    /// Every step has its result.
    Complete,
}

pub open spec fn gap(now: u128, earlier: u128) -> u128 {
    if now >= earlier {
        (now - earlier) as u128
    } else {
        0
    }
}

fn elapsed_since(now: u128, earlier: u128) -> (d: u128)
    ensures
        d == gap(now, earlier),
{
    if now >= earlier {
        now - earlier
    } else {
        0
    }
}

/// The measurement of an offline replay over named steps (times in
/// nanoseconds on the caller's monotonic clock). Each step delivers its
/// action, presents frames until its scene is ready, then presents the
/// requested number of following frames; its result keeps every interval.
pub struct GlueBenchmarkReplay {
    names: Vec<String>,
    following_frame_count: usize,
    results: Vec<GlueBenchmarkResult>,
    phase: GlueReplayPhase,
    started: u128,
    action_duration: u128,
    ready_duration: u128,
    last_present: u128,
    transition_frames: Vec<u128>,
    following_frames: Vec<u128>,
}

/// One result per finished step, in order: the step's name, a non-empty
/// transition, and exactly `following` following frames.
pub open spec fn results_shaped(
    results: Seq<GlueBenchmarkResult>,
    names: Seq<Seq<char>>,
    following: usize,
) -> bool {
    &&& results.len() <= names.len()
    &&& forall|i: int|
        0 <= i < results.len() ==> {
            &&& (#[trigger] results[i]).name@ == names[i]
            &&& results[i].transition_frames@.len() > 0
            &&& results[i].following_frames@.len() == following
        }
}

impl GlueBenchmarkReplay {
    pub closed spec fn step_names(&self) -> Seq<Seq<char>> {
        self.names@.map_values(|n: String| n@)
    }

    pub closed spec fn following_frame_count(&self) -> usize {
        self.following_frame_count
    }

    pub closed spec fn results(&self) -> Seq<GlueBenchmarkResult> {
        self.results@
    }

    pub closed spec fn phase(&self) -> GlueReplayPhase {
        self.phase
    }

    /// Intervals presented so far for the step being measured.
    pub closed spec fn transition(&self) -> Seq<u128> {
        self.transition_frames@
    }

    pub closed spec fn following(&self) -> Seq<u128> {
        self.following_frames@
    }

    /// When the last frame of the step was presented (its start before any).
    pub closed spec fn last_presented(&self) -> u128 {
        self.last_present
    }

    /// When the step being measured started.
    pub closed spec fn started(&self) -> u128 {
        self.started
    }

    /// How long delivering the step's action took.
    pub closed spec fn action_duration(&self) -> u128 {
        self.action_duration
    }

    /// From the step's start to the frame that presented its ready scene.
    pub closed spec fn ready_duration(&self) -> u128 {
        self.ready_duration
    }

    pub closed spec fn wf(&self) -> bool {
        &&& self.following_frame_count > 0
        &&& results_shaped(self.results@, self.step_names(), self.following_frame_count)
        &&& (self.phase == GlueReplayPhase::Complete) == (self.results@.len()
            == self.names@.len())
        &&& (self.phase == GlueReplayPhase::Pending || self.phase == GlueReplayPhase::Action)
            ==> self.transition_frames@.len() == 0 && self.following_frames@.len() == 0
        &&& self.phase == GlueReplayPhase::Transition ==> self.following_frames@.len() == 0
        &&& self.phase == GlueReplayPhase::Following ==> self.transition_frames@.len() > 0
            && self.following_frames@.len() < self.following_frame_count
    }

    /// A replay of the named steps, each followed by `following_frame_count`
    /// measured frames.
    pub fn new(names: Vec<String>, following_frame_count: usize) -> (replay: Self)
        requires
            following_frame_count > 0,
        ensures
            replay.wf(),
            replay.step_names() == names@.map_values(|n: String| n@),
            replay.following_frame_count() == following_frame_count,
            replay.results().len() == 0,
            replay.phase() == if names@.len() == 0 {
                GlueReplayPhase::Complete
            } else {
                GlueReplayPhase::Pending
            },
    {
        let complete = names.len() == 0;
        GlueBenchmarkReplay {
            names,
            following_frame_count,
            results: Vec::new(),
            phase: if complete {
                GlueReplayPhase::Complete
            } else {
                GlueReplayPhase::Pending
            },
            started: 0,
            action_duration: 0,
            ready_duration: 0,
            last_present: 0,
            transition_frames: Vec::new(),
            following_frames: Vec::new(),
        }
    }

    pub fn phase_now(&self) -> (phase: GlueReplayPhase)
        ensures
            phase == self.phase(),
    {
        self.phase
    }

    /// The name of the step being measured, while one is.
    pub fn current_step(&self) -> (index: Option<usize>)
        requires
            self.wf(),
        ensures
            self.phase() == GlueReplayPhase::Complete ==> index is None,
            self.phase() != GlueReplayPhase::Complete ==> index == Some(
                self.results().len() as usize,
            ) && self.results().len() < self.step_names().len(),
    {
        if self.phase == GlueReplayPhase::Complete {
            None
        } else {
            Some(self.results.len())
        }
    }

    /// The next step starts at `now`, before its action is delivered.
    pub fn begin_step(&mut self, now: u128)
        requires
            old(self).wf(),
            old(self).phase() == GlueReplayPhase::Pending,
        ensures
            final(self).wf(),
            final(self).phase() == GlueReplayPhase::Action,
            final(self).started() == now,
            final(self).results() == old(self).results(),
            final(self).step_names() == old(self).step_names(),
            final(self).following_frame_count() == old(self).following_frame_count(),
    {
        self.started = now;
        self.phase = GlueReplayPhase::Action;
    }

    /// The action was delivered at `now`; frames are presented from here on,
    /// the first interval counted from the step's start.
    pub fn action_delivered(&mut self, now: u128)
        requires
            old(self).wf(),
            old(self).phase() == GlueReplayPhase::Action,
        ensures
            final(self).wf(),
            final(self).phase() == GlueReplayPhase::Transition,
            final(self).transition().len() == 0,
            final(self).started() == old(self).started(),
            final(self).last_presented() == old(self).started(),
            final(self).action_duration() == gap(now, old(self).started()),
            final(self).results() == old(self).results(),
            final(self).step_names() == old(self).step_names(),
            final(self).following_frame_count() == old(self).following_frame_count(),
    {
        self.action_duration = elapsed_since(now, self.started);
        self.last_present = self.started;
        self.phase = GlueReplayPhase::Transition;
    }

    /// A transition frame was presented at `now`; `ready` says the requested
    /// scene is complete and on screen, which ends the transition.
    pub fn transition_presented(&mut self, now: u128, ready: bool)
        requires
            old(self).wf(),
            old(self).phase() == GlueReplayPhase::Transition,
        ensures
            final(self).wf(),
            final(self).transition() == old(self).transition().push(
                gap(now, old(self).last_presented()),
            ),
            final(self).phase() == if ready {
                GlueReplayPhase::Following
            } else {
                GlueReplayPhase::Transition
            },
            final(self).last_presented() == now,
            final(self).started() == old(self).started(),
            final(self).action_duration() == old(self).action_duration(),
            final(self).ready_duration() == if ready {
                gap(now, old(self).started())
            } else {
                old(self).ready_duration()
            },
            final(self).results() == old(self).results(),
            final(self).step_names() == old(self).step_names(),
            final(self).following_frame_count() == old(self).following_frame_count(),
    {
        let interval = elapsed_since(now, self.last_present);
        self.transition_frames.push(interval);
        self.last_present = now;
        if ready {
            self.ready_duration = elapsed_since(now, self.started);
            self.phase = GlueReplayPhase::Following;
        }
    }

    /// A following frame was presented at `now`; the last one finishes the
    /// step and records its result.
    pub fn following_presented(&mut self, now: u128)
        requires
            old(self).wf(),
            old(self).phase() == GlueReplayPhase::Following,
        ensures
            final(self).wf(),
            final(self).step_names() == old(self).step_names(),
            final(self).following_frame_count() == old(self).following_frame_count(),
            old(self).following().len() + 1 < old(self).following_frame_count() ==> {
                &&& final(self).phase() == GlueReplayPhase::Following
                &&& final(self).last_presented() == now
                &&& final(self).started() == old(self).started()
                &&& final(self).action_duration() == old(self).action_duration()
                &&& final(self).ready_duration() == old(self).ready_duration()
                &&& final(self).results() == old(self).results()
                &&& final(self).following() == old(self).following().push(
                    gap(now, old(self).last_presented()),
                )
            },
            old(self).following().len() + 1 == old(self).following_frame_count() ==> {
                &&& final(self).results().len() == old(self).results().len() + 1
                &&& final(self).results().take(old(self).results().len() as int) == old(
                    self,
                ).results()
                &&& final(self).results().last().name@ == old(self).step_names()[old(
                    self,
                ).results().len() as int]
                &&& final(self).results().last().action_duration == old(self).action_duration()
                &&& final(self).results().last().ready_duration == old(self).ready_duration()
                &&& final(self).results().last().transition_frames@ == old(self).transition()
                &&& final(self).results().last().following_frames@ == old(self).following().push(
                    gap(now, old(self).last_presented()),
                )
                &&& final(self).phase() == if final(self).results().len()
                    == final(self).step_names().len() {
                    GlueReplayPhase::Complete
                } else {
                    GlueReplayPhase::Pending
                }
            },
    {
        let interval = elapsed_since(now, self.last_present);
        self.following_frames.push(interval);
        self.last_present = now;
        if self.following_frames.len() < self.following_frame_count {
            return;
        }
        let index = self.results.len();
        let name = self.names[index].clone();
        let mut transition_frames: Vec<u128> = Vec::new();
        let mut following_frames: Vec<u128> = Vec::new();
        std::mem::swap(&mut transition_frames, &mut self.transition_frames);
        std::mem::swap(&mut following_frames, &mut self.following_frames);
        let ghost before = self.results@;
        self.results.push(
            GlueBenchmarkResult {
                name,
                action_duration: self.action_duration,
                ready_duration: self.ready_duration,
                transition_frames,
                following_frames,
            },
        );
        assert(self.results@.take(before.len() as int) =~= before);
        assert(self.step_names()[index as int] == self.names@[index as int]@);
        self.phase = if self.results.len() == self.names.len() {
            GlueReplayPhase::Complete
        } else {
            GlueReplayPhase::Pending
        };
    }

    /// The results of a complete replay: one per step, in order, named after
    /// it, each with a non-empty transition and the requested number of
    /// following frames.
    pub fn into_results(self) -> (results: Vec<GlueBenchmarkResult>)
        requires
            self.wf(),
            self.phase() == GlueReplayPhase::Complete,
        ensures
            results@ == self.results(),
            results@.len() == self.step_names().len(),
            forall|i: int|
                0 <= i < results@.len() ==> {
                    &&& (#[trigger] results@[i]).name@ == self.step_names()[i]
                    &&& results@[i].transition_frames@.len() > 0
                    &&& results@[i].following_frames@.len() == self.following_frame_count()
                },
    {
        self.results
    }
}

/// Returns whether the active Glue screen has reached the swapchain at least
/// once since it was selected. Case folding follows Glue's screen dispatch.
pub fn glue_screen_is_presented(current_screen: &str, presented_screen: Option<&str>) -> (presented:
    bool)
    ensures
        presented == match presented_screen {
            Some(p) => eq_ignore_ascii_case(p@, current_screen@),
            None => false,
        },
{
    match presented_screen {
        Some(p) => str_eq_ignore_ascii_case(p, current_screen),
        None => false,
    }
}

/// A replay starts only from a fresh login scene without movie or world.
pub fn glue_benchmark_can_start(world_active: bool, current_screen: &str, movie_active: bool) -> (can:
    bool)
    ensures
        can == (!world_active && current_screen@ == "login"@ && !movie_active),
{
    !world_active && str_equal(current_screen, "login") && !movie_active
}

/// The outcome of one measured frame of a benchmark step.
#[derive(Clone, Copy, Debug, PartialEq, Eq)]
pub enum GlueStepProgress {
    /// The production owner contained a character error.
    CharacterFailed,
    /// The requested scene is complete and on screen.
    Ready,
    /// The step did not become ready within its deadline.
    TimedOut,
    /// Present another frame.
    Continue,
}

/// What a benchmark step does after one presented frame: a character failure
/// ends it first; readiness needs the complete model scene, admitted media, and
/// the expected screen both selected and presented; otherwise the deadline is
/// checked.
pub fn glue_step_progress(
    character_failed: bool,
    model_ready: bool,
    media_ready: bool,
    current_screen: &str,
    presented_screen: Option<&str>,
    expected: GlueBenchmarkScreen,
    elapsed: u128,
    timeout: u128,
) -> (progress: GlueStepProgress)
    ensures
        progress == if character_failed {
            GlueStepProgress::CharacterFailed
        } else if model_ready && media_ready && current_screen@ == expected.spec_token() && match presented_screen {
            Some(p) => p@ == expected.spec_token(),
            None => false,
        } {
            GlueStepProgress::Ready
        } else if elapsed >= timeout {
            GlueStepProgress::TimedOut
        } else {
            GlueStepProgress::Continue
        },
{
    if character_failed {
        return GlueStepProgress::CharacterFailed;
    }
    let token = expected.token();
    let presented = match presented_screen {
        Some(p) => str_equal(p, token),
        None => false,
    };
    if model_ready && media_ready && str_equal(current_screen, token) && presented {
        GlueStepProgress::Ready
    } else if elapsed >= timeout {
        GlueStepProgress::TimedOut
    } else {
        GlueStepProgress::Continue
    }
}

/// Build 12340 shares Dwarf/Gnome and Orc/Troll Glue backdrops. There are no
/// UI_Gnome.m2 or UI_Troll.m2 assets in the stock archive set.
pub fn stock_character_backdrops() -> (paths: [&'static str; 8])
    ensures
        paths[0]@ == "Interface\\Glues\\Models\\UI_Human\\UI_Human.m2"@,
        paths[1]@ == "Interface\\Glues\\Models\\UI_Orc\\UI_Orc.m2"@,
        paths[2]@ == "Interface\\Glues\\Models\\UI_Dwarf\\UI_Dwarf.m2"@,
        paths[3]@ == "Interface\\Glues\\Models\\UI_NightElf\\UI_NightElf.m2"@,
        paths[4]@ == "Interface\\Glues\\Models\\UI_Scourge\\UI_Scourge.m2"@,
        paths[5]@ == "Interface\\Glues\\Models\\UI_Tauren\\UI_Tauren.m2"@,
        paths[6]@ == "Interface\\Glues\\Models\\UI_BloodElf\\UI_BloodElf.m2"@,
        paths[7]@ == "Interface\\Glues\\Models\\UI_Draenei\\UI_Draenei.m2"@,
{
    [
        "Interface\\Glues\\Models\\UI_Human\\UI_Human.m2",
        "Interface\\Glues\\Models\\UI_Orc\\UI_Orc.m2",
        "Interface\\Glues\\Models\\UI_Dwarf\\UI_Dwarf.m2",
        "Interface\\Glues\\Models\\UI_NightElf\\UI_NightElf.m2",
        "Interface\\Glues\\Models\\UI_Scourge\\UI_Scourge.m2",
        "Interface\\Glues\\Models\\UI_Tauren\\UI_Tauren.m2",
        "Interface\\Glues\\Models\\UI_BloodElf\\UI_BloodElf.m2",
        "Interface\\Glues\\Models\\UI_Draenei\\UI_Draenei.m2",
    ]
}

/// SDL's admitted desktop mouse buttons.
#[derive(Clone, Copy, Debug, PartialEq, Eq)]
pub enum MouseButton {
    Left,
    Middle,
    Right,
    AuxiliaryOne,
    AuxiliaryTwo,
    Unknown,
}

/// Glue script pointer button names.
#[derive(Clone, Copy, Debug, PartialEq, Eq)]
pub enum UiPointerButton {
    Left,
    Middle,
    Right,
    Button4,
    Button5,
}

/// Maps SDL's admitted desktop button vocabulary onto Glue script names.
pub fn glue_pointer_button(button: MouseButton) -> (ui: Option<UiPointerButton>)
    ensures
        ui == match button {
            MouseButton::Left => Some(UiPointerButton::Left),
            MouseButton::Middle => Some(UiPointerButton::Middle),
            MouseButton::Right => Some(UiPointerButton::Right),
            MouseButton::AuxiliaryOne => Some(UiPointerButton::Button4),
            MouseButton::AuxiliaryTwo => Some(UiPointerButton::Button5),
            MouseButton::Unknown => None,
        },
{
    match button {
        MouseButton::Left => Some(UiPointerButton::Left),
        MouseButton::Middle => Some(UiPointerButton::Middle),
        MouseButton::Right => Some(UiPointerButton::Right),
        MouseButton::AuxiliaryOne => Some(UiPointerButton::Button4),
        MouseButton::AuxiliaryTwo => Some(UiPointerButton::Button5),
        MouseButton::Unknown => None,
    }
}

/// A ready step has its expected screen presented, under Glue's case folding
/// too: process actions are admitted for it.
pub proof fn law_ready_step_screen_is_presented(current: Seq<char>, presented: Seq<char>)
    requires
        current == presented,
    ensures
        eq_ignore_ascii_case(presented, current),
{
}

} // verus!
