//! Double-buffered Glue screen frames: the presented frame stays on screen
//! while the frame of a newly selected screen is prepared behind it, and the
//! two are swapped only once the selected scene is ready.
//!
//! `F` is the renderer-resident UI frame; the caller prepares and refreshes
//! it as each step asks.

use vstd::prelude::*;

use crate::glue::glue_screen_is_presented;
use crate::text::{eq_ignore_ascii_case, str_eq_ignore_ascii_case};

verus! {

/// A frame swap found its candidate missing or prepared for another screen.
#[derive(Clone, Copy, Debug, PartialEq, Eq, Structural)]
pub enum GlueFrameError {
    /// The scene became ready without a prepared candidate.
    MissingCandidate,
    /// The candidate does not belong to the ready scene.
    CandidateMismatch,
    /// Neither a presented frame nor a candidate exists.
    NothingToPresent,
}

/// What the candidate frame needs before this frame's scene is synchronized.
#[derive(Clone, Copy, Debug, PartialEq, Eq, Structural)]
pub enum CandidateStep {
    /// No screen transition, or the candidate is current: nothing to do.
    Keep,
    /// Prepare a candidate for the selected screen.
    Prepare,
    /// Refresh the candidate for the selected screen and retarget it.
    Refresh,
}

/// The character preview the selected screen synchronizes.
#[derive(Clone, Copy, Debug, PartialEq, Eq, Structural)]
pub enum CharacterPreview {
    Creation,
    Selection,
    /// Any other screen clears the creation preview.
    Cleared,
}

pub fn character_preview(screen: &str) -> (preview: CharacterPreview)
    ensures
        preview == if screen@ == "charcreate"@ {
            CharacterPreview::Creation
        } else if screen@ == "charselect"@ {
            CharacterPreview::Selection
        } else {
            CharacterPreview::Cleared
        },
{
    if crate::text::str_equal(screen, "charcreate") {
        CharacterPreview::Creation
    } else if crate::text::str_equal(screen, "charselect") {
        CharacterPreview::Selection
    } else {
        CharacterPreview::Cleared
    }
}

/// The presented frame, the candidate with the screen it was prepared for,
/// and the screen last presented.
pub struct GlueUiFrames<F> {
    current: Option<F>,
    candidate: Option<(String, F)>,
    presented: Option<String>,
}

pub open spec fn candidate_view<F>(candidate: Option<(String, F)>) -> Option<(Seq<char>, F)> {
    match candidate {
        Some((s, f)) => Some((s@, f)),
        None => None,
    }
}

pub open spec fn screen_view(screen: Option<String>) -> Option<Seq<char>> {
    match screen {
        Some(s) => Some(s@),
        None => None,
    }
}

/// Whether the selected screen has been presented already (compared without
/// regard to ASCII case).
pub open spec fn spec_presented(current: Seq<char>, presented: Option<Seq<char>>) -> bool {
    match presented {
        Some(p) => eq_ignore_ascii_case(current, p),
        None => false,
    }
}

impl<F> GlueUiFrames<F> {
    pub closed spec fn current(&self) -> Option<F> {
        self.current
    }

    pub closed spec fn candidate(&self) -> Option<(Seq<char>, F)> {
        candidate_view(self.candidate)
    }

    pub closed spec fn presented(&self) -> Option<Seq<char>> {
        screen_view(self.presented)
    }

    pub fn new() -> (frames: Self)
        ensures
            frames.current() is None,
            frames.candidate() is None,
            frames.presented() is None,
    {
        GlueUiFrames { current: None, candidate: None, presented: None }
    }

    /// The selected screen is not the one on screen.
    pub fn screen_transition(&self, current_screen: &str) -> (transition: bool)
        ensures
            transition == !spec_presented(current_screen@, self.presented()),
    {
        let presented = match &self.presented {
            Some(p) => Some(p.as_str()),
            None => None,
        };
        !glue_screen_is_presented(current_screen, presented)
    }

    /// During a transition the candidate is prepared once, and refreshed when
    /// the selection moved to another screen or the Glue tree changed.
    pub fn candidate_step(&self, current_screen: &str, dirty: bool) -> (step: CandidateStep)
        ensures
            step == if spec_presented(current_screen@, self.presented()) {
                CandidateStep::Keep
            } else {
                match self.candidate() {
                    None => CandidateStep::Prepare,
                    Some((screen, _)) => if !eq_ignore_ascii_case(screen, current_screen@)
                        || dirty {
                        CandidateStep::Refresh
                    } else {
                        CandidateStep::Keep
                    },
                }
            },
    {
        if !self.screen_transition(current_screen) {
            return CandidateStep::Keep;
        }
        match &self.candidate {
            None => CandidateStep::Prepare,
            Some((screen, _)) => {
                if !str_eq_ignore_ascii_case(screen.as_str(), current_screen) || dirty {
                    CandidateStep::Refresh
                } else {
                    CandidateStep::Keep
                }
            },
        }
    }

    /// Installs a freshly prepared candidate for `screen`.
    pub fn set_candidate(&mut self, screen: String, frame: F)
        ensures
            final(self).candidate() == Some((screen@, frame)),
            final(self).current() == old(self).current(),
            final(self).presented() == old(self).presented(),
    {
        self.candidate = Some((screen, frame));
    }

    /// The refreshed candidate now belongs to `screen`.
    pub fn retarget_candidate(&mut self, screen: &str)
        ensures
            final(self).candidate() == match old(self).candidate() {
                Some((_, f)) => Some((screen@, f)),
                None => None,
            },
            final(self).current() == old(self).current(),
            final(self).presented() == old(self).presented(),
    {
        let candidate = self.candidate.take();
        self.candidate = match candidate {
            Some((_, frame)) => Some((screen.to_owned(), frame)),
            None => None,
        };
    }

    /// The candidate frame, for the caller to refresh.
    pub fn candidate_frame(&mut self) -> (frame: Option<&mut F>)
        ensures
            final(self).current() == old(self).current(),
            final(self).presented() == old(self).presented(),
            match old(self).candidate() {
                Some((s, f)) => frame matches Some(r) && *r == f && final(self).candidate()
                    == Some((s, *final(r))),
                None => frame is None && final(self).candidate() is None,
            },
    {
        match &mut self.candidate {
            Some((_, frame)) => Some(frame),
            None => None,
        }
    }

    /// Outside a transition a missing presented frame is prepared directly.
    pub fn needs_current(&self, transition: bool) -> (needs: bool)
        ensures
            needs == (self.current() is None && !transition),
    {
        self.current.is_none() && !transition
    }

    pub fn set_current(&mut self, frame: F)
        ensures
            final(self).current() == Some(frame),
            final(self).candidate() == old(self).candidate(),
            final(self).presented() == old(self).presented(),
    {
        self.current = Some(frame);
    }

    /// The scene of `current_screen` became ready during a transition: the
    /// candidate goes on screen and the retired frame becomes the candidate,
    /// tagged with the screen it presented. The candidate is consumed even
    /// when it is missing or belongs to another screen.
    pub fn adopt_ready(&mut self, current_screen: &str) -> (result: Result<(), GlueFrameError>)
        ensures
            final(self).presented() == old(self).presented(),
            match old(self).candidate() {
                None => result == Err::<(), GlueFrameError>(GlueFrameError::MissingCandidate)
                    && final(self).candidate() is None && final(self).current() == old(
                    self,
                ).current(),
                Some((s, f)) => if !eq_ignore_ascii_case(s, current_screen@) {
                    result == Err::<(), GlueFrameError>(GlueFrameError::CandidateMismatch)
                        && final(self).candidate() is None && final(self).current() == old(
                        self,
                    ).current()
                } else {
                    &&& result == Ok::<(), GlueFrameError>(())
                    &&& final(self).current() == Some(f)
                    &&& final(self).candidate() == match old(self).current() {
                        Some(retired) => Some(
                            (
                                match old(self).presented() {
                                    Some(p) => p,
                                    None => Seq::<char>::empty(),
                                },
                                retired,
                            ),
                        ),
                        None => None,
                    }
                },
            },
    {
        let (screen, frame) = match self.candidate.take() {
            Some(c) => c,
            None => {
                return Err(GlueFrameError::MissingCandidate);
            },
        };
        if !str_eq_ignore_ascii_case(screen.as_str(), current_screen) {
            return Err(GlueFrameError::CandidateMismatch);
        }
        let retired = self.current.take();
        self.current = Some(frame);
        self.candidate = match retired {
            Some(old_frame) => {
                let tag = match &self.presented {
                    Some(p) => p.clone(),
                    None => String::new(),
                };
                Some((tag, old_frame))
            },
            None => None,
        };
        Ok(())
    }

    /// The frame to present: the presented frame, else the candidate.
    pub fn frame(&self) -> (frame: Result<&F, GlueFrameError>)
        ensures
            match frame {
                Ok(f) => match self.current() {
                    Some(c) => *f == c,
                    None => self.candidate() matches Some((_, c)) && *f == c,
                },
                Err(e) => e == GlueFrameError::NothingToPresent && self.current() is None
                    && self.candidate() is None,
            },
    {
        match &self.current {
            Some(f) => Ok(f),
            None => match &self.candidate {
                Some((_, f)) => Ok(f),
                None => Err(GlueFrameError::NothingToPresent),
            },
        }
    }

    /// A ready scene marks its screen presented.
    pub fn mark_presented(&mut self, screen: String)
        ensures
            final(self).presented() == Some(screen@),
            final(self).current() == old(self).current(),
            final(self).candidate() == old(self).candidate(),
    {
        self.presented = Some(screen);
    }

    /// Drops the presented frame (after a finished movie).
    pub fn drop_current(&mut self)
        ensures
            final(self).current() is None,
            final(self).candidate() == old(self).candidate(),
            final(self).presented() == old(self).presented(),
    {
        self.current = None;
    }

    pub fn presented_screen(&self) -> (screen: Option<&str>)
        ensures
            match screen {
                Some(s) => self.presented() == Some(s@),
                None => self.presented() is None,
            },
    {
        match &self.presented {
            Some(p) => Some(p.as_str()),
            None => None,
        }
    }
}

} // verus!
