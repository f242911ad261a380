use solarity_runtime::glue_frames::{
    character_preview, CandidateStep, CharacterPreview, GlueFrameError, GlueUiFrames,
};

#[test]
fn first_screen_prepares_a_candidate_and_adopts_it_when_ready() {
    let mut frames: GlueUiFrames<&str> = GlueUiFrames::new();
    assert!(frames.screen_transition("login"));
    assert_eq!(frames.frame(), Err(GlueFrameError::NothingToPresent));
    assert_eq!(frames.candidate_step("login", false), CandidateStep::Prepare);
    frames.set_candidate("login".to_owned(), "login frame");
    assert_eq!(frames.candidate_step("login", false), CandidateStep::Keep);
    assert_eq!(frames.candidate_step("LOGIN", true), CandidateStep::Refresh);
    assert!(!frames.needs_current(true));
    assert_eq!(frames.frame(), Ok(&"login frame"));
    assert_eq!(frames.adopt_ready("login"), Ok(()));
    frames.mark_presented("login".to_owned());
    assert!(!frames.screen_transition("Login"));
    assert_eq!(frames.presented_screen(), Some("login"));
    assert_eq!(frames.frame(), Ok(&"login frame"));
    assert_eq!(frames.candidate_step("login", true), CandidateStep::Keep);
}

#[test]
fn swap_retires_the_presented_frame_as_the_next_candidate() {
    let mut frames: GlueUiFrames<u32> = GlueUiFrames::new();
    frames.set_current(1);
    frames.mark_presented("login".to_owned());
    assert!(frames.screen_transition("charselect"));
    assert_eq!(frames.candidate_step("charselect", false), CandidateStep::Prepare);
    frames.set_candidate("charselect".to_owned(), 2);
    assert_eq!(frames.frame(), Ok(&1));
    assert_eq!(frames.adopt_ready("charselect"), Ok(()));
    assert_eq!(frames.frame(), Ok(&2));
    frames.mark_presented("charselect".to_owned());
    assert!(frames.screen_transition("charcreate"));
    assert_eq!(frames.candidate_step("charcreate", false), CandidateStep::Refresh);
    if let Some(frame) = frames.candidate_frame() {
        *frame = 3;
    }
    frames.retarget_candidate("charcreate");
    assert_eq!(frames.candidate_step("charcreate", false), CandidateStep::Keep);
    assert_eq!(frames.adopt_ready("charcreate"), Ok(()));
    assert_eq!(frames.frame(), Ok(&3));
}

#[test]
fn adoption_needs_a_matching_candidate() {
    let mut frames: GlueUiFrames<u32> = GlueUiFrames::new();
    assert_eq!(frames.adopt_ready("login"), Err(GlueFrameError::MissingCandidate));
    frames.set_candidate("charselect".to_owned(), 5);
    assert_eq!(frames.adopt_ready("login"), Err(GlueFrameError::CandidateMismatch));
    assert_eq!(frames.frame(), Err(GlueFrameError::NothingToPresent));
    frames.set_current(4);
    assert!(!frames.needs_current(false));
    frames.drop_current();
    assert!(frames.needs_current(false));
}

#[test]
fn screens_select_their_character_preview() {
    assert_eq!(character_preview("charcreate"), CharacterPreview::Creation);
    assert_eq!(character_preview("charselect"), CharacterPreview::Selection);
    assert_eq!(character_preview("login"), CharacterPreview::Cleared);
    assert_eq!(character_preview("CharSelect"), CharacterPreview::Cleared);
}
