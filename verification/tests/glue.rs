use solarity_runtime::glue::{
    glue_benchmark_can_start, glue_pointer_button, glue_screen_is_presented, glue_step_progress,
    stock_character_backdrops, GlueBenchmarkReplay, GlueBenchmarkScreen, GlueReplayPhase,
    GlueStepProgress, MouseButton, UiPointerButton,
};

#[test]
fn stock_backdrop_prewarm_uses_only_distinct_archive_models() {
    let backdrops = stock_character_backdrops();
    assert_eq!(backdrops.len(), 8);
    assert!(backdrops
        .iter()
        .all(|path| !path.contains("UI_Gnome") && !path.contains("UI_Troll")));
}

#[test]
fn process_action_requires_the_selected_glue_screen_to_have_been_presented() {
    assert!(!glue_screen_is_presented("login", None));
    assert!(!glue_screen_is_presented("login", Some("charselect")));
    assert!(glue_screen_is_presented("login", Some("LOGIN")));
}

#[test]
fn benchmark_tokens_match_glue_xml() {
    assert_eq!(GlueBenchmarkScreen::Login.token(), "login");
    assert_eq!(GlueBenchmarkScreen::CharacterSelection.token(), "charselect");
    assert_eq!(GlueBenchmarkScreen::CharacterCreation.token(), "charcreate");
}

#[test]
fn benchmark_needs_a_fresh_login_scene() {
    assert!(glue_benchmark_can_start(false, "login", false));
    assert!(!glue_benchmark_can_start(true, "login", false));
    assert!(!glue_benchmark_can_start(false, "charselect", false));
    assert!(!glue_benchmark_can_start(false, "login", true));
}

#[test]
fn benchmark_step_progress_orders_failure_readiness_and_timeout() {
    let screen = GlueBenchmarkScreen::CharacterSelection;
    assert_eq!(
        glue_step_progress(true, true, true, "charselect", Some("charselect"), screen, 0, 10),
        GlueStepProgress::CharacterFailed
    );
    assert_eq!(
        glue_step_progress(false, true, true, "charselect", Some("charselect"), screen, 50, 10),
        GlueStepProgress::Ready
    );
    // Readiness uses exact tokens: a presented "CHARSELECT" is not the request.
    assert_eq!(
        glue_step_progress(false, true, true, "charselect", Some("CHARSELECT"), screen, 5, 10),
        GlueStepProgress::Continue
    );
    assert_eq!(
        glue_step_progress(false, true, false, "charselect", Some("charselect"), screen, 10, 10),
        GlueStepProgress::TimedOut
    );
    assert_eq!(
        glue_step_progress(false, false, true, "login", None, screen, 9, 10),
        GlueStepProgress::Continue
    );
}

#[test]
fn pointer_buttons_map_to_glue_names() {
    assert_eq!(glue_pointer_button(MouseButton::Left), Some(UiPointerButton::Left));
    assert_eq!(glue_pointer_button(MouseButton::AuxiliaryOne), Some(UiPointerButton::Button4));
    assert_eq!(glue_pointer_button(MouseButton::AuxiliaryTwo), Some(UiPointerButton::Button5));
    assert_eq!(glue_pointer_button(MouseButton::Unknown), None);
}

#[test]
fn replay_keeps_one_named_result_per_step_with_every_interval() {
    let mut replay = GlueBenchmarkReplay::new(vec!["login".to_owned(), "select".to_owned()], 2);
    assert_eq!(replay.phase_now(), GlueReplayPhase::Pending);
    assert_eq!(replay.current_step(), Some(0));
    replay.begin_step(100);
    replay.action_delivered(130);
    replay.transition_presented(150, false);
    replay.transition_presented(190, true);
    assert_eq!(replay.phase_now(), GlueReplayPhase::Following);
    replay.following_presented(200);
    replay.following_presented(216);
    assert_eq!(replay.phase_now(), GlueReplayPhase::Pending);
    assert_eq!(replay.current_step(), Some(1));
    replay.begin_step(300);
    replay.action_delivered(305);
    replay.transition_presented(320, true);
    replay.following_presented(330);
    replay.following_presented(345);
    assert_eq!(replay.phase_now(), GlueReplayPhase::Complete);
    assert_eq!(replay.current_step(), None);
    let results = replay.into_results();
    assert_eq!(results.len(), 2);
    assert_eq!(results[0].name, "login");
    assert_eq!(results[0].action_duration, 30);
    assert_eq!(results[0].ready_duration, 90);
    assert_eq!(results[0].transition_frames, vec![50, 40]);
    assert_eq!(results[0].following_frames, vec![10, 16]);
    assert_eq!(results[1].name, "select");
    assert_eq!(results[1].transition_frames, vec![20]);
    assert_eq!(results[1].following_frames, vec![10, 15]);
}

#[test]
fn replay_without_steps_is_complete_at_once() {
    let replay = GlueBenchmarkReplay::new(Vec::new(), 1);
    assert_eq!(replay.phase_now(), GlueReplayPhase::Complete);
    assert!(replay.into_results().is_empty());
}
