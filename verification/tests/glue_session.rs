use solarity_runtime::glue_session::{
    CharacterScreenRequests, GlueSession, LoginBegin, LoginBeginReaction, LoginPoll,
    LoginPollReaction, RequestSend, WorldPoll, WorldPollReaction,
};

fn refresh() -> CharacterScreenRequests {
    CharacterScreenRequests {
        ready_for_account_data_times: false,
        refresh_character_directory: true,
        request_realm_split_info: false,
    }
}

#[test]
fn login_start_opens_the_connecting_dialog_and_covers_authentication() {
    let mut session = GlueSession::new();
    assert_eq!(
        session.login_begin(LoginBegin::Started),
        LoginBeginReaction::OpenConnectingDialog
    );
    assert!(session.authentication_prewarm_active);
    assert!(!session.realm_directory_published);
    assert_eq!(
        session.login_begin(LoginBegin::AlreadyActive),
        LoginBeginReaction::Ignore
    );
    assert_eq!(
        session.login_begin(LoginBegin::Failed),
        LoginBeginReaction::ReportFailure
    );
    assert!(!session.authentication_prewarm_active);
}

#[test]
fn realm_directory_is_published_once_after_the_cover_lifts() {
    let mut session = GlueSession::new();
    session.login_begin(LoginBegin::Started);
    assert_eq!(
        session.login_poll(LoginPoll::Authenticated),
        LoginPollReaction::HoldStatusDialog
    );
    assert!(session.backdrop_prewarm_window(false));
    session.finish_actions(false, true, CharacterScreenRequests::none());
    assert!(!session.authentication_prewarm_active);
    assert!(!session.backdrop_prewarm_window(false));
    assert!(session.backdrop_prewarm_window(true));
    assert_eq!(
        session.login_poll(LoginPoll::Authenticated),
        LoginPollReaction::PublishPreferredRealmInfo
    );
    assert_eq!(
        session.login_poll(LoginPoll::Authenticated),
        LoginPollReaction::Nothing
    );
    session.cancel_login();
    assert_eq!(
        session.login_poll(LoginPoll::Authenticated),
        LoginPollReaction::PublishPreferredRealmInfo
    );
    assert_eq!(
        session.login_poll(LoginPoll::RealmDirectoryUpdated),
        LoginPollReaction::OpenRealmList
    );
    assert_eq!(
        session.login_poll(LoginPoll::Failed),
        LoginPollReaction::ReportFailure
    );
    assert!(!session.realm_directory_published);
}

#[test]
fn a_login_started_this_frame_keeps_the_cover() {
    let mut session = GlueSession::new();
    session.login_begin(LoginBegin::Started);
    session.finish_actions(true, true, CharacterScreenRequests::none());
    assert!(session.authentication_prewarm_active);
    session.finish_actions(false, false, CharacterScreenRequests::none());
    assert!(session.authentication_prewarm_active);
}

#[test]
fn character_screen_and_directory_publish_once_per_world_session() {
    let mut session = GlueSession::new();
    session.change_realm(3);
    assert_eq!(session.pending_world_realm(), Some(3));
    session.world_begun();
    assert_eq!(session.pending_realm_id, None);
    assert_eq!(
        session.world_poll(WorldPoll::CharacterScreenReady),
        WorldPollReaction::ShowCharacterSelect
    );
    assert_eq!(
        session.world_poll(WorldPoll::CharacterScreenReady),
        WorldPollReaction::Nothing
    );
    assert_eq!(
        session.world_poll(WorldPoll::CharacterDirectoryReady),
        WorldPollReaction::PublishCharacterDirectory
    );
    assert_eq!(
        session.world_poll(WorldPoll::CharacterDirectoryReady),
        WorldPollReaction::Nothing
    );
    assert_eq!(
        session.world_poll(WorldPoll::Failed),
        WorldPollReaction::ReportFailure
    );
    assert!(!session.character_screen_published);
    assert!(!session.character_directory_published);
}

#[test]
fn character_changes_republish_the_directory() {
    let mut session = GlueSession::new();
    session.world_poll(WorldPoll::CharacterDirectoryReady);
    assert_eq!(
        session.world_poll(WorldPoll::CharacterDeletionFinished { success: false }),
        WorldPollReaction::ShowResultMessage
    );
    assert!(session.character_directory_published);
    assert_eq!(
        session.world_poll(WorldPoll::CharacterDeletionFinished { success: true }),
        WorldPollReaction::CharacterDeleted
    );
    assert!(!session.character_directory_published);
    assert_eq!(session.requests_to_send(), Some(refresh()));
    assert!(!session.requests_sent(refresh(), RequestSend::Deferred));
    assert_eq!(session.requests_to_send(), Some(refresh()));
    assert!(!session.requests_sent(refresh(), RequestSend::Sent));
    assert_eq!(session.requests_to_send(), None);
    assert_eq!(
        session.world_poll(WorldPoll::CharacterCreationFinished { success: true }),
        WorldPollReaction::CharacterCreated
    );
    assert_eq!(
        session.world_poll(WorldPoll::CharacterRenameFinished { success: true }),
        WorldPollReaction::CharacterRenamed
    );
    assert_eq!(session.requests_to_send(), Some(refresh()));
}

#[test]
fn requests_merge_and_failure_is_reported() {
    let mut session = GlueSession::new();
    let ready = CharacterScreenRequests {
        ready_for_account_data_times: true,
        refresh_character_directory: false,
        request_realm_split_info: false,
    };
    session.finish_actions(false, false, ready);
    session.finish_actions(false, false, refresh());
    let merged = session.requests_to_send().unwrap();
    assert!(merged.ready_for_account_data_times && merged.refresh_character_directory);
    assert!(!merged.request_realm_split_info);
    assert!(ready.merged(&refresh()) == merged);
    assert!(CharacterScreenRequests::none().is_empty());
    assert!(session.requests_sent(merged, RequestSend::Failed));
}

#[test]
fn rejection_and_disconnect() {
    let mut session = GlueSession::new();
    assert_eq!(
        session.world_poll(WorldPoll::CharacterRejected { directory: true }),
        WorldPollReaction::ReturnToCharacterSelect
    );
    assert!(session.character_directory_published);
    assert_eq!(
        session.world_poll(WorldPoll::EnteredWorld),
        WorldPollReaction::BeginGameplay
    );
    session.change_realm(300);
    assert_eq!(session.pending_world_realm(), None);
    assert!(session.realm_list_cancelled(true));
    assert!(!session.realm_list_cancelled(false));
    session.disconnect();
    assert_eq!(session, GlueSession::new());
}

#[test]
fn logout_republishes_the_character_screen_but_keeps_the_realm() {
    let mut session = GlueSession::new();
    session.login_begin(LoginBegin::Started);
    session.finish_actions(false, true, refresh());
    session.login_poll(LoginPoll::Authenticated);
    session.world_poll(WorldPoll::CharacterScreenReady);
    session.world_poll(WorldPoll::CharacterDirectoryReady);
    session.logged_out();
    assert!(session.realm_directory_published);
    assert!(!session.character_screen_published);
    assert!(!session.character_directory_published);
    assert_eq!(session.requests_to_send(), None);
    assert_eq!(
        session.world_poll(WorldPoll::CharacterScreenReady),
        WorldPollReaction::ShowCharacterSelect
    );
}

#[test]
fn dialog_cancellation_of_the_login_unpublishes_the_realm_directory() {
    let mut session = GlueSession::new();
    session.login_poll(LoginPoll::Authenticated);
    assert!(session.realm_directory_published);
    session.login_cancelled_from_dialog();
    assert!(!session.realm_directory_published);
    assert_eq!(
        session.login_poll(LoginPoll::Authenticated),
        LoginPollReaction::PublishPreferredRealmInfo
    );
}
