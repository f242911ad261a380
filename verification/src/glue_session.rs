//! What the Glue screens publish while an account logs in, picks a realm
//! and manages characters: which status dialogs, directory events and screen
//! changes follow a login or world-session outcome, and the publication
//! flags that keep each of them from repeating.
//!
//! The caller drives the login and world sessions and performs each reaction.

use vstd::prelude::*;

verus! {

/// Character-screen data requested by Glue, sent together once the world
/// session can take them.
#[derive(Clone, Copy, Debug, PartialEq, Eq, Structural)]
pub struct CharacterScreenRequests {
    pub ready_for_account_data_times: bool,
    pub refresh_character_directory: bool,
    pub request_realm_split_info: bool,
}

impl CharacterScreenRequests {
    pub open spec fn spec_none() -> Self {
        CharacterScreenRequests {
            ready_for_account_data_times: false,
            refresh_character_directory: false,
            request_realm_split_info: false,
        }
    }

    pub open spec fn spec_merged(self, other: Self) -> Self {
        CharacterScreenRequests {
            ready_for_account_data_times: self.ready_for_account_data_times
                || other.ready_for_account_data_times,
            refresh_character_directory: self.refresh_character_directory
                || other.refresh_character_directory,
            request_realm_split_info: self.request_realm_split_info
                || other.request_realm_split_info,
        }
    }

    pub fn none() -> (requests: Self)
        ensures
            requests == Self::spec_none(),
    {
        CharacterScreenRequests {
            ready_for_account_data_times: false,
            refresh_character_directory: false,
            request_realm_split_info: false,
        }
    }

    pub fn is_empty(&self) -> (empty: bool)
        ensures
            empty == (*self == Self::spec_none()),
    {
        !self.ready_for_account_data_times && !self.refresh_character_directory
            && !self.request_realm_split_info
    }

    /// Every request of either set.
    pub fn merged(&self, other: &Self) -> (merged: Self)
        ensures
            merged == self.spec_merged(*other),
    {
        CharacterScreenRequests {
            ready_for_account_data_times: self.ready_for_account_data_times
                || other.ready_for_account_data_times,
            refresh_character_directory: self.refresh_character_directory
                || other.refresh_character_directory,
            request_realm_split_info: self.request_realm_split_info
                || other.request_realm_split_info,
        }
    }
}

/// Outcome of starting a login exchange.
#[derive(Clone, Copy, Debug, PartialEq, Eq, Structural)]
pub enum LoginBegin {
    Started,
    AlreadyActive,
    AlreadyAuthenticated,
    Failed,
}

/// What a login start asks of Glue.
#[derive(Clone, Copy, Debug, PartialEq, Eq, Structural)]
pub enum LoginBeginReaction {
    /// Open the cancellable "connecting" status dialog.
    OpenConnectingDialog,
    /// A login is already under way or done: nothing changes.
    Ignore,
    /// Clear the network status and show the failure in an OKAY dialog.
    ReportFailure,
}

/// One poll of the login (realmd) exchange.
#[derive(Clone, Copy, Debug, PartialEq, Eq, Structural)]
pub enum LoginPoll {
    Idle,
    Pending,
    Authenticated,
    RealmDirectoryUpdated,
    RealmDirectoryCancelled,
    Failed,
}

/// What a login poll asks of Glue.
#[derive(Clone, Copy, Debug, PartialEq, Eq, Structural)]
pub enum LoginPollReaction {
    Nothing,
    /// Keep the status dialog while the character backdrops become resident.
    HoldStatusDialog,
    /// Close the status dialog and publish the realm directory with
    /// `GET_PREFERRED_REALM_INFO`.
    PublishPreferredRealmInfo,
    /// Close the status dialog, publish the realm directory with
    /// `OPEN_REALM_LIST`, and begin the pending world session.
    OpenRealmList,
    /// Clear the network status and show the failure in an OKAY dialog.
    ReportFailure,
}

/// One poll of the world (character) session.
#[derive(Clone, Copy, Debug, PartialEq, Eq, Structural)]
pub enum WorldPoll {
    Idle,
    Pending,
    CharacterScreenReady,
    CharacterDirectoryReady,
    CharacterCreationFinished { success: bool },
    CharacterDeletionFinished { success: bool },
    CharacterRenameFinished { success: bool },
    CharacterOperationCancelled,
    EnteredWorld,
    /// The server refused the character; `directory` says whether a
    /// character directory is available to republish.
    CharacterRejected { directory: bool },
    Failed,
}

/// What a world poll asks of Glue.
#[derive(Clone, Copy, Debug, PartialEq, Eq, Structural)]
pub enum WorldPollReaction {
    Nothing,
    /// Publish the account's expansion and switch Glue to `charselect`.
    ShowCharacterSelect,
    /// Project the character directory and send `CHARACTER_LIST_UPDATE`,
    /// then queue loading-screen prewarms.
    PublishCharacterDirectory,
    /// Close the dialog, select the last character, show `charselect`.
    CharacterCreated,
    /// Close the dialog and select the first character.
    CharacterDeleted,
    /// Close the dialog.
    CharacterRenamed,
    /// Show the operation's result message in an OKAY dialog.
    ShowResultMessage,
    /// Hand the entered world to gameplay.
    BeginGameplay,
    /// Drop the loading card, republish the directory if there is one, and
    /// show the rejection in an OKAY dialog.
    ReturnToCharacterSelect,
    /// Drop the loading card and world UI and record the failure.
    ReportFailure,
}

/// Outcome of sending the pending character-screen requests.
#[derive(Clone, Copy, Debug, PartialEq, Eq, Structural)]
pub enum RequestSend {
    Sent,
    /// The world session is busy or has no character screen yet.
    Deferred,
    Failed,
}

/// Publication flags of the Glue session.
#[derive(Clone, Copy, Debug, PartialEq, Eq, Structural)]
pub struct GlueSession {
    pub realm_directory_published: bool,
    pub authentication_prewarm_active: bool,
    pub character_screen_published: bool,
    pub character_directory_published: bool,
    pub pending_requests: CharacterScreenRequests,
    pub pending_realm_id: Option<u32>,
}

/// No flag set, nothing pending.
pub open spec fn initial_session() -> GlueSession {
    GlueSession {
        realm_directory_published: false,
        authentication_prewarm_active: false,
        character_screen_published: false,
        character_directory_published: false,
        pending_requests: CharacterScreenRequests::spec_none(),
        pending_realm_id: None,
    }
}

/// A login failure clears the login publication.
pub open spec fn after_login_failure(s: GlueSession) -> GlueSession {
    GlueSession { authentication_prewarm_active: false, realm_directory_published: false, ..s }
}

/// A world failure clears the character publication.
pub open spec fn after_world_failure(s: GlueSession) -> GlueSession {
    GlueSession { character_screen_published: false, character_directory_published: false, ..s }
}

pub open spec fn login_begin_step(s: GlueSession, outcome: LoginBegin) -> (GlueSession, LoginBeginReaction) {
    match outcome {
        LoginBegin::Started => (
            GlueSession {
                realm_directory_published: false,
                authentication_prewarm_active: true,
                ..s
            },
            LoginBeginReaction::OpenConnectingDialog,
        ),
        LoginBegin::AlreadyActive => (s, LoginBeginReaction::Ignore),
        LoginBegin::AlreadyAuthenticated => (s, LoginBeginReaction::Ignore),
        LoginBegin::Failed => (after_login_failure(s), LoginBeginReaction::ReportFailure),
    }
}

pub open spec fn login_poll_step(s: GlueSession, poll: LoginPoll) -> (GlueSession, LoginPollReaction) {
    match poll {
        LoginPoll::Authenticated => if s.authentication_prewarm_active {
            (s, LoginPollReaction::HoldStatusDialog)
        } else if !s.realm_directory_published {
            (
                GlueSession { realm_directory_published: true, ..s },
                LoginPollReaction::PublishPreferredRealmInfo,
            )
        } else {
            (s, LoginPollReaction::Nothing)
        },
        LoginPoll::RealmDirectoryUpdated => (
            GlueSession { realm_directory_published: true, ..s },
            LoginPollReaction::OpenRealmList,
        ),
        LoginPoll::Failed => (after_login_failure(s), LoginPollReaction::ReportFailure),
        _ => (s, LoginPollReaction::Nothing),
    }
}

pub open spec fn world_poll_step(s: GlueSession, poll: WorldPoll) -> (GlueSession, WorldPollReaction) {
    match poll {
        WorldPoll::CharacterScreenReady => if !s.character_screen_published {
            (
                GlueSession { character_screen_published: true, ..s },
                WorldPollReaction::ShowCharacterSelect,
            )
        } else {
            (s, WorldPollReaction::Nothing)
        },
        WorldPoll::CharacterDirectoryReady => if !s.character_directory_published {
            (
                GlueSession { character_directory_published: true, ..s },
                WorldPollReaction::PublishCharacterDirectory,
            )
        } else {
            (s, WorldPollReaction::Nothing)
        },
        WorldPoll::CharacterCreationFinished { success } => if success {
            (
                GlueSession { character_directory_published: false, ..s },
                WorldPollReaction::CharacterCreated,
            )
        } else {
            (s, WorldPollReaction::ShowResultMessage)
        },
        WorldPoll::CharacterDeletionFinished { success } => if success {
            (
                GlueSession {
                    character_directory_published: false,
                    pending_requests: CharacterScreenRequests {
                        refresh_character_directory: true,
                        ..s.pending_requests
                    },
                    ..s
                },
                WorldPollReaction::CharacterDeleted,
            )
        } else {
            (s, WorldPollReaction::ShowResultMessage)
        },
        WorldPoll::CharacterRenameFinished { success } => if success {
            (
                GlueSession {
                    character_directory_published: false,
                    pending_requests: CharacterScreenRequests {
                        refresh_character_directory: true,
                        ..s.pending_requests
                    },
                    ..s
                },
                WorldPollReaction::CharacterRenamed,
            )
        } else {
            (s, WorldPollReaction::ShowResultMessage)
        },
        WorldPoll::EnteredWorld => (s, WorldPollReaction::BeginGameplay),
        WorldPoll::CharacterRejected { directory } => (
            if directory {
                GlueSession { character_directory_published: true, ..s }
            } else {
                s
            },
            WorldPollReaction::ReturnToCharacterSelect,
        ),
        WorldPoll::Failed => (after_world_failure(s), WorldPollReaction::ReportFailure),
        _ => (s, WorldPollReaction::Nothing),
    }
}

impl GlueSession {
    pub fn new() -> (session: Self)
        ensures
            session == initial_session(),
    {
        GlueSession {
            realm_directory_published: false,
            authentication_prewarm_active: false,
            character_screen_published: false,
            character_directory_published: false,
            pending_requests: CharacterScreenRequests::none(),
            pending_realm_id: None,
        }
    }

    /// A login exchange was asked for; `outcome` is how starting it went.
    pub fn login_begin(&mut self, outcome: LoginBegin) -> (reaction: LoginBeginReaction)
        ensures
            (*final(self), reaction) == login_begin_step(*old(self), outcome),
    {
        match outcome {
            LoginBegin::Started => {
                self.realm_directory_published = false;
                self.authentication_prewarm_active = true;
                LoginBeginReaction::OpenConnectingDialog
            },
            LoginBegin::AlreadyActive => LoginBeginReaction::Ignore,
            LoginBegin::AlreadyAuthenticated => LoginBeginReaction::Ignore,
            LoginBegin::Failed => {
                self.login_failed();
                LoginBeginReaction::ReportFailure
            },
        }
    }

    /// A login failure was published.
    pub fn login_failed(&mut self)
        ensures
            *final(self) == after_login_failure(*old(self)),
    {
        self.authentication_prewarm_active = false;
        self.realm_directory_published = false;
    }

    /// The account cancelled its login (the caller cancels the exchange and
    /// clears the network status).
    pub fn cancel_login(&mut self)
        ensures
            *final(self) == (GlueSession {
                authentication_prewarm_active: false,
                realm_directory_published: false,
                ..*old(self)
            }),
    {
        self.authentication_prewarm_active = false;
        self.realm_directory_published = false;
    }

    /// The status dialog's button cancelled the login exchange itself.
    pub fn login_cancelled_from_dialog(&mut self)
        ensures
            *final(self) == (GlueSession { realm_directory_published: false, ..*old(self) }),
    {
        self.realm_directory_published = false;
    }

    /// The realm list was dismissed; from the login screen that disconnects
    /// the login exchange. Returns whether it does.
    pub fn realm_list_cancelled(&mut self, from_login_screen: bool) -> (disconnect: bool)
        ensures
            disconnect == from_login_screen,
            *final(self) == if from_login_screen {
                GlueSession { realm_directory_published: false, ..*old(self) }
            } else {
                *old(self)
            },
    {
        if from_login_screen {
            self.realm_directory_published = false;
        }
        from_login_screen
    }

    /// Everything was disconnected: every flag and pending request is
    /// dropped.
    pub fn disconnect(&mut self)
        ensures
            *final(self) == initial_session(),
    {
        *self = GlueSession::new();
    }

    /// The character logged out: the character screen and its directory are
    /// published afresh and pending requests are dropped; the realm stays.
    pub fn logged_out(&mut self)
        ensures
            *final(self) == (GlueSession {
                character_screen_published: false,
                character_directory_published: false,
                pending_requests: CharacterScreenRequests::spec_none(),
                ..*old(self)
            }),
    {
        self.character_screen_published = false;
        self.character_directory_published = false;
        self.pending_requests = CharacterScreenRequests::none();
    }

    /// Glue chose a realm; the world session begins once the realm is known.
    pub fn change_realm(&mut self, realm_id: u32)
        ensures
            *final(self) == (GlueSession { pending_realm_id: Some(realm_id), ..*old(self) }),
    {
        self.pending_realm_id = Some(realm_id);
    }

    /// The realm to begin a world session with: the pending choice, when it
    /// names a realm identifier (a byte).
    pub fn pending_world_realm(&self) -> (realm: Option<u8>)
        ensures
            realm == match self.pending_realm_id {
                Some(id) => if id < 256 {
                    Some(id as u8)
                } else {
                    None::<u8>
                },
                None => None::<u8>,
            },
    {
        match self.pending_realm_id {
            Some(id) => if id < 256 {
                Some(id as u8)
            } else {
                None
            },
            None => None,
        }
    }

    /// The world session began on the pending realm.
    pub fn world_begun(&mut self)
        ensures
            *final(self) == (GlueSession {
                pending_realm_id: None,
                character_screen_published: false,
                character_directory_published: false,
                ..*old(self)
            }),
    {
        self.pending_realm_id = None;
        self.character_screen_published = false;
        self.character_directory_published = false;
    }

    /// A world failure was published.
    pub fn world_failed(&mut self)
        ensures
            *final(self) == after_world_failure(*old(self)),
    {
        self.character_screen_published = false;
        self.character_directory_published = false;
    }

    /// Whether the character backdrops may be made resident this frame: only
    /// behind the authentication dialog or a movie.
    pub fn backdrop_prewarm_window(&self, movie_playing: bool) -> (active: bool)
        ensures
            active == (self.authentication_prewarm_active || movie_playing),
    {
        self.authentication_prewarm_active || movie_playing
    }

    /// Ends the frame's Glue actions: the authentication cover is released
    /// once the backdrops are resident, unless a login started this frame,
    /// and the frame's character-screen requests join the pending ones.
    pub fn finish_actions(
        &mut self,
        authentication_started: bool,
        backdrop_prewarms_complete: bool,
        requests: CharacterScreenRequests,
    )
        ensures
            final(self).authentication_prewarm_active == (old(
                self,
            ).authentication_prewarm_active && !(!authentication_started
                && backdrop_prewarms_complete)),
            final(self).pending_requests == old(self).pending_requests.spec_merged(requests),
            *final(self) == (GlueSession {
                authentication_prewarm_active: final(self).authentication_prewarm_active,
                pending_requests: final(self).pending_requests,
                ..*old(self)
            }),
    {
        if self.authentication_prewarm_active && !authentication_started
            && backdrop_prewarms_complete {
            self.authentication_prewarm_active = false;
        }
        if !requests.is_empty() {
            self.pending_requests = self.pending_requests.merged(&requests);
        }
    }

    /// The requests to send this frame, if any are pending.
    pub fn requests_to_send(&self) -> (requests: Option<CharacterScreenRequests>)
        ensures
            requests == if self.pending_requests == CharacterScreenRequests::spec_none() {
                None
            } else {
                Some(self.pending_requests)
            },
    {
        if self.pending_requests.is_empty() {
            None
        } else {
            Some(self.pending_requests)
        }
    }

    /// The pending requests `sent` were handed to the world session with
    /// `outcome`. Returns whether a world failure is to be published.
    pub fn requests_sent(&mut self, sent: CharacterScreenRequests, outcome: RequestSend) -> (failed:
        bool)
        ensures
            failed == (outcome == RequestSend::Failed),
            *final(self) == match outcome {
                RequestSend::Sent => GlueSession {
                    pending_requests: CharacterScreenRequests::spec_none(),
                    character_directory_published: old(self).character_directory_published
                        && !sent.refresh_character_directory,
                    ..*old(self)
                },
                RequestSend::Deferred => *old(self),
                RequestSend::Failed => after_world_failure(*old(self)),
            },
    {
        match outcome {
            RequestSend::Sent => {
                self.pending_requests = CharacterScreenRequests::none();
                if sent.refresh_character_directory {
                    self.character_directory_published = false;
                }
                false
            },
            RequestSend::Deferred => false,
            RequestSend::Failed => {
                self.world_failed();
                true
            },
        }
    }

    /// Reacts to one poll of the login exchange.
    pub fn login_poll(&mut self, poll: LoginPoll) -> (reaction: LoginPollReaction)
        ensures
            (*final(self), reaction) == login_poll_step(*old(self), poll),
    {
        match poll {
            LoginPoll::Authenticated => {
                if self.authentication_prewarm_active {
                    LoginPollReaction::HoldStatusDialog
                } else if !self.realm_directory_published {
                    self.realm_directory_published = true;
                    LoginPollReaction::PublishPreferredRealmInfo
                } else {
                    LoginPollReaction::Nothing
                }
            },
            LoginPoll::RealmDirectoryUpdated => {
                self.realm_directory_published = true;
                LoginPollReaction::OpenRealmList
            },
            LoginPoll::Failed => {
                self.login_failed();
                LoginPollReaction::ReportFailure
            },
            LoginPoll::Idle => LoginPollReaction::Nothing,
            LoginPoll::Pending => LoginPollReaction::Nothing,
            LoginPoll::RealmDirectoryCancelled => LoginPollReaction::Nothing,
        }
    }

    /// Reacts to one poll of the world session.
    pub fn world_poll(&mut self, poll: WorldPoll) -> (reaction: WorldPollReaction)
        ensures
            (*final(self), reaction) == world_poll_step(*old(self), poll),
    {
        match poll {
            WorldPoll::CharacterScreenReady => {
                if !self.character_screen_published {
                    self.character_screen_published = true;
                    WorldPollReaction::ShowCharacterSelect
                } else {
                    WorldPollReaction::Nothing
                }
            },
            WorldPoll::CharacterDirectoryReady => {
                if !self.character_directory_published {
                    self.character_directory_published = true;
                    WorldPollReaction::PublishCharacterDirectory
                } else {
                    WorldPollReaction::Nothing
                }
            },
            WorldPoll::CharacterCreationFinished { success } => {
                if success {
                    self.character_directory_published = false;
                    WorldPollReaction::CharacterCreated
                } else {
                    WorldPollReaction::ShowResultMessage
                }
            },
            WorldPoll::CharacterDeletionFinished { success } => {
                if success {
                    self.character_directory_published = false;
                    self.pending_requests.refresh_character_directory = true;
                    WorldPollReaction::CharacterDeleted
                } else {
                    WorldPollReaction::ShowResultMessage
                }
            },
            WorldPoll::CharacterRenameFinished { success } => {
                if success {
                    self.character_directory_published = false;
                    self.pending_requests.refresh_character_directory = true;
                    WorldPollReaction::CharacterRenamed
                } else {
                    WorldPollReaction::ShowResultMessage
                }
            },
            WorldPoll::EnteredWorld => WorldPollReaction::BeginGameplay,
            WorldPoll::CharacterRejected { directory } => {
                if directory {
                    self.character_directory_published = true;
                }
                WorldPollReaction::ReturnToCharacterSelect
            },
            WorldPoll::Failed => {
                self.world_failed();
                WorldPollReaction::ReportFailure
            },
            WorldPoll::Idle => WorldPollReaction::Nothing,
            WorldPoll::Pending => WorldPollReaction::Nothing,
            WorldPoll::CharacterOperationCancelled => WorldPollReaction::Nothing,
        }
    }
}

/// The realm directory is published once per authentication: after a
/// publication, further `Authenticated` polls change nothing until a
/// cancellation, failure or disconnect clears the flag.
pub proof fn law_realm_directory_published_once(s: GlueSession)
    requires
        !s.authentication_prewarm_active,
    ensures
        ({
            let (s1, r1) = login_poll_step(s, LoginPoll::Authenticated);
            let (s2, r2) = login_poll_step(s1, LoginPoll::Authenticated);
            &&& !s.realm_directory_published ==> r1 == LoginPollReaction::PublishPreferredRealmInfo
            &&& r2 == LoginPollReaction::Nothing
            &&& s2 == s1
        }),
{
}

/// While the authentication cover is up, an authenticated login holds the
/// status dialog and publishes nothing.
pub proof fn law_authentication_cover_holds_publication(s: GlueSession)
    requires
        s.authentication_prewarm_active,
    ensures
        login_poll_step(s, LoginPoll::Authenticated) == (s, LoginPollReaction::HoldStatusDialog),
{
}

/// Character select and the character directory are each published once
/// per world session: a repeated readiness poll reacts with nothing.
pub proof fn law_character_publication_once(s: GlueSession)
    ensures
        ({
            let (s1, _) = world_poll_step(s, WorldPoll::CharacterScreenReady);
            world_poll_step(s1, WorldPoll::CharacterScreenReady) == (s1, WorldPollReaction::Nothing)
        }),
        ({
            let (s1, _) = world_poll_step(s, WorldPoll::CharacterDirectoryReady);
            world_poll_step(s1, WorldPoll::CharacterDirectoryReady) == (
                s1,
                WorldPollReaction::Nothing,
            )
        }),
{
}

/// A successful character deletion or rename republishes the directory: it
/// clears the publication flag and queues a directory refresh.
pub proof fn law_character_change_refreshes_directory(s: GlueSession)
    ensures
        ({
            let (d, _) = world_poll_step(s, WorldPoll::CharacterDeletionFinished { success: true });
            !d.character_directory_published && d.pending_requests.refresh_character_directory
        }),
        ({
            let (r, _) = world_poll_step(s, WorldPoll::CharacterRenameFinished { success: true });
            !r.character_directory_published && r.pending_requests.refresh_character_directory
        }),
{
}

/// After a successful creation, deletion or rename, the next
/// directory-ready poll publishes the directory again, so the changed
/// character list reaches character select; the creation also clears the
/// publication flag.
pub proof fn law_successful_change_republishes_directory(s: GlueSession)
    ensures
        ({
            let (c, _) = world_poll_step(s, WorldPoll::CharacterCreationFinished { success: true });
            &&& !c.character_directory_published
            &&& world_poll_step(c, WorldPoll::CharacterDirectoryReady).1
                == WorldPollReaction::PublishCharacterDirectory
        }),
        ({
            let (d, _) = world_poll_step(s, WorldPoll::CharacterDeletionFinished { success: true });
            world_poll_step(d, WorldPoll::CharacterDirectoryReady).1
                == WorldPollReaction::PublishCharacterDirectory
        }),
        ({
            let (r, _) = world_poll_step(s, WorldPoll::CharacterRenameFinished { success: true });
            world_poll_step(r, WorldPoll::CharacterDirectoryReady).1
                == WorldPollReaction::PublishCharacterDirectory
        }),
        world_poll_step(s, WorldPoll::CharacterCreationFinished { success: false }) == (
            s,
            WorldPollReaction::ShowResultMessage,
        ),
        world_poll_step(s, WorldPoll::CharacterDeletionFinished { success: false }) == (
            s,
            WorldPollReaction::ShowResultMessage,
        ),
        world_poll_step(s, WorldPoll::CharacterRenameFinished { success: false }) == (
            s,
            WorldPollReaction::ShowResultMessage,
        ),
        world_poll_step(s, WorldPoll::CharacterCreationFinished { success: true }).1
            == WorldPollReaction::CharacterCreated,
{
}

} // verus!
