//! Which owner receives one admitted platform event: the developer console,
//! key bindings only, the world's FrameXML, or Glue; and which Glue handler
//! takes it. Pointer projection is floating-point and stays with the caller.

use vstd::prelude::*;

verus! {

/// The kind of an admitted platform event, with what routing reads of it.
#[derive(Clone, Copy, Debug, PartialEq, Eq, Structural)]
pub enum PlatformEventKind {
    Key { released: bool },
    TextInput,
    TextEditing,
    MouseButton,
    MouseMotion,
    MouseWheel,
    Other,
}

/// The owner of an event.
#[derive(Clone, Copy, Debug, PartialEq, Eq, Structural)]
pub enum EventOwner {
    /// The console consumed it; bindings see it as captured.
    Console,
    /// A loading card is up or the world is being entered: bindings only,
    /// as captured.
    BindingsOnly,
    /// The active world's FrameXML.
    World,
    /// Glue.
    Glue,
}

pub open spec fn spec_event_owner(console_consumed: bool, loading_or_entering: bool, world_active: bool) -> EventOwner {
    if console_consumed {
        EventOwner::Console
    } else if loading_or_entering {
        EventOwner::BindingsOnly
    } else if world_active {
        EventOwner::World
    } else {
        EventOwner::Glue
    }
}

pub fn event_owner(console_consumed: bool, loading_or_entering: bool, world_active: bool) -> (owner:
    EventOwner)
    ensures
        owner == spec_event_owner(console_consumed, loading_or_entering, world_active),
{
    if console_consumed {
        EventOwner::Console
    } else if loading_or_entering {
        EventOwner::BindingsOnly
    } else if world_active {
        EventOwner::World
    } else {
        EventOwner::Glue
    }
}

/// The Glue handler of an event.
#[derive(Clone, Copy, Debug, PartialEq, Eq, Structural)]
pub enum GlueEventRoute {
    Ignore,
    /// A key released over a playing movie.
    MovieKeyUp,
    Keyboard,
    Text,
    Composition,
    PointerButton,
    PointerMotion,
    PointerWheel,
}

pub open spec fn spec_glue_event_route(
    kind: PlatformEventKind,
    same_window: bool,
    movie_playing: bool,
    screen_presented: bool,
) -> GlueEventRoute {
    if !same_window {
        GlueEventRoute::Ignore
    } else {
        match kind {
            PlatformEventKind::Key { released } => if movie_playing {
                if released {
                    GlueEventRoute::MovieKeyUp
                } else {
                    GlueEventRoute::Ignore
                }
            } else if screen_presented {
                GlueEventRoute::Keyboard
            } else {
                GlueEventRoute::Ignore
            },
            PlatformEventKind::Other => GlueEventRoute::Ignore,
            _ => if !screen_presented || movie_playing {
                GlueEventRoute::Ignore
            } else {
                match kind {
                    PlatformEventKind::TextInput => GlueEventRoute::Text,
                    PlatformEventKind::TextEditing => GlueEventRoute::Composition,
                    PlatformEventKind::MouseButton => GlueEventRoute::PointerButton,
                    PlatformEventKind::MouseMotion => GlueEventRoute::PointerMotion,
                    _ => GlueEventRoute::PointerWheel,
                }
            },
        }
    }
}

/// Glue input reaches only the screen the user sees: keys go to a playing
/// movie (on release) or to a presented screen; text, composition and
/// pointer input only to a presented screen without a movie.
pub fn glue_event_route(
    kind: PlatformEventKind,
    same_window: bool,
    movie_playing: bool,
    screen_presented: bool,
) -> (route: GlueEventRoute)
    ensures
        route == spec_glue_event_route(kind, same_window, movie_playing, screen_presented),
{
    if !same_window {
        return GlueEventRoute::Ignore;
    }
    match kind {
        PlatformEventKind::Key { released } => {
            if movie_playing {
                if released {
                    GlueEventRoute::MovieKeyUp
                } else {
                    GlueEventRoute::Ignore
                }
            } else if screen_presented {
                GlueEventRoute::Keyboard
            } else {
                GlueEventRoute::Ignore
            }
        },
        PlatformEventKind::Other => GlueEventRoute::Ignore,
        PlatformEventKind::TextInput => {
            if !screen_presented || movie_playing {
                GlueEventRoute::Ignore
            } else {
                GlueEventRoute::Text
            }
        },
        PlatformEventKind::TextEditing => {
            if !screen_presented || movie_playing {
                GlueEventRoute::Ignore
            } else {
                GlueEventRoute::Composition
            }
        },
        PlatformEventKind::MouseButton => {
            if !screen_presented || movie_playing {
                GlueEventRoute::Ignore
            } else {
                GlueEventRoute::PointerButton
            }
        },
        PlatformEventKind::MouseMotion => {
            if !screen_presented || movie_playing {
                GlueEventRoute::Ignore
            } else {
                GlueEventRoute::PointerMotion
            }
        },
        PlatformEventKind::MouseWheel => {
            if !screen_presented || movie_playing {
                GlueEventRoute::Ignore
            } else {
                GlueEventRoute::PointerWheel
            }
        },
    }
}

/// Every Glue event but pointer motion first flushes a deferred refresh.
pub fn flushes_deferred_refresh(kind: PlatformEventKind) -> (flush: bool)
    ensures
        flush == (kind != PlatformEventKind::MouseMotion),
{
    match kind {
        PlatformEventKind::MouseMotion => false,
        _ => true,
    }
}

/// Whether the world UI captured an event from the key bindings: a key while
/// an edit box has focus or that FrameXML handled, a click on an object, a
/// handled wheel; and any event whose UI dispatch failed.
pub fn world_binding_captured(
    kind: PlatformEventKind,
    same_window: bool,
    focused_edit_box: bool,
    handled: bool,
    ui_failed: bool,
) -> (captured: bool)
    ensures
        captured == (ui_failed || (same_window && match kind {
            PlatformEventKind::Key { .. } => focused_edit_box || handled,
            PlatformEventKind::MouseButton => handled,
            PlatformEventKind::MouseWheel => handled,
            _ => false,
        })),
{
    let ui = same_window && match kind {
        PlatformEventKind::Key { .. } => focused_edit_box || handled,
        PlatformEventKind::MouseButton => handled,
        PlatformEventKind::MouseWheel => handled,
        _ => false,
    };
    ui_failed || ui
}

/// Desktop modifier keys as FrameXML sees them.
#[derive(Clone, Copy, Debug, PartialEq, Eq, Structural)]
pub struct UiModifierKeys {
    pub left_shift: bool,
    pub right_shift: bool,
    pub left_control: bool,
    pub right_control: bool,
    pub left_alt: bool,
    pub right_alt: bool,
}

/// Decodes the platform modifier bits (shift 0x1/0x2, control 0x40/0x80,
/// alt 0x100/0x200).
pub fn ui_modifier_keys(bits: u16) -> (keys: UiModifierKeys)
    ensures
        keys == (UiModifierKeys {
            left_shift: bits & 0x1 != 0,
            right_shift: bits & 0x2 != 0,
            left_control: bits & 0x40 != 0,
            right_control: bits & 0x80 != 0,
            left_alt: bits & 0x100 != 0,
            right_alt: bits & 0x200 != 0,
        }),
{
    UiModifierKeys {
        left_shift: bits & 0x1 != 0,
        right_shift: bits & 0x2 != 0,
        left_control: bits & 0x40 != 0,
        right_control: bits & 0x80 != 0,
        left_alt: bits & 0x100 != 0,
        right_alt: bits & 0x200 != 0,
    }
}

/// Where a process action (quit, restart) comes from this frame.
#[derive(Clone, Copy, Debug, PartialEq, Eq, Structural)]
pub enum ProcessActionSource {
    World,
    Glue,
    /// Glue emitted one from a screen the user has not seen: it is dropped.
    Ignored,
    Nothing,
}

/// The world UI's action wins; a Glue action counts only from the presented
/// screen.
pub fn process_action_source(world_action: bool, glue_action: bool, screen_presented: bool) -> (source:
    ProcessActionSource)
    ensures
        source == if world_action {
            ProcessActionSource::World
        } else if !glue_action {
            ProcessActionSource::Nothing
        } else if screen_presented {
            ProcessActionSource::Glue
        } else {
            ProcessActionSource::Ignored
        },
{
    if world_action {
        ProcessActionSource::World
    } else if !glue_action {
        ProcessActionSource::Nothing
    } else if screen_presented {
        ProcessActionSource::Glue
    } else {
        ProcessActionSource::Ignored
    }
}

/// What the diagnostic F10 key does with one key event.
#[derive(Clone, Copy, Debug, PartialEq, Eq, Structural)]
pub enum InstrumentationKey {
    /// Not F10 on this window: the event continues to the other owners.
    Pass,
    /// F10 is consumed (repeat or release) without toggling.
    Consume,
    /// A fresh F10 press toggles the capture and is consumed.
    Toggle,
}

/// F10 on the application window is consumed before stock bindings,
/// including its repeats and release; only a fresh press toggles capture.
pub fn instrumentation_key(same_window: bool, key_name: Option<&str>, pressed: bool, repeat: bool) -> (key:
    InstrumentationKey)
    ensures
        key == if !same_window || !(key_name matches Some(name) && name@ == "F10"@) {
            InstrumentationKey::Pass
        } else if pressed && !repeat {
            InstrumentationKey::Toggle
        } else {
            InstrumentationKey::Consume
        },
{
    let f10 = match key_name {
        Some(name) => crate::text::str_equal(name, "F10"),
        None => false,
    };
    if !same_window || !f10 {
        InstrumentationKey::Pass
    } else if pressed && !repeat {
        InstrumentationKey::Toggle
    } else {
        InstrumentationKey::Consume
    }
}

/// No Glue handler other than a movie's key release runs for a screen the
/// user has not seen yet.
pub proof fn law_unpresented_screen_receives_no_input(
    kind: PlatformEventKind,
    same_window: bool,
    movie_playing: bool,
)
    ensures
        spec_glue_event_route(kind, same_window, movie_playing, false) == GlueEventRoute::Ignore
            || spec_glue_event_route(kind, same_window, movie_playing, false)
            == GlueEventRoute::MovieKeyUp,
{
}

/// While a loading card is up or the world is being entered, input the
/// console did not take reaches only the key bindings, whether or not a
/// world is active; otherwise the world owns it exactly when one is active
/// and Glue exactly when none is.
pub proof fn law_loading_input_reaches_bindings_only(loading_or_entering: bool, world_active: bool)
    ensures
        loading_or_entering ==> spec_event_owner(false, loading_or_entering, world_active)
            == EventOwner::BindingsOnly,
        !loading_or_entering ==> ((spec_event_owner(false, false, world_active)
            == EventOwner::World) == world_active),
        !loading_or_entering ==> ((spec_event_owner(false, false, world_active)
            == EventOwner::Glue) == !world_active),
        spec_event_owner(true, loading_or_entering, world_active) == EventOwner::Console,
{
}

} // verus!
