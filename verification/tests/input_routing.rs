use solarity_runtime::input_routing::{
    event_owner, flushes_deferred_refresh, glue_event_route, process_action_source,
    ui_modifier_keys, world_binding_captured, EventOwner, GlueEventRoute, PlatformEventKind,
    ProcessActionSource, UiModifierKeys,
};

const PRESS: PlatformEventKind = PlatformEventKind::Key { released: false };
const RELEASE: PlatformEventKind = PlatformEventKind::Key { released: true };

#[test]
fn console_then_loading_then_world_then_glue() {
    assert_eq!(event_owner(true, true, true), EventOwner::Console);
    assert_eq!(event_owner(false, true, true), EventOwner::BindingsOnly);
    assert_eq!(event_owner(false, false, true), EventOwner::World);
    assert_eq!(event_owner(false, false, false), EventOwner::Glue);
}

#[test]
fn glue_input_reaches_only_the_presented_screen() {
    assert_eq!(glue_event_route(PRESS, true, false, true), GlueEventRoute::Keyboard);
    assert_eq!(glue_event_route(PRESS, true, false, false), GlueEventRoute::Ignore);
    assert_eq!(glue_event_route(PRESS, false, false, true), GlueEventRoute::Ignore);
    assert_eq!(glue_event_route(RELEASE, true, true, false), GlueEventRoute::MovieKeyUp);
    assert_eq!(glue_event_route(PRESS, true, true, true), GlueEventRoute::Ignore);
    assert_eq!(
        glue_event_route(PlatformEventKind::TextInput, true, false, true),
        GlueEventRoute::Text
    );
    assert_eq!(
        glue_event_route(PlatformEventKind::TextEditing, true, false, true),
        GlueEventRoute::Composition
    );
    assert_eq!(
        glue_event_route(PlatformEventKind::MouseButton, true, true, true),
        GlueEventRoute::Ignore
    );
    assert_eq!(
        glue_event_route(PlatformEventKind::MouseMotion, true, false, true),
        GlueEventRoute::PointerMotion
    );
    assert_eq!(
        glue_event_route(PlatformEventKind::MouseWheel, true, false, true),
        GlueEventRoute::PointerWheel
    );
    assert_eq!(
        glue_event_route(PlatformEventKind::MouseWheel, true, false, false),
        GlueEventRoute::Ignore
    );
    assert_eq!(
        glue_event_route(PlatformEventKind::Other, true, false, true),
        GlueEventRoute::Ignore
    );
    assert!(!flushes_deferred_refresh(PlatformEventKind::MouseMotion));
    assert!(flushes_deferred_refresh(PRESS));
}

#[test]
fn world_bindings_see_captured_input() {
    assert!(world_binding_captured(PRESS, true, true, false, false));
    assert!(world_binding_captured(PRESS, true, false, true, false));
    assert!(!world_binding_captured(PRESS, true, false, false, false));
    assert!(!world_binding_captured(PRESS, false, true, true, false));
    assert!(world_binding_captured(PlatformEventKind::MouseButton, true, false, true, false));
    assert!(!world_binding_captured(PlatformEventKind::MouseMotion, true, true, true, false));
    assert!(world_binding_captured(PlatformEventKind::MouseMotion, true, false, false, true));
}

#[test]
fn modifier_bits_decode_to_sided_keys() {
    assert_eq!(
        ui_modifier_keys(0x1 | 0x80 | 0x200),
        UiModifierKeys {
            left_shift: true,
            right_shift: false,
            left_control: false,
            right_control: true,
            left_alt: false,
            right_alt: true,
        }
    );
    assert_eq!(
        ui_modifier_keys(0x2 | 0x40 | 0x100 | 0x1000),
        UiModifierKeys {
            left_shift: false,
            right_shift: true,
            left_control: true,
            right_control: false,
            left_alt: true,
            right_alt: false,
        }
    );
}

#[test]
fn process_actions_prefer_the_world_and_need_a_presented_screen() {
    assert_eq!(process_action_source(true, true, false), ProcessActionSource::World);
    assert_eq!(process_action_source(false, true, true), ProcessActionSource::Glue);
    assert_eq!(process_action_source(false, true, false), ProcessActionSource::Ignored);
    assert_eq!(process_action_source(false, false, true), ProcessActionSource::Nothing);
}

use solarity_runtime::input_routing::{instrumentation_key, InstrumentationKey};

#[test]
fn f10_is_consumed_and_toggles_on_a_fresh_press() {
    assert_eq!(instrumentation_key(true, Some("F10"), true, false), InstrumentationKey::Toggle);
    assert_eq!(instrumentation_key(true, Some("F10"), true, true), InstrumentationKey::Consume);
    assert_eq!(instrumentation_key(true, Some("F10"), false, false), InstrumentationKey::Consume);
    assert_eq!(instrumentation_key(false, Some("F10"), true, false), InstrumentationKey::Pass);
    assert_eq!(instrumentation_key(true, Some("F9"), true, false), InstrumentationKey::Pass);
    assert_eq!(instrumentation_key(true, None, true, false), InstrumentationKey::Pass);
}
