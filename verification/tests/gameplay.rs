use std::collections::VecDeque;

use solarity_runtime::gameplay::{
    replacement_admitted, service_gate, writer_admission, AlreadyActive, GameplayOwnership,
    MissingPlayerIdentity, ServiceGate,
};

use solarity_runtime::gameplay::{
    dispatch_paused, duration_millis_u32, retain_unhandled, world_scoped,
    MAX_RETAINED_UNHANDLED_PACKETS,
};

#[test]
fn millisecond_clock_wraps_at_32_bits() {
    assert_eq!(duration_millis_u32(0), 0);
    assert_eq!(duration_millis_u32(1_999_999), 1);
    assert_eq!(duration_millis_u32(5_000_000_000), 5_000);
    let wrap = (u128::from(u32::MAX) + 1) * 1_000_000;
    assert_eq!(duration_millis_u32(wrap + 7_000_000), 7);
}

#[test]
fn unhandled_packets_are_retained_up_to_the_limit() {
    let mut queue: VecDeque<usize> = VecDeque::new();
    for packet in 0..MAX_RETAINED_UNHANDLED_PACKETS {
        assert_eq!(retain_unhandled(&mut queue, packet), Ok(()));
    }
    assert_eq!(
        retain_unhandled(&mut queue, 9),
        Err(MAX_RETAINED_UNHANDLED_PACKETS)
    );
    assert_eq!(queue.len(), MAX_RETAINED_UNHANDLED_PACKETS);
    assert_eq!(queue.back(), Some(&(MAX_RETAINED_UNHANDLED_PACKETS - 1)));
}

#[test]
fn dispatch_pauses_for_any_pending_handoff() {
    assert!(!dispatch_paused(false, false, false));
    assert!(dispatch_paused(true, false, false));
    assert!(dispatch_paused(false, true, false));
    assert!(dispatch_paused(false, false, true));
}

#[test]
fn player_facts_need_an_active_world() {
    assert_eq!(world_scoped(true, Some(3)), Some(3));
    assert_eq!(world_scoped(false, Some(3)), None);
    assert_eq!(world_scoped::<u8>(true, None), None);
}

use solarity_runtime::gameplay::{
    counts_as_applied, drain_step, live_packet_channel, setup_packet_channel, DrainStep,
    PacketChannel, PacketClaims, Received,
};

fn claims() -> PacketClaims {
    PacketClaims {
        logout: false,
        world_transfer: false,
        weather: false,
        environmental_damage: false,
        tutorial_flags: false,
        mirror_timer: false,
        creature_query: false,
        game_object_query: false,
    }
}

#[test]
fn packets_go_to_the_first_claiming_channel() {
    assert_eq!(setup_packet_channel(claims()), PacketChannel::World);
    assert_eq!(live_packet_channel(claims()), PacketChannel::World);
    let both_queries = PacketClaims { creature_query: true, game_object_query: true, ..claims() };
    assert_eq!(setup_packet_channel(both_queries), PacketChannel::CreatureQuery);
    assert_eq!(live_packet_channel(both_queries), PacketChannel::GameObjectQuery);
    let everything = PacketClaims {
        logout: true,
        world_transfer: true,
        weather: true,
        environmental_damage: true,
        tutorial_flags: true,
        mirror_timer: true,
        creature_query: true,
        game_object_query: true,
    };
    assert_eq!(live_packet_channel(everything), PacketChannel::Logout);
    assert_eq!(setup_packet_channel(everything), PacketChannel::Weather);
    let transfer = PacketClaims { world_transfer: true, weather: true, ..claims() };
    assert_eq!(live_packet_channel(transfer), PacketChannel::WorldTransfer);
    let timer = PacketClaims { mirror_timer: true, creature_query: true, ..claims() };
    assert_eq!(live_packet_channel(timer), PacketChannel::MirrorTimer);
}

#[test]
fn drain_steps() {
    assert!(counts_as_applied(PacketChannel::Weather, false));
    assert!(counts_as_applied(PacketChannel::World, true));
    assert!(!counts_as_applied(PacketChannel::World, false));
    assert!(!counts_as_applied(PacketChannel::TutorialFlags, true));
    assert_eq!(
        drain_step(Received::Packet { channel: PacketChannel::Logout, world_changed: false }),
        DrainStep::Pause
    );
    assert_eq!(
        drain_step(Received::Packet { channel: PacketChannel::World, world_changed: true }),
        DrainStep::Next { applied: true }
    );
    assert_eq!(drain_step(Received::MalformedTransfer), DrainStep::Next { applied: false });
    assert_eq!(drain_step(Received::MalformedLogout), DrainStep::Abort);
    assert_eq!(drain_step(Received::LoggedOut), DrainStep::LoggedOut);
    assert_eq!(drain_step(Received::Failed), DrainStep::Fail);
    assert_eq!(drain_step(Received::Empty), DrainStep::Pause);
    assert_eq!(drain_step(Received::Disconnected), DrainStep::Ended);
}

use solarity_runtime::gameplay::{reader_route, PingLiveness, ReaderRoute};

#[test]
fn pongs_measure_the_outstanding_ping_only() {
    let ms: u128 = 1_000_000;
    let mut liveness = PingLiveness::new();
    assert_eq!(liveness.tick(30_000 * ms), (1, 0));
    liveness.pong(7, 30_020 * ms);
    assert_eq!(liveness.round_time_ms, 0);
    assert!(liveness.pending.is_some());
    liveness.pong(1, 30_045 * ms);
    assert_eq!(liveness.round_time_ms, 45);
    assert!(liveness.pending.is_none());
    liveness.pong(1, 30_090 * ms);
    assert_eq!(liveness.round_time_ms, 45);
    assert_eq!(liveness.tick(60_000 * ms), (2, 45));
    let mut wrapped = PingLiveness { sequence: u32::MAX, round_time_ms: 3, pending: None };
    assert_eq!(wrapped.tick(0), (0, 3));
}

#[test]
fn reader_routes_liveness_before_the_application() {
    assert_eq!(reader_route(true, true, true), ReaderRoute::Handoff);
    assert_eq!(reader_route(false, true, true), ReaderRoute::Pong);
    assert_eq!(reader_route(false, false, true), ReaderRoute::TimeSync);
    assert_eq!(reader_route(false, false, false), ReaderRoute::Application);
}

use solarity_runtime::gameplay::{admit_front, SendOutcome, TaskEnded};

#[test]
fn queued_requests_survive_backpressure_in_order() {
    let mut queue: VecDeque<(u32, u64)> = VecDeque::from(vec![(1, 10), (2, 20), (3, 30)]);
    assert_eq!(admit_front(&mut queue, SendOutcome::Sent), Ok(true));
    assert_eq!(admit_front(&mut queue, SendOutcome::Full), Ok(false));
    assert_eq!(queue.front(), Some(&(2, 20)));
    assert_eq!(admit_front(&mut queue, SendOutcome::Sent), Ok(true));
    assert_eq!(admit_front(&mut queue, SendOutcome::Closed), Err(TaskEnded));
    assert_eq!(queue.len(), 1);
    assert_eq!(admit_front(&mut queue, SendOutcome::Sent), Ok(false));
    assert!(queue.is_empty());
}

#[test]
fn service_gate_pauses_aborts_or_drains() {
    assert_eq!(service_gate(true, true, true), ServiceGate::Idle);
    assert_eq!(service_gate(false, false, true), ServiceGate::Idle);
    assert_eq!(service_gate(false, true, false), ServiceGate::AbortTask);
    assert_eq!(service_gate(false, true, true), ServiceGate::Drain);
}

type Ownership = GameplayOwnership<u32, u8>;

fn released(ownership: &Ownership) -> bool {
    !ownership.task_active
        && !ownership.world_active
        && !ownership.player_control
        && !ownership.realm_clock
        && !ownership.action_buttons
        && !ownership.transfer_pending
        && !ownership.logout_pending
        && !ownership.logged_out_pending
        && ownership.unhandled.is_empty()
        && ownership.weather.is_empty()
}

fn begun() -> Ownership {
    let mut ownership = Ownership::new();
    assert_eq!(
        ownership.begin(true, true, VecDeque::from(vec![1, 2]), VecDeque::from(vec![9])),
        Ok(())
    );
    ownership
}

#[test]
fn ownership_refuses_a_second_begin_and_disconnect_releases_everything() {
    let mut ownership = Ownership::new();
    assert!(released(&ownership));
    assert_eq!(ownership.service_gate(), ServiceGate::Idle);
    ownership = begun();
    assert!(ownership.player_control && ownership.realm_clock && ownership.action_buttons);
    assert_eq!(ownership.unhandled, VecDeque::from(vec![1, 2]));
    assert_eq!(ownership.service_gate(), ServiceGate::Drain);
    assert_eq!(ownership.begin(false, false, VecDeque::new(), VecDeque::new()), Err(AlreadyActive));
    assert_eq!(ownership.unhandled.len(), 2);
    ownership.transfer_pending = true;
    assert_eq!(ownership.service_gate(), ServiceGate::Idle);
    ownership.transfer_pending = false;
    ownership.world_active = false;
    assert_eq!(ownership.service_gate(), ServiceGate::AbortTask);
    assert!(ownership.disconnect());
    assert!(released(&ownership));
    assert!(!ownership.disconnect());
    assert!(released(&ownership));
}

#[test]
fn a_failed_or_ended_task_drops_the_world_and_its_queues() {
    for item in [Received::Failed, Received::Disconnected] {
        let mut ownership = begun();
        let step = ownership.receive(item);
        assert!(matches!(step, DrainStep::Fail | DrainStep::Ended));
        assert!(!ownership.task_active && !ownership.world_active);
        assert!(!ownership.realm_clock && !ownership.action_buttons);
        assert!(ownership.unhandled.is_empty() && ownership.weather.is_empty());
        assert!(ownership.player_control);
    }
}

#[test]
fn a_malformed_logout_aborts_the_task_but_keeps_the_world() {
    let mut ownership = begun();
    assert_eq!(ownership.receive(Received::MalformedLogout), DrainStep::Abort);
    assert!(!ownership.task_active && ownership.world_active && ownership.realm_clock);
    assert_eq!(ownership.unhandled.len(), 2);
    assert_eq!(ownership.weather.len(), 1);
}

#[test]
fn handed_over_packets_pause_dispatch() {
    let mut ownership = begun();
    let logout = Received::Packet { channel: PacketChannel::Logout, world_changed: false };
    assert_eq!(ownership.receive(logout), DrainStep::Pause);
    assert!(ownership.logout_pending && ownership.task_active);
    assert_eq!(ownership.service_gate(), ServiceGate::Idle);
    let mut ownership = begun();
    let transfer = Received::Packet { channel: PacketChannel::WorldTransfer, world_changed: false };
    assert_eq!(ownership.receive(transfer), DrainStep::Pause);
    assert!(ownership.transfer_pending);
    assert_eq!(ownership.receive(Received::LoggedOut), DrainStep::LoggedOut);
    assert!(ownership.logged_out_pending && !ownership.task_active && ownership.world_active);
}

#[test]
fn weather_waits_in_order_and_a_refused_replacement_still_discards_it() {
    let mut ownership = begun();
    ownership.queue_weather(10);
    assert_eq!(ownership.take_weather(), Some(9));
    ownership.queue_weather(11);
    assert_eq!(ownership.replace_world(false), Err(MissingPlayerIdentity));
    assert!(ownership.world_active);
    assert_eq!(ownership.take_weather(), None);
    ownership.queue_weather(12);
    assert_eq!(ownership.replace_world(true), Ok(()));
    assert!(ownership.weather.is_empty());
    let mut empty = Ownership::new();
    empty.queue_weather(1);
    assert_eq!(empty.replace_world(true), Err(MissingPlayerIdentity));
    assert!(empty.weather.is_empty() && !empty.world_active);
    assert_eq!(ownership.retain(3), Ok(()));
    assert_eq!(ownership.unhandled, VecDeque::from(vec![1, 2, 3]));
}

#[test]
fn writer_admission_maps_each_outcome() {
    assert_eq!(writer_admission(false, SendOutcome::Sent), Err(TaskEnded));
    assert_eq!(writer_admission(true, SendOutcome::Sent), Ok(true));
    assert_eq!(writer_admission(true, SendOutcome::Full), Ok(false));
    assert_eq!(writer_admission(true, SendOutcome::Closed), Err(TaskEnded));
    assert_eq!(replacement_admitted(true, true), Ok(()));
    assert_eq!(replacement_admitted(false, true), Err(MissingPlayerIdentity));
    assert_eq!(replacement_admitted(true, false), Err(MissingPlayerIdentity));
}
