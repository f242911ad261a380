//! Active-world bookkeeping that does not touch the network task itself:
//! the stock wrapping millisecond clock, bounded retention of packets that no
//! subsystem handles yet, and when packet dispatch pauses.

use vstd::prelude::*;

use std::collections::VecDeque;

verus! {

/// Unsupported packets retained for their future owning subsystem.
pub const MAX_RETAINED_UNHANDLED_PACKETS: usize = 4_096;

/// Capacity of the packet channel from the network task.
pub const PACKET_CHANNEL_CAPACITY: usize = 256;

/// Capacity of the command channel to the writer task.
pub const WRITER_CHANNEL_CAPACITY: usize = 32;

/// Interval between client pings, in nanoseconds.
pub const PING_INTERVAL_NANOS: u128 = 30_000_000_000;

/// Stock's millisecond clock is a wrapping 32-bit counter: an elapsed time in
/// nanoseconds becomes its whole milliseconds modulo 2^32.
pub fn duration_millis_u32(elapsed_nanos: u128) -> (millis: u32)
    ensures
        millis as int == (elapsed_nanos as int / 1_000_000) % 0x1_0000_0000,
{
    let m: u128 = elapsed_nanos / 1_000_000;
    (m % 0x1_0000_0000) as u32
}

/// Retains an unsupported packet, failing with the limit once it is reached.
pub fn retain_unhandled<T>(unhandled: &mut std::collections::VecDeque<T>, packet: T) -> (result:
    Result<(), usize>)
    ensures
        old(unhandled)@.len() == MAX_RETAINED_UNHANDLED_PACKETS ==> result == Err::<(), usize>(
            MAX_RETAINED_UNHANDLED_PACKETS,
        ) && final(unhandled)@ == old(unhandled)@,
        old(unhandled)@.len() != MAX_RETAINED_UNHANDLED_PACKETS ==> result == Ok::<(), usize>(())
            && final(unhandled)@ == old(unhandled)@.push(packet),
{
    if unhandled.len() == MAX_RETAINED_UNHANDLED_PACKETS {
        return Err(MAX_RETAINED_UNHANDLED_PACKETS);
    }
    unhandled.push_back(packet);
    Ok(())
}

/// Packet dispatch yields to the composition root while a world transfer, a
/// logout callback or a logged-out session waits to be taken.
pub fn dispatch_paused(transfer_pending: bool, logout_pending: bool, logged_out_pending: bool) -> (paused:
    bool)
    ensures
        paused == (transfer_pending || logout_pending || logged_out_pending),
{
    transfer_pending || logout_pending || logged_out_pending
}

/// What one service call does before draining packets.
#[derive(Clone, Copy, Debug, PartialEq, Eq, Structural)]
pub enum ServiceGate {
    /// Nothing is drained: dispatch is paused or no network task is active.
    Idle,
    /// A network task runs without a world: it is aborted and nothing applies.
    AbortTask,
    /// Drain the packets admitted since the previous frame.
    Drain,
}

/// Whether a service turn drains packets: a waiting transfer, logout or
/// logged-out session pauses dispatch, without a network task there is
/// nothing to drain, and a task without a world is aborted.
pub fn service_gate(paused: bool, task_active: bool, world_active: bool) -> (gate: ServiceGate)
    ensures
        gate == if paused || !task_active {
            ServiceGate::Idle
        } else if !world_active {
            ServiceGate::AbortTask
        } else {
            ServiceGate::Drain
        },
{
    if paused || !task_active {
        ServiceGate::Idle
    } else if !world_active {
        ServiceGate::AbortTask
    } else {
        ServiceGate::Drain
    }
}

/// Player-control facts are reported only while an ECS world is active.
pub fn world_scoped<T>(world_active: bool, value: Option<T>) -> (reported: Option<T>)
    ensures
        reported == if world_active {
            value
        } else {
            None::<T>
        },
{
    if world_active {
        value
    } else {
        None
    }
}

/// The side channels that recognized one world packet.
#[derive(Clone, Copy, Debug, PartialEq, Eq, Structural)]
pub struct PacketClaims {
    pub logout: bool,
    pub world_transfer: bool,
    pub weather: bool,
    pub environmental_damage: bool,
    pub tutorial_flags: bool,
    pub mirror_timer: bool,
    pub creature_query: bool,
    pub game_object_query: bool,
}

/// The owner of one world packet.
#[derive(Clone, Copy, Debug, PartialEq, Eq, Structural)]
pub enum PacketChannel {
    /// A logout update: dispatch pauses until it is taken.
    Logout,
    /// A world transfer: dispatch pauses until it is taken.
    WorldTransfer,
    Weather,
    EnvironmentalDamage,
    TutorialFlags,
    MirrorTimer,
    CreatureQuery,
    GameObjectQuery,
    /// Everything else is dispatched into the ECS world.
    World,
}

/// Packets received while entering the world: the first side channel that
/// claims a packet takes it, in this order.
pub open spec fn spec_setup_packet_channel(c: PacketClaims) -> PacketChannel {
    if c.weather {
        PacketChannel::Weather
    } else if c.environmental_damage {
        PacketChannel::EnvironmentalDamage
    } else if c.tutorial_flags {
        PacketChannel::TutorialFlags
    } else if c.mirror_timer {
        PacketChannel::MirrorTimer
    } else if c.creature_query {
        PacketChannel::CreatureQuery
    } else if c.game_object_query {
        PacketChannel::GameObjectQuery
    } else {
        PacketChannel::World
    }
}

/// Packets of the active world: logout and transfer first, then the side
/// channels (object queries before creature queries), then the world.
pub open spec fn spec_live_packet_channel(c: PacketClaims) -> PacketChannel {
    if c.logout {
        PacketChannel::Logout
    } else if c.world_transfer {
        PacketChannel::WorldTransfer
    } else if c.weather {
        PacketChannel::Weather
    } else if c.environmental_damage {
        PacketChannel::EnvironmentalDamage
    } else if c.tutorial_flags {
        PacketChannel::TutorialFlags
    } else if c.mirror_timer {
        PacketChannel::MirrorTimer
    } else if c.game_object_query {
        PacketChannel::GameObjectQuery
    } else if c.creature_query {
        PacketChannel::CreatureQuery
    } else {
        PacketChannel::World
    }
}

pub fn setup_packet_channel(claims: PacketClaims) -> (channel: PacketChannel)
    ensures
        channel == spec_setup_packet_channel(claims),
{
    if claims.weather {
        PacketChannel::Weather
    } else if claims.environmental_damage {
        PacketChannel::EnvironmentalDamage
    } else if claims.tutorial_flags {
        PacketChannel::TutorialFlags
    } else if claims.mirror_timer {
        PacketChannel::MirrorTimer
    } else if claims.creature_query {
        PacketChannel::CreatureQuery
    } else if claims.game_object_query {
        PacketChannel::GameObjectQuery
    } else {
        PacketChannel::World
    }
}

pub fn live_packet_channel(claims: PacketClaims) -> (channel: PacketChannel)
    ensures
        channel == spec_live_packet_channel(claims),
{
    if claims.logout {
        PacketChannel::Logout
    } else if claims.world_transfer {
        PacketChannel::WorldTransfer
    } else if claims.weather {
        PacketChannel::Weather
    } else if claims.environmental_damage {
        PacketChannel::EnvironmentalDamage
    } else if claims.tutorial_flags {
        PacketChannel::TutorialFlags
    } else if claims.mirror_timer {
        PacketChannel::MirrorTimer
    } else if claims.game_object_query {
        PacketChannel::GameObjectQuery
    } else if claims.creature_query {
        PacketChannel::CreatureQuery
    } else {
        PacketChannel::World
    }
}

/// Whether a live packet counts as an applied world change: every weather
/// update does, a world packet when it changed the world.
pub fn counts_as_applied(channel: PacketChannel, world_changed: bool) -> (applied: bool)
    ensures
        applied == (channel == PacketChannel::Weather || (channel == PacketChannel::World
            && world_changed)),
{
    match channel {
        PacketChannel::Weather => true,
        PacketChannel::World => world_changed,
        _ => false,
    }
}

/// One item taken from the network task's channel.
#[derive(Clone, Copy, Debug, PartialEq, Eq, Structural)]
pub enum Received {
    /// The session logged out and handed back its connection.
    LoggedOut,
    /// A packet was routed to this channel (the world one reporting a change
    /// or not).
    Packet { channel: PacketChannel, world_changed: bool },
    /// A logout packet could not be decoded.
    MalformedLogout,
    /// A world-transfer packet was malformed: it is discarded.
    MalformedTransfer,
    /// Decoding or dispatching failed.
    Failed,
    Empty,
    Disconnected,
}

/// What the drain loop does after one item.
#[derive(Clone, Copy, Debug, PartialEq, Eq, Structural)]
pub enum DrainStep {
    /// Take the next item; `applied` says whether this one counts.
    Next { applied: bool },
    /// Stop draining and keep the network task.
    Pause,
    /// Stop draining: the session ended and its task is dropped.
    LoggedOut,
    /// Abort the task and report the error; the world and its caches stay.
    Abort,
    /// Abort the task and drop the world and its caches.
    Fail,
    /// The task ended: drop the world and its caches.
    Ended,
}

/// What the drain loop does after one item.
pub open spec fn drained(item: Received) -> DrainStep {
    match item {
        Received::LoggedOut => DrainStep::LoggedOut,
        Received::Packet { channel, world_changed } => if channel == PacketChannel::Logout
            || channel == PacketChannel::WorldTransfer {
            DrainStep::Pause
        } else {
            DrainStep::Next {
                applied: channel == PacketChannel::Weather || (channel == PacketChannel::World
                    && world_changed),
            }
        },
        Received::MalformedLogout => DrainStep::Abort,
        Received::MalformedTransfer => DrainStep::Next { applied: false },
        Received::Failed => DrainStep::Fail,
        Received::Empty => DrainStep::Pause,
        Received::Disconnected => DrainStep::Ended,
    }
}

pub fn drain_step(item: Received) -> (step: DrainStep)
    ensures
        step == drained(item),
{
    match item {
        Received::LoggedOut => DrainStep::LoggedOut,
        Received::Packet { channel, world_changed } => match channel {
            PacketChannel::Logout => DrainStep::Pause,
            PacketChannel::WorldTransfer => DrainStep::Pause,
            _ => DrainStep::Next { applied: counts_as_applied(channel, world_changed) },
        },
        Received::MalformedLogout => DrainStep::Abort,
        Received::MalformedTransfer => DrainStep::Next { applied: false },
        Received::Failed => DrainStep::Fail,
        Received::Empty => DrainStep::Pause,
        Received::Disconnected => DrainStep::Ended,
    }
}

/// A logout or transfer claim pre-empts every side channel, and during world
/// entry a packet reaches the world only when no side channel claims it.
pub proof fn law_handoffs_preempt_side_channels(c: PacketClaims)
    ensures
        c.logout ==> spec_live_packet_channel(c) == PacketChannel::Logout,
        !c.logout && c.world_transfer ==> spec_live_packet_channel(c)
            == PacketChannel::WorldTransfer,
        (spec_setup_packet_channel(c) == PacketChannel::World) == !(c.weather
            || c.environmental_damage || c.tutorial_flags || c.mirror_timer || c.creature_query
            || c.game_object_query),
{
}

/// The client's ping liveness on the world connection: each interval sends
/// the next sequence with the last measured round trip; a matching pong
/// measures the round trip of the outstanding ping.
#[derive(Clone, Copy, Debug)]
pub struct PingLiveness {
    pub sequence: u32,
    pub round_time_ms: u32,
    /// The outstanding ping: its sequence and when it was sent (nanoseconds).
    pub pending: Option<(u32, u128)>,
}

/// The state after an interval tick at `now`, and the ping it sends.
pub open spec fn spec_tick(l: PingLiveness, now: u128) -> (PingLiveness, (u32, u32)) {
    let seq = ((l.sequence as int + 1) % 0x1_0000_0000) as u32;
    (PingLiveness { sequence: seq, pending: Some((seq, now)), ..l }, (seq, l.round_time_ms))
}

/// The state after a pong with sequence `received` arrives at `now`.
pub open spec fn spec_pong(l: PingLiveness, received: u32, now: u128) -> PingLiveness {
    match l.pending {
        Some((expected, sent_at)) => if received == expected {
            PingLiveness {
                round_time_ms: (((if now >= sent_at {
                    now - sent_at
                } else {
                    0
                }) / 1_000_000) % 0x1_0000_0000) as u32,
                pending: None,
                ..l
            }
        } else {
            l
        },
        None => l,
    }
}

impl PingLiveness {
    pub fn new() -> (liveness: Self)
        ensures
            liveness.sequence == 0,
            liveness.round_time_ms == 0,
            liveness.pending is None,
    {
        PingLiveness { sequence: 0, round_time_ms: 0, pending: None }
    }

    /// The interval elapsed: returns the ping to send, `(sequence, round
    /// trip)`, with the sequence advanced (wrapping), and records it as
    /// outstanding from `now`.
    pub fn tick(&mut self, now: u128) -> (ping: (u32, u32))
        ensures
            (*final(self), ping) == spec_tick(*old(self), now),
    {
        self.sequence = self.sequence.wrapping_add(1);
        self.pending = Some((self.sequence, now));
        (self.sequence, self.round_time_ms)
    }

    /// A pong arrived at `now`: only the outstanding ping's sequence
    /// measures a round trip (in wrapping milliseconds) and clears it.
    pub fn pong(&mut self, received: u32, now: u128)
        ensures
            *final(self) == spec_pong(*old(self), received, now),
    {
        if let Some((expected, sent_at)) = self.pending {
            if received == expected {
                let elapsed = if now >= sent_at {
                    now - sent_at
                } else {
                    0
                };
                self.round_time_ms = duration_millis_u32(elapsed);
                self.pending = None;
            }
        }
    }
}

/// Where the connection reader sends one received packet.
#[derive(Clone, Copy, Debug, PartialEq, Eq, Structural)]
pub enum ReaderRoute {
    /// The logout completed: stop reading and hand the connection back.
    Handoff,
    /// A pong for the writer's liveness.
    Pong,
    /// A time-sync request for the writer.
    TimeSync,
    /// Everything else goes to the application.
    Application,
}

pub fn reader_route(logout_complete: bool, pong: bool, time_sync: bool) -> (route: ReaderRoute)
    ensures
        route == if logout_complete {
            ReaderRoute::Handoff
        } else if pong {
            ReaderRoute::Pong
        } else if time_sync {
            ReaderRoute::TimeSync
        } else {
            ReaderRoute::Application
        },
{
    if logout_complete {
        ReaderRoute::Handoff
    } else if pong {
        ReaderRoute::Pong
    } else if time_sync {
        ReaderRoute::TimeSync
    } else {
        ReaderRoute::Application
    }
}

/// A pong answers only the latest ping: after a tick, a pong with another
/// sequence changes nothing, and the matching pong measures the round trip
/// since that tick and clears the ping, so a repeated pong changes nothing.
pub proof fn law_pong_answers_latest_ping(l: PingLiveness, now: u128, later: u128, received: u32)
    requires
        later >= now,
    ensures
        ({
            let (ticked, ping) = spec_tick(l, now);
            let answered = spec_pong(ticked, ping.0, later);
            &&& received != ping.0 ==> spec_pong(ticked, received, later) == ticked
            &&& answered.pending is None
            &&& answered.round_time_ms as int == ((later - now) / 1_000_000) % 0x1_0000_0000
            &&& spec_pong(answered, ping.0, later) == answered
        }),
{
}

/// How offering one queued request to the bounded writer channel went.
#[derive(Clone, Copy, Debug, PartialEq, Eq, Structural)]
pub enum SendOutcome {
    Sent,
    /// The channel is full: the request stays queued for a later frame.
    Full,
    /// The writer task ended.
    Closed,
}

/// The writer task ended while requests were being admitted.
#[derive(Clone, Copy, Debug, PartialEq, Eq, Structural)]
pub struct TaskEnded;

/// Offering one message (a transfer acknowledgement, a movement, an area
/// trigger or another action) to the writer: without an active writer, or
/// when the writer ended, the task has ended; a full channel is
/// backpressure, and the caller keeps the message for a later frame.
pub fn writer_admission(writer_active: bool, outcome: SendOutcome) -> (admitted: Result<
    bool,
    TaskEnded,
>)
    ensures
        admitted == if !writer_active {
            Err::<bool, TaskEnded>(TaskEnded)
        } else {
            match outcome {
                SendOutcome::Sent => Ok::<bool, TaskEnded>(true),
                SendOutcome::Full => Ok::<bool, TaskEnded>(false),
                SendOutcome::Closed => Err::<bool, TaskEnded>(TaskEnded),
            }
        },
{
    if !writer_active {
        return Err(TaskEnded);
    }
    match outcome {
        SendOutcome::Sent => Ok(true),
        SendOutcome::Full => Ok(false),
        SendOutcome::Closed => Err(TaskEnded),
    }
}

/// A gameplay session is already active, or its world still exists.
#[derive(Clone, Copy, Debug, PartialEq, Eq, Structural)]
pub struct AlreadyActive;

/// The local player's identity is missing from the world.
#[derive(Clone, Copy, Debug, PartialEq, Eq, Structural)]
pub struct MissingPlayerIdentity;

/// A world can replace the current one for a map transfer only when a world
/// exists and the local player has an identity in it.
pub fn replacement_admitted(world_active: bool, player_identified: bool) -> (admitted: Result<
    (),
    MissingPlayerIdentity,
>)
    ensures
        admitted is Ok <==> (world_active && player_identified),
{
    if world_active && player_identified {
        Ok(())
    } else {
        Err(MissingPlayerIdentity)
    }
}

/// What the gameplay coordinator owns: the network task, the ECS world and
/// the state derived from it (player control, realm clock, action buttons),
/// the unhandled packets `P` retained for later owners, the weather updates
/// `W` waiting for the environment, and what waits to be taken by the
/// composition root.
pub struct GameplayOwnership<P, W> {
    pub task_active: bool,
    pub world_active: bool,
    pub player_control: bool,
    pub realm_clock: bool,
    pub action_buttons: bool,
    pub transfer_pending: bool,
    pub logout_pending: bool,
    pub logged_out_pending: bool,
    pub unhandled: VecDeque<P>,
    pub weather: VecDeque<W>,
}

impl<P, W> GameplayOwnership<P, W> {
    /// Nothing is owned and nothing waits.
    pub open spec fn is_released(&self) -> bool {
        &&& !self.task_active
        &&& !self.world_active
        &&& !self.player_control
        &&& !self.realm_clock
        &&& !self.action_buttons
        &&& !self.transfer_pending
        &&& !self.logout_pending
        &&& !self.logged_out_pending
        &&& self.unhandled@.len() == 0
        &&& self.weather@.len() == 0
    }

    /// `self` is `before` with the network task (`task`) and the pending
    /// flags as given, everything else kept.
    pub open spec fn keeps_world_of(&self, before: &Self) -> bool {
        &&& self.world_active == before.world_active
        &&& self.player_control == before.player_control
        &&& self.realm_clock == before.realm_clock
        &&& self.action_buttons == before.action_buttons
        &&& self.unhandled@ == before.unhandled@
        &&& self.weather@ == before.weather@
    }

    pub open spec fn keeps_pending_of(&self, before: &Self) -> bool {
        &&& self.transfer_pending == before.transfer_pending
        &&& self.logout_pending == before.logout_pending
        &&& self.logged_out_pending == before.logged_out_pending
    }

    /// A failure or the end of the task: the world, its clock, buttons,
    /// retained packets and weather queue are dropped with the task; no
    /// partially updated world is retained.
    pub open spec fn dropped_world_of(&self, before: &Self) -> bool {
        &&& !self.task_active
        &&& !self.world_active
        &&& !self.realm_clock
        &&& !self.action_buttons
        &&& self.unhandled@.len() == 0
        &&& self.weather@.len() == 0
        &&& self.player_control == before.player_control
        &&& self.keeps_pending_of(before)
    }

    pub fn new() -> (ownership: Self)
        ensures
            ownership.is_released(),
    {
        GameplayOwnership {
            task_active: false,
            world_active: false,
            player_control: false,
            realm_clock: false,
            action_buttons: false,
            transfer_pending: false,
            logout_pending: false,
            logged_out_pending: false,
            unhandled: VecDeque::new(),
            weather: VecDeque::new(),
        }
    }

    /// Entering the world is refused while a task or a world is owned;
    /// otherwise the task, the world and player control are owned, with the
    /// realm clock, action buttons, retained packets and weather updates that
    /// the setup packets produced.
    pub fn begin(
        &mut self,
        realm_clock: bool,
        action_buttons: bool,
        retained: VecDeque<P>,
        weather: VecDeque<W>,
    ) -> (begun: Result<(), AlreadyActive>)
        ensures
            (old(self).task_active || old(self).world_active) ==> begun == Err::<(), AlreadyActive>(
                AlreadyActive,
            ) && *final(self) == *old(self),
            !(old(self).task_active || old(self).world_active) ==> {
                &&& begun == Ok::<(), AlreadyActive>(())
                &&& final(self).task_active && final(self).world_active
                    && final(self).player_control
                &&& final(self).realm_clock == realm_clock
                &&& final(self).action_buttons == action_buttons
                &&& final(self).unhandled@ == retained@
                &&& final(self).weather@ == weather@
                &&& final(self).keeps_pending_of(old(self))
            },
    {
        if self.task_active || self.world_active {
            return Err(AlreadyActive);
        }
        self.task_active = true;
        self.world_active = true;
        self.player_control = true;
        self.realm_clock = realm_clock;
        self.action_buttons = action_buttons;
        self.unhandled = retained;
        self.weather = weather;
        Ok(())
    }

    /// Whether this frame's service drains packets.
    pub fn service_gate(&self) -> (gate: ServiceGate)
        ensures
            gate == if self.transfer_pending || self.logout_pending || self.logged_out_pending
                || !self.task_active {
                ServiceGate::Idle
            } else if !self.world_active {
                ServiceGate::AbortTask
            } else {
                ServiceGate::Drain
            },
    {
        service_gate(
            dispatch_paused(self.transfer_pending, self.logout_pending, self.logged_out_pending),
            self.task_active,
            self.world_active,
        )
    }

    /// Applies one item taken from the network task's channel and returns
    /// what the drain loop does next. A `Fail` or `Ended` step returns its
    /// error to the caller.
    pub fn receive(&mut self, item: Received) -> (step: DrainStep)
        ensures
            step == drained(item),
            match item {
                Received::LoggedOut => {
                    &&& !final(self).task_active
                    &&& final(self).logged_out_pending
                    &&& final(self).keeps_world_of(old(self))
                    &&& final(self).transfer_pending == old(self).transfer_pending
                    &&& final(self).logout_pending == old(self).logout_pending
                },
                Received::Packet { channel, .. } => {
                    &&& final(self).task_active == old(self).task_active
                    &&& final(self).keeps_world_of(old(self))
                    &&& final(self).logout_pending == (old(self).logout_pending || channel
                        == PacketChannel::Logout)
                    &&& final(self).transfer_pending == (old(self).transfer_pending || channel
                        == PacketChannel::WorldTransfer)
                    &&& final(self).logged_out_pending == old(self).logged_out_pending
                },
                Received::MalformedLogout => {
                    &&& !final(self).task_active
                    &&& final(self).keeps_world_of(old(self))
                    &&& final(self).keeps_pending_of(old(self))
                },
                Received::Failed => final(self).dropped_world_of(old(self)),
                Received::Disconnected => final(self).dropped_world_of(old(self)),
                _ => {
                    &&& final(self).task_active == old(self).task_active
                    &&& final(self).keeps_world_of(old(self))
                    &&& final(self).keeps_pending_of(old(self))
                },
            },
    {
        let step = drain_step(item);
        match item {
            Received::LoggedOut => {
                self.task_active = false;
                self.logged_out_pending = true;
            },
            Received::Packet { channel, .. } => match channel {
                PacketChannel::Logout => {
                    self.logout_pending = true;
                },
                PacketChannel::WorldTransfer => {
                    self.transfer_pending = true;
                },
                _ => {},
            },
            Received::MalformedLogout => {
                self.task_active = false;
            },
            Received::Failed => {
                self.drop_world();
            },
            Received::Disconnected => {
                self.drop_world();
            },
            _ => {},
        }
        step
    }

    fn drop_world(&mut self)
        ensures
            final(self).dropped_world_of(old(self)),
    {
        self.task_active = false;
        self.world_active = false;
        self.realm_clock = false;
        self.action_buttons = false;
        self.unhandled.clear();
        self.weather.clear();
    }

    /// A weather update waits for the environment.
    pub fn queue_weather(&mut self, update: W)
        ensures
            final(self).weather@ == old(self).weather@.push(update),
            final(self).task_active == old(self).task_active,
            final(self).world_active == old(self).world_active,
            final(self).unhandled@ == old(self).unhandled@,
    {
        self.weather.push_back(update);
    }

    /// The oldest waiting weather update.
    pub fn take_weather(&mut self) -> (update: Option<W>)
        ensures
            old(self).weather@.len() == 0 ==> update is None && final(self).weather@ == old(
                self,
            ).weather@,
            old(self).weather@.len() > 0 ==> update == Some(old(self).weather@[0])
                && final(self).weather@ == old(self).weather@.drop_first(),
    {
        self.weather.pop_front()
    }

    /// Retains a packet no subsystem handles yet, within the limit.
    pub fn retain(&mut self, packet: P) -> (result: Result<(), usize>)
        ensures
            old(self).unhandled@.len() == MAX_RETAINED_UNHANDLED_PACKETS ==> result == Err::<
                (),
                usize,
            >(MAX_RETAINED_UNHANDLED_PACKETS) && final(self).unhandled@ == old(self).unhandled@,
            old(self).unhandled@.len() != MAX_RETAINED_UNHANDLED_PACKETS ==> result == Ok::<
                (),
                usize,
            >(()) && final(self).unhandled@ == old(self).unhandled@.push(packet),
            final(self).weather@ == old(self).weather@,
    {
        retain_unhandled(&mut self.unhandled, packet)
    }

    /// Replaces the world for a map transfer. Pending weather updates are
    /// discarded first, whether or not the replacement is admitted; it is
    /// refused without a world or without the local player's identity, and
    /// then the world stays as it was.
    pub fn replace_world(&mut self, player_identified: bool) -> (replaced: Result<
        (),
        MissingPlayerIdentity,
    >)
        ensures
            final(self).weather@.len() == 0,
            replaced is Ok <==> (old(self).world_active && player_identified),
            final(self).world_active == old(self).world_active,
            final(self).player_control == (old(self).player_control || replaced is Ok),
            final(self).task_active == old(self).task_active,
            final(self).realm_clock == old(self).realm_clock,
            final(self).action_buttons == old(self).action_buttons,
            final(self).unhandled@ == old(self).unhandled@,
            final(self).keeps_pending_of(old(self)),
    {
        self.weather.clear();
        let replaced = replacement_admitted(self.world_active, player_identified);
        if replaced.is_ok() {
            self.player_control = true;
        }
        replaced
    }

    /// Aborts packet I/O and drops everything owned; returns whether a task
    /// was aborted. A second disconnect changes nothing.
    pub fn disconnect(&mut self) -> (aborted: bool)
        ensures
            aborted == old(self).task_active,
            final(self).is_released(),
            old(self).is_released() ==> !aborted,
    {
        let aborted = self.task_active;
        self.task_active = false;
        self.world_active = false;
        self.player_control = false;
        self.realm_clock = false;
        self.action_buttons = false;
        self.transfer_pending = false;
        self.logout_pending = false;
        self.logged_out_pending = false;
        self.unhandled.clear();
        self.weather.clear();
        aborted
    }
}

/// Applies the outcome of offering the front of `queue` (template, name and
/// corpse queries): a sent request leaves the queue and the next is offered;
/// backpressure keeps it and stops; a closed channel is an error. Returns
/// whether to offer the next request.
pub fn admit_front<T>(queue: &mut std::collections::VecDeque<T>, outcome: SendOutcome) -> (next:
    Result<bool, TaskEnded>)
    requires
        old(queue)@.len() > 0,
    ensures
        match outcome {
            SendOutcome::Sent => next == Ok::<bool, TaskEnded>(final(queue)@.len() > 0)
                && final(queue)@ == old(queue)@.drop_first(),
            SendOutcome::Full => next == Ok::<bool, TaskEnded>(false) && final(queue)@ == old(
                queue,
            )@,
            SendOutcome::Closed => next == Err::<bool, TaskEnded>(TaskEnded) && final(queue)@
                == old(queue)@,
        },
{
    match outcome {
        SendOutcome::Sent => {
            let _sent = queue.pop_front();
            proof {
                assert(queue@ =~= old(queue)@.drop_first());
            }
            Ok(queue.len() > 0)
        },
        SendOutcome::Full => Ok(false),
        SendOutcome::Closed => Err(TaskEnded),
    }
}

/// The retained queue after offering `packets` in order, each as
/// `retain_unhandled` keeps or refuses it.
pub open spec fn retained<T>(queue: Seq<T>, packets: Seq<T>) -> Seq<T>
    decreases packets.len(),
{
    if packets.len() == 0 {
        queue
    } else {
        let before = retained(queue, packets.drop_last());
        if before.len() == MAX_RETAINED_UNHANDLED_PACKETS {
            before
        } else {
            before.push(packets.last())
        }
    }
}

/// The retained queue never exceeds the limit: offering packets to a queue
/// within the limit keeps the earliest ones until it is full, and refuses
/// the rest.
pub proof fn law_unhandled_queue_is_bounded<T>(queue: Seq<T>, packets: Seq<T>)
    requires
        queue.len() <= MAX_RETAINED_UNHANDLED_PACKETS,
    ensures
        ({
            let kept = if queue.len() + packets.len() <= MAX_RETAINED_UNHANDLED_PACKETS {
                packets.len() as int
            } else {
                MAX_RETAINED_UNHANDLED_PACKETS - queue.len()
            };
            retained(queue, packets) == queue + packets.take(kept)
        }),
    decreases packets.len(),
{
    if packets.len() > 0 {
        law_unhandled_queue_is_bounded(queue, packets.drop_last());
        let n = packets.len() as int;
        if queue.len() + n <= MAX_RETAINED_UNHANDLED_PACKETS {
            assert(packets.drop_last().take(n - 1).push(packets.last()) =~= packets.take(n));
            assert((queue + packets.drop_last().take(n - 1)).push(packets.last()) =~= queue
                + packets.take(n));
        } else {
            let k = MAX_RETAINED_UNHANDLED_PACKETS - queue.len();
            assert(packets.drop_last().take(k) =~= packets.take(k));
        }
    }
}

} // verus!
