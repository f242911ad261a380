//! Visible GameObject resource admission: the resource family of a display
//! path, the scheduling order of resource requests, withdrawal of unneeded
//! preparation, and transport animation key requests.

use vstd::prelude::*;

use crate::search::{first_from, lemma_first_from, lemma_first_from_unique};
use crate::text::{ends_with, str_ends_with, str_equal};

verus! {

/// Resource family selected by one `GameObjectDisplayInfo.dbc` row.
#[derive(Clone, Copy, Debug, PartialEq, Eq, Structural, Hash)]
pub enum RuntimeGameObjectResourceKind {
    /// An M2, MDX, or MDL generation with its primary SKIN profile.
    M2,
    /// A root WMO with every numbered group.
    WorldModel,
}

/// Observable result of synchronizing the controlled player's transport parent.
#[derive(Clone, Copy, Debug, PartialEq, Eq, Structural)]
pub enum RuntimeTransportPoll {
    /// No active world or transport relationship exists.
    Idle,
    /// The movement relationship names an object that has not entered the world.
    AwaitingObject { guid: u64 },
    /// The admitted object owns no supported display resource.
    NoResource { guid: u64 },
    /// The exact display generation is being prepared by the CPU worker pool.
    Pending { guid: u64, kind: RuntimeGameObjectResourceKind },
    /// A new M2 or WMO generation and its texture inputs became resident.
    ResourceLoaded { guid: u64, kind: RuntimeGameObjectResourceKind },
    /// The previously admitted resource generation remains current.
    Current { guid: u64, kind: RuntimeGameObjectResourceKind },
    /// The retained resource's placement became available or unavailable.
    PlacementChanged { guid: u64, kind: RuntimeGameObjectResourceKind },
}

/// The resource family named by a display path's (upper-case) extension.
pub open spec fn spec_resource_kind(path: Seq<char>) -> Option<RuntimeGameObjectResourceKind> {
    if ends_with(path, ".WMO"@) {
        Some(RuntimeGameObjectResourceKind::WorldModel)
    } else if ends_with(path, ".M2"@) || ends_with(path, ".MDX"@) || ends_with(path, ".MDL"@) {
        Some(RuntimeGameObjectResourceKind::M2)
    } else {
        None
    }
}

pub fn resource_kind(path: &str) -> (kind: Option<RuntimeGameObjectResourceKind>)
    ensures
        kind == spec_resource_kind(path@),
{
    if str_ends_with(path, ".WMO") {
        Some(RuntimeGameObjectResourceKind::WorldModel)
    } else if str_ends_with(path, ".M2") || str_ends_with(path, ".MDX") || str_ends_with(
        path,
        ".MDL",
    ) {
        Some(RuntimeGameObjectResourceKind::M2)
    } else {
        None
    }
}

/// Immutable CPU preparation of one resource family.
pub enum GameObjectResource<M, W> {
    M2(M),
    WorldModel(W),
}

impl<M, W> GameObjectResource<M, W> {
    pub fn kind(&self) -> (kind: RuntimeGameObjectResourceKind)
        ensures
            kind == match self {
                GameObjectResource::M2(_) => RuntimeGameObjectResourceKind::M2,
                GameObjectResource::WorldModel(_) => RuntimeGameObjectResourceKind::WorldModel,
            },
    {
        match self {
            GameObjectResource::M2(_) => RuntimeGameObjectResourceKind::M2,
            GameObjectResource::WorldModel(_) => RuntimeGameObjectResourceKind::WorldModel,
        }
    }
}

/// The exact display resource an object requests.
#[derive(Clone, Debug)]
pub struct ResourceRequest {
    pub kind: RuntimeGameObjectResourceKind,
    pub path: String,
}

/// What one admitted object still needs from resource preparation.
#[derive(Clone, Debug)]
pub struct ResourceDemand {
    pub has_resource: bool,
    pub failed: bool,
    pub request: Option<ResourceRequest>,
}

/// An object that has a request, no resource yet, and no failure.
pub open spec fn needs_resource(d: ResourceDemand) -> bool {
    !d.has_resource && !d.failed && d.request is Some
}

/// The object whose request is prepared next: the transport parent when it
/// needs its resource, otherwise the first object that needs one.
pub open spec fn spec_next_request(demands: Seq<ResourceDemand>, transport: Option<usize>) -> Option<
    int,
> {
    match transport {
        Some(t) if (t as int) < demands.len() && needs_resource(demands[t as int]) => Some(t as int),
        _ => {
            let k = first_from(demands, 0, |d: ResourceDemand| needs_resource(d));
            if k < demands.len() {
                Some(k)
            } else {
                None
            }
        },
    }
}

pub fn next_request(demands: &[ResourceDemand], transport: Option<usize>) -> (index: Option<usize>)
    ensures
        match index {
            Some(i) => spec_next_request(demands@, transport) == Some(i as int),
            None => spec_next_request(demands@, transport) is None,
        },
{
    if let Some(t) = transport {
        if t < demands.len() && !demands[t].has_resource && !demands[t].failed
            && demands[t].request.is_some() {
            return Some(t);
        }
    }
    let ghost p = |d: ResourceDemand| needs_resource(d);
    let mut i: usize = 0;
    while i < demands.len() && !(!demands[i].has_resource && !demands[i].failed
        && demands[i].request.is_some())
        invariant
            0 <= i <= demands@.len(),
            p == (|d: ResourceDemand| needs_resource(d)),
            forall|j: int| 0 <= j < i ==> !p(#[trigger] demands@[j]),
        decreases demands@.len() - i,
    {
        i += 1;
    }
    proof {
        lemma_first_from_unique(demands@, 0, i as int, p);
    }
    if i < demands.len() {
        Some(i)
    } else {
        None
    }
}

pub open spec fn same_request(a: ResourceRequest, b: ResourceRequest) -> bool {
    a.kind == b.kind && a.path@ == b.path@
}

/// The object lacks its resource, has not failed, and requests `request`.
pub open spec fn waits_for(d: ResourceDemand, request: ResourceRequest) -> bool {
    &&& !d.has_resource
    &&& !d.failed
    &&& match d.request {
        Some(r) => same_request(r, request),
        None => false,
    }
}

/// Some object still waits for exactly this request.
pub open spec fn still_demanded(demands: Seq<ResourceDemand>, request: ResourceRequest) -> bool {
    exists|i: int| 0 <= i < demands.len() && waits_for(#[trigger] demands[i], request)
}

fn request_equal(a: &ResourceRequest, b: &ResourceRequest) -> (equal: bool)
    ensures
        equal == same_request(*a, *b),
{
    a.kind == b.kind && str_equal(a.path.as_str(), b.path.as_str())
}

/// Membership publication withdraws an eligible pending generation that no
/// surviving object still waits for.
pub fn pending_should_retire(eligible: bool, request: &ResourceRequest, demands: &[ResourceDemand]) -> (retire:
    bool)
    ensures
        retire == (eligible && !still_demanded(demands@, *request)),
{
    if !eligible {
        return false;
    }
    let mut i: usize = 0;
    while i < demands.len()
        invariant
            0 <= i <= demands@.len(),
            forall|j: int| 0 <= j < i ==> !waits_for(#[trigger] demands@[j], *request),
        decreases demands@.len() - i,
    {
        let d = &demands[i];
        if !d.has_resource && !d.failed {
            if let Some(r) = &d.request {
                if request_equal(r, request) {
                    return false;
                }
            }
        }
        i += 1;
    }
    true
}

/// Key sentinel of a fresh dedicated map-model handle.
pub const SEQUENCE_SENTINEL: u32 = 0x1fa;

/// Animation key requests of a transport's dedicated map-model handle: a key
/// change is queued once, in order, and only while the handle is ready.
pub struct TransportSequenceKeys {
    sequence_id: u32,
    selected: Option<u32>,
    pending: Vec<u32>,
}

impl TransportSequenceKeys {
    pub closed spec fn current(&self) -> u32 {
        self.sequence_id
    }

    pub closed spec fn selected(&self) -> Option<u32> {
        self.selected
    }

    pub closed spec fn queued(&self) -> Seq<u32> {
        self.pending@
    }

    pub fn new() -> (keys: Self)
        ensures
            keys.current() == SEQUENCE_SENTINEL,
            keys.selected() is None,
            keys.queued() == Seq::<u32>::empty(),
    {
        TransportSequenceKeys { sequence_id: SEQUENCE_SENTINEL, selected: None, pending: Vec::new() }
    }

    /// Records the key a sample selected; only a ready map model with a
    /// changed key queues a request.
    pub fn observe(&mut self, map_model_ready: bool, sample_sequence: Option<u32>)
        ensures
            match sample_sequence {
                Some(s) if map_model_ready && old(self).current() != s => {
                    &&& final(self).current() == s
                    &&& final(self).selected() == Some(s)
                    &&& final(self).queued() == old(self).queued().push(s)
                },
                _ => final(self).current() == old(self).current() && final(self).selected()
                    == old(self).selected() && final(self).queued() == old(self).queued(),
            },
    {
        if map_model_ready {
            if let Some(s) = sample_sequence {
                if self.sequence_id != s {
                    self.sequence_id = s;
                    self.selected = Some(s);
                    self.pending.push(s);
                }
            }
        }
    }

    /// The most recently selected key.
    pub fn sequence_id(&self) -> (key: Option<u32>)
        ensures
            key == self.selected(),
    {
        self.selected
    }

    /// Recreating a dedicated model handle resets the key sentinel.
    pub fn detach_model(&mut self)
        ensures
            final(self).current() == SEQUENCE_SENTINEL,
            final(self).selected() is None,
            final(self).queued() == Seq::<u32>::empty(),
    {
        self.sequence_id = SEQUENCE_SENTINEL;
        self.selected = None;
        self.pending = Vec::new();
    }

    /// Takes the oldest queued key request.
    pub fn take_sequence(&mut self) -> (key: Option<u32>)
        ensures
            final(self).current() == old(self).current(),
            final(self).selected() == old(self).selected(),
            if old(self).queued().len() > 0 {
                key == Some(old(self).queued()[0]) && final(self).queued() == old(
                    self,
                ).queued().drop_first()
            } else {
                key is None && final(self).queued() == old(self).queued()
            },
    {
        if self.pending.len() > 0 {
            Some(self.pending.remove(0))
        } else {
            None
        }
    }

    /// WMO handles have no CM2Model sequence timer to receive these requests.
    pub fn discard_sequences(&mut self)
        ensures
            final(self).current() == old(self).current(),
            final(self).selected() == old(self).selected(),
            final(self).queued() == Seq::<u32>::empty(),
    {
        self.pending = Vec::new();
    }
}

/// What distinguishes one admitted transport resource: the object's
/// identity, its display and the resource generation (caller-assigned keys).
#[derive(Clone, Copy, Debug, PartialEq, Eq, Structural)]
pub struct TransportResourceKey {
    pub identity: u64,
    pub display_id: u32,
    pub resource: u64,
}

/// What the controlled player's transport parent currently has.
#[derive(Clone, Copy, Debug, PartialEq, Eq, Structural)]
pub struct TransportFacts {
    pub key: TransportResourceKey,
    /// The family of its display request, if it has one.
    pub request: Option<RuntimeGameObjectResourceKind>,
    /// The family of its resident resource, if any.
    pub resource: Option<RuntimeGameObjectResourceKind>,
    /// Whether its map placement is available.
    pub placed: bool,
}

/// A reported transport resource and whether it was placed.
#[derive(Clone, Copy, Debug, PartialEq, Eq, Structural)]
pub struct ReportedTransport {
    pub key: TransportResourceKey,
    pub placed: bool,
}

/// The transport resource last reported, and whether the transport is
/// ready.
#[derive(Clone, Copy, Debug, PartialEq, Eq, Structural)]
pub struct TransportReadiness {
    pub last: Option<ReportedTransport>,
    pub ready: bool,
}

pub open spec fn spec_transport_poll(
    last: Option<ReportedTransport>,
    guid: Option<u64>,
    instance: Option<TransportFacts>,
) -> RuntimeTransportPoll {
    match guid {
        None => RuntimeTransportPoll::Idle,
        Some(guid) => match instance {
            None => RuntimeTransportPoll::AwaitingObject { guid },
            Some(facts) => match facts.request {
                None => RuntimeTransportPoll::NoResource { guid },
                Some(request_kind) => match facts.resource {
                    None => RuntimeTransportPoll::Pending { guid, kind: request_kind },
                    Some(kind) => match last {
                        Some(r) if r.key == facts.key => if r.placed != facts.placed {
                            RuntimeTransportPoll::PlacementChanged { guid, kind }
                        } else {
                            RuntimeTransportPoll::Current { guid, kind }
                        },
                        _ => RuntimeTransportPoll::ResourceLoaded { guid, kind },
                    },
                },
            },
        },
    }
}

/// The readiness after a poll: a transport that exists but waits for its
/// object or resource is not ready; the reported resource is remembered
/// when it is new or its placement changed, and forgotten when there is
/// none.
pub open spec fn spec_transport_readiness(
    before: TransportReadiness,
    poll: RuntimeTransportPoll,
    instance: Option<TransportFacts>,
) -> TransportReadiness {
    TransportReadiness {
        ready: !(poll is AwaitingObject || poll is Pending),
        last: match poll {
            RuntimeTransportPoll::ResourceLoaded { .. } => match instance {
                Some(f) => Some(ReportedTransport { key: f.key, placed: f.placed }),
                None => before.last,
            },
            RuntimeTransportPoll::PlacementChanged { .. } => match instance {
                Some(f) => Some(ReportedTransport { key: f.key, placed: f.placed }),
                None => before.last,
            },
            RuntimeTransportPoll::Current { .. } => before.last,
            _ => None,
        },
    }
}

impl TransportReadiness {
    /// Nothing reported yet, and ready: no transport waits.
    pub fn new() -> (readiness: Self)
        ensures
            readiness.last is None,
            readiness.ready,
    {
        TransportReadiness { last: None, ready: true }
    }

    /// The world went away: nothing is reported and nothing waits.
    pub fn disconnect(&mut self)
        ensures
            final(self).last is None,
            final(self).ready,
    {
        self.last = None;
        self.ready = true;
    }

    /// Reports the transport parent's resource state and records what was
    /// reported.
    pub fn poll(&mut self, guid: Option<u64>, instance: Option<TransportFacts>) -> (poll:
        RuntimeTransportPoll)
        ensures
            poll == spec_transport_poll(old(self).last, guid, instance),
            *final(self) == spec_transport_readiness(*old(self), poll, instance),
    {
        let poll = match guid {
            None => RuntimeTransportPoll::Idle,
            Some(guid) => match instance {
                None => RuntimeTransportPoll::AwaitingObject { guid },
                Some(facts) => match facts.request {
                    None => RuntimeTransportPoll::NoResource { guid },
                    Some(request_kind) => match facts.resource {
                        None => RuntimeTransportPoll::Pending { guid, kind: request_kind },
                        Some(kind) => {
                            let current = match self.last {
                                Some(r) => r.key == facts.key,
                                None => false,
                            };
                            if !current {
                                self.last = Some(
                                    ReportedTransport { key: facts.key, placed: facts.placed },
                                );
                                RuntimeTransportPoll::ResourceLoaded { guid, kind }
                            } else {
                                let moved = match self.last {
                                    Some(r) => r.placed != facts.placed,
                                    None => false,
                                };
                                if moved {
                                    self.last = Some(
                                        ReportedTransport { key: facts.key, placed: facts.placed },
                                    );
                                    RuntimeTransportPoll::PlacementChanged { guid, kind }
                                } else {
                                    RuntimeTransportPoll::Current { guid, kind }
                                }
                            }
                        },
                    },
                },
            },
        };
        self.ready = match poll {
            RuntimeTransportPoll::AwaitingObject { .. } => false,
            RuntimeTransportPoll::Pending { .. } => false,
            _ => true,
        };
        match poll {
            RuntimeTransportPoll::Idle => {
                self.last = None;
            },
            RuntimeTransportPoll::AwaitingObject { .. } => {
                self.last = None;
            },
            RuntimeTransportPoll::NoResource { .. } => {
                self.last = None;
            },
            RuntimeTransportPoll::Pending { .. } => {
                self.last = None;
            },
            _ => {},
        }
        poll
    }
}

/// A loaded transport resource is reported once: polling the same facts
/// again reports it as current.
pub proof fn law_transport_resource_reported_once(
    before: TransportReadiness,
    guid: u64,
    facts: TransportFacts,
)
    requires
        facts.request is Some,
        facts.resource is Some,
    ensures
        ({
            let first = spec_transport_poll(before.last, Some(guid), Some(facts));
            let after = spec_transport_readiness(before, first, Some(facts));
            let second = spec_transport_poll(after.last, Some(guid), Some(facts));
            &&& after.ready
            &&& second == (RuntimeTransportPoll::Current { guid, kind: facts.resource->0 })
        }),
{
}

/// A prepared generation is withdrawn only when nobody waits for it: while
/// some object lacking a resource still requests it, it is kept.
pub proof fn law_demanded_generation_is_kept(demands: Seq<ResourceDemand>, request: ResourceRequest, i: int)
    requires
        0 <= i < demands.len(),
        waits_for(demands[i], request),
    ensures
        still_demanded(demands, request),
{
}

/// The transport parent is served before every other object that needs a
/// resource; otherwise requests are served in admission order.
pub proof fn law_transport_request_first(demands: Seq<ResourceDemand>, t: usize)
    requires
        (t as int) < demands.len(),
        needs_resource(demands[t as int]),
    ensures
        spec_next_request(demands, Some(t)) == Some(t as int),
        spec_next_request(demands, None) matches Some(k) && k <= t && needs_resource(demands[k]),
{
    lemma_first_from(demands, 0, |d: ResourceDemand| needs_resource(d));
    let k = first_from(demands, 0, |d: ResourceDemand| needs_resource(d));
    if k > t {
        assert(!(|d: ResourceDemand| needs_resource(d))(demands[t as int]));
    }
}

} // verus!
