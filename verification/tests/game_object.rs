use solarity_runtime::game_object::{
    next_request, pending_should_retire, resource_kind, GameObjectResource, ResourceDemand,
    ResourceRequest, RuntimeGameObjectResourceKind, TransportSequenceKeys,
};

fn request(path: &str) -> ResourceRequest {
    ResourceRequest {
        kind: RuntimeGameObjectResourceKind::M2,
        path: path.to_owned(),
    }
}

fn waiting(path: &str) -> ResourceDemand {
    ResourceDemand { has_resource: false, failed: false, request: Some(request(path)) }
}

#[test]
fn display_extension_selects_the_resource_family() {
    assert_eq!(
        resource_kind("WORLD\\WMO\\TRANSPORTS\\SHIP.WMO"),
        Some(RuntimeGameObjectResourceKind::WorldModel)
    );
    assert_eq!(
        resource_kind("WORLD\\GENERIC\\DOOR.M2"),
        Some(RuntimeGameObjectResourceKind::M2)
    );
    assert_eq!(resource_kind("A.MDX"), Some(RuntimeGameObjectResourceKind::M2));
    assert_eq!(resource_kind("A.MDL"), Some(RuntimeGameObjectResourceKind::M2));
    assert_eq!(resource_kind("a.m2"), None);
    assert_eq!(resource_kind("A.BLP"), None);
}

#[test]
fn prepared_resource_reports_its_family() {
    let m2: GameObjectResource<u8, u16> = GameObjectResource::M2(1);
    let wmo: GameObjectResource<u8, u16> = GameObjectResource::WorldModel(2);
    assert_eq!(m2.kind(), RuntimeGameObjectResourceKind::M2);
    assert_eq!(wmo.kind(), RuntimeGameObjectResourceKind::WorldModel);
}

#[test]
fn transport_parent_is_served_first() {
    let loaded = ResourceDemand { has_resource: true, failed: false, request: Some(request("A.M2")) };
    let failed = ResourceDemand { has_resource: false, failed: true, request: Some(request("B.M2")) };
    let none = ResourceDemand { has_resource: false, failed: false, request: None };
    let demands = [loaded, failed, none, waiting("C.M2"), waiting("D.M2")];
    assert_eq!(next_request(&demands, None), Some(3));
    assert_eq!(next_request(&demands, Some(4)), Some(4));
    assert_eq!(next_request(&demands, Some(0)), Some(3));
    assert_eq!(next_request(&demands, Some(9)), Some(3));
    assert_eq!(next_request(&demands[..3], None), None);
}

#[test]
fn pending_generation_is_kept_while_anyone_waits() {
    let demands = [waiting("A.M2"), waiting("B.M2")];
    assert!(!pending_should_retire(true, &request("B.M2"), &demands));
    assert!(pending_should_retire(true, &request("C.M2"), &demands));
    assert!(!pending_should_retire(false, &request("C.M2"), &demands));
    let world_model = ResourceRequest {
        kind: RuntimeGameObjectResourceKind::WorldModel,
        path: "A.M2".to_owned(),
    };
    assert!(pending_should_retire(true, &world_model, &demands));
}

#[test]
fn transport_keys_are_requested_once_per_change() {
    let mut keys = TransportSequenceKeys::new();
    assert_eq!(keys.sequence_id(), None);
    keys.observe(false, Some(3));
    assert_eq!(keys.take_sequence(), None);
    keys.observe(true, Some(3));
    keys.observe(true, Some(3));
    keys.observe(true, Some(4));
    keys.observe(true, None);
    assert_eq!(keys.sequence_id(), Some(4));
    assert_eq!(keys.take_sequence(), Some(3));
    assert_eq!(keys.take_sequence(), Some(4));
    assert_eq!(keys.take_sequence(), None);
    keys.observe(true, Some(5));
    keys.discard_sequences();
    assert_eq!(keys.take_sequence(), None);
    assert_eq!(keys.sequence_id(), Some(5));
    keys.detach_model();
    assert_eq!(keys.sequence_id(), None);
    keys.observe(true, Some(5));
    assert_eq!(keys.take_sequence(), Some(5));
}


use solarity_runtime::game_object::{
    RuntimeTransportPoll, TransportFacts, TransportReadiness, TransportResourceKey,
};

fn facts(resource: u64, placed: bool) -> TransportFacts {
    TransportFacts {
        key: TransportResourceKey { identity: 7, display_id: 3831, resource },
        request: Some(RuntimeGameObjectResourceKind::WorldModel),
        resource: Some(RuntimeGameObjectResourceKind::WorldModel),
        placed,
    }
}

#[test]
fn transport_resource_is_reported_once_then_tracks_placement() {
    let kind = RuntimeGameObjectResourceKind::WorldModel;
    let mut readiness = TransportReadiness::new();
    assert!(readiness.ready);
    assert_eq!(readiness.poll(None, None), RuntimeTransportPoll::Idle);
    assert!(readiness.ready);
    assert_eq!(
        readiness.poll(Some(9), None),
        RuntimeTransportPoll::AwaitingObject { guid: 9 }
    );
    assert!(!readiness.ready);
    let pending = TransportFacts { resource: None, ..facts(1, false) };
    assert_eq!(
        readiness.poll(Some(9), Some(pending)),
        RuntimeTransportPoll::Pending { guid: 9, kind }
    );
    assert!(!readiness.ready);
    assert_eq!(
        readiness.poll(Some(9), Some(facts(1, false))),
        RuntimeTransportPoll::ResourceLoaded { guid: 9, kind }
    );
    assert!(readiness.ready);
    assert_eq!(
        readiness.poll(Some(9), Some(facts(1, false))),
        RuntimeTransportPoll::Current { guid: 9, kind }
    );
    assert_eq!(
        readiness.poll(Some(9), Some(facts(1, true))),
        RuntimeTransportPoll::PlacementChanged { guid: 9, kind }
    );
    assert_eq!(
        readiness.poll(Some(9), Some(facts(1, true))),
        RuntimeTransportPoll::Current { guid: 9, kind }
    );
    assert_eq!(
        readiness.poll(Some(9), Some(facts(2, true))),
        RuntimeTransportPoll::ResourceLoaded { guid: 9, kind }
    );
    let none = TransportFacts { request: None, ..facts(2, true) };
    assert_eq!(
        readiness.poll(Some(9), Some(none)),
        RuntimeTransportPoll::NoResource { guid: 9 }
    );
    assert_eq!(readiness.last, None);
}

#[test]
fn transport_readiness_starts_ready_and_disconnect_restores_it() {
    let mut readiness = TransportReadiness::new();
    assert!(readiness.ready && readiness.last.is_none());
    assert_eq!(
        readiness.poll(Some(9), None),
        RuntimeTransportPoll::AwaitingObject { guid: 9 }
    );
    assert!(!readiness.ready);
    readiness.disconnect();
    assert!(readiness.ready && readiness.last.is_none());
}
