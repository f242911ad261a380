use solarity_runtime::world_transfer::{
    abort_difficulty, destination_exists, map_completion, transfer_card, MapCompletion,
    TransferCardError, TransferKind, TransferTransport,
};

#[test]
fn only_map_transfers_need_a_known_destination() {
    assert!(destination_exists(TransferKind::NewWorld { map_id: 1 }, true));
    assert!(!destination_exists(TransferKind::NewWorld { map_id: 9999 }, false));
    assert!(!destination_exists(TransferKind::VerifyWorld { map_id: 9999 }, false));
    assert!(destination_exists(TransferKind::Pending, false));
    assert!(destination_exists(TransferKind::Aborted, false));
}

#[test]
fn dynamic_transport_card_only_for_the_matching_player_transport() {
    let ship = TransferTransport { entry: 176495, source_map_id: 0 };
    assert_eq!(
        transfer_card(Some(ship), Some(176495)),
        Err(TransferCardError::DynamicTransportCard { entry: 176495 })
    );
    assert_eq!(transfer_card(Some(ship), Some(1)), Ok(()));
    assert_eq!(transfer_card(Some(ship), None), Ok(()));
    let no_source = TransferTransport { entry: 176495, source_map_id: u32::MAX };
    assert_eq!(transfer_card(Some(no_source), Some(176495)), Ok(()));
    let no_entry = TransferTransport { entry: 0, source_map_id: 0 };
    assert_eq!(transfer_card(Some(no_entry), Some(0)), Ok(()));
    assert_eq!(transfer_card(None, Some(1)), Ok(()));
}

#[test]
fn difficulty_messages_and_map_completion() {
    assert_eq!(abort_difficulty(8, Some(2)), Some(2));
    assert_eq!(abort_difficulty(8, None), None);
    assert_eq!(abort_difficulty(3, Some(2)), None);
    assert_eq!(map_completion(false, true, true), MapCompletion::Wait);
    assert_eq!(map_completion(true, false, false), MapCompletion::Wait);
    assert_eq!(map_completion(true, true, true), MapCompletion::Acknowledge);
    assert_eq!(map_completion(true, true, false), MapCompletion::Complete);
}
