use solarity_runtime::entity_opacity::EntityOpacityOwner;

#[test]
fn selecting_a_display_publishes_one_fade() {
    let mut owner = EntityOpacityOwner::new();
    assert!(!owner.uses_fade());
    assert!(owner.select_model(10));
    assert!(!owner.select_model(10));
    assert!(owner.has_model(10));
    assert!(!owner.has_model(11));
    assert!(owner.uses_fade());
    assert!(owner.resolve_initial_animation(true));
    assert!(!owner.resolve_initial_animation(true));
    assert!(owner.select_model(11));
    assert!(!owner.resolve_initial_animation(false));
}

#[test]
fn first_removal_time_wins() {
    let mut owner = EntityOpacityOwner::new();
    assert_eq!(owner.retirement(), None);
    owner.set_transport_guid(0xF120_0000_0000_0001);
    owner.mark_removed(500);
    owner.mark_removed(900);
    assert_eq!(owner.retirement(), Some((500, 0xF120_0000_0000_0001)));
}
