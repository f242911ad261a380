use solarity_runtime::character_directory::{
    active_player_is_ready, background_race_id, default_language, location_areas, lua_sex,
    missing_active_fact, player_faction_group, player_level, project_character,
    project_directory, ui_power_type, zone_state, ActivePlayerFacts, AreaRow, CharacterGender,
    CharacterKeys, CharacterProjectionError, ClassRow, LocationAreas, RaceRow, UiFactionGroup,
    UiUnitPowerType, WorldModelAreaRow,
};

fn races() -> Vec<RaceRow> {
    [(1, "Human", "Human"), (2, "Orc", "Orc"), (3, "Dwarf", "Dwarf"), (7, "Gnome", "Gnome")]
        .into_iter()
        .map(|(id, name, file)| RaceRow {
            id,
            name: name.to_owned(),
            client_file_string: file.to_owned(),
        })
        .collect()
}

fn classes() -> Vec<ClassRow> {
    [(1, "Warrior", "WARRIOR"), (6, "Death Knight", "DEATHKNIGHT")]
        .into_iter()
        .map(|(id, name, file)| ClassRow {
            id,
            name: name.to_owned(),
            file_string: file.to_owned(),
        })
        .collect()
}

fn areas() -> Vec<AreaRow> {
    [(12, 0, "Elwynn Forest"), (87, 12, "Goldshire"), (99, 500, "Orphan")]
        .into_iter()
        .map(|(id, parent_area_id, name)| AreaRow {
            id,
            parent_area_id,
            name: name.to_owned(),
        })
        .collect()
}

#[test]
fn gnome_and_troll_share_dwarf_and_orc_backdrops() {
    assert_eq!(background_race_id(7), 3);
    assert_eq!(background_race_id(8), 2);
    assert_eq!(background_race_id(1), 1);
}

#[test]
fn lua_sex_constants() {
    assert_eq!(lua_sex(CharacterGender::Male), 2);
    assert_eq!(lua_sex(CharacterGender::Female), 3);
    assert_eq!(lua_sex(CharacterGender::Unset), 1);
}

#[test]
fn projects_labels_through_the_catalogs() {
    let keys = CharacterKeys { race_id: 7, class_id: 1, area_id: 87 };
    let labels = project_character(keys, &races(), &classes(), &areas()).unwrap();
    assert_eq!(labels.race_name, "Gnome");
    assert_eq!(labels.background_model, "Dwarf");
    assert_eq!(labels.class_name, "Warrior");
    assert_eq!(labels.zone_name.as_deref(), Some("Goldshire"));

    let knight = CharacterKeys { race_id: 1, class_id: 6, area_id: 0 };
    let labels = project_character(knight, &races(), &classes(), &areas()).unwrap();
    assert_eq!(labels.background_model, "DEATHKNIGHT");
    assert_eq!(labels.zone_name, None);
}

#[test]
fn unknown_catalog_rows_are_errors() {
    let unknown_race = CharacterKeys { race_id: 9, class_id: 1, area_id: 0 };
    assert_eq!(
        project_character(unknown_race, &races(), &classes(), &areas()).err(),
        Some(CharacterProjectionError::UnknownRace { id: 9 })
    );
    let unknown_class = CharacterKeys { race_id: 1, class_id: 2, area_id: 0 };
    assert_eq!(
        project_character(unknown_class, &races(), &classes(), &areas()).err(),
        Some(CharacterProjectionError::UnknownClass { id: 2 })
    );
    let unknown_area = CharacterKeys { race_id: 1, class_id: 1, area_id: 5 };
    assert_eq!(
        project_character(unknown_area, &races(), &classes(), &areas()).err(),
        Some(CharacterProjectionError::UnknownArea { id: 5 })
    );
    let no_backdrop: Vec<RaceRow> = races().into_iter().filter(|r| r.id != 3).collect();
    let gnome = CharacterKeys { race_id: 7, class_id: 1, area_id: 0 };
    assert_eq!(
        project_character(gnome, &no_backdrop, &classes(), &areas()).err(),
        Some(CharacterProjectionError::UnknownRace { id: 3 })
    );
}

#[test]
fn directory_reports_the_first_failing_row_then_the_default_backdrop() {
    let keys = [
        CharacterKeys { race_id: 1, class_id: 1, area_id: 12 },
        CharacterKeys { race_id: 2, class_id: 6, area_id: 87 },
    ];
    let (labels, background) = project_directory(&keys, &races(), &classes(), &areas()).unwrap();
    assert_eq!(labels.len(), 2);
    assert_eq!(labels[1].race_name, "Orc");
    assert_eq!(background, "Orc");

    let bad = [
        CharacterKeys { race_id: 1, class_id: 1, area_id: 12 },
        CharacterKeys { race_id: 1, class_id: 3, area_id: 0 },
        CharacterKeys { race_id: 4, class_id: 1, area_id: 0 },
    ];
    assert_eq!(
        project_directory(&bad, &races(), &classes(), &areas()).err(),
        Some(CharacterProjectionError::UnknownClass { id: 3 })
    );
    let without_orc: Vec<RaceRow> = races().into_iter().filter(|r| r.id != 2).collect();
    assert_eq!(
        project_directory(&[], &without_orc, &classes(), &areas()).err(),
        Some(CharacterProjectionError::UnknownRace { id: 2 })
    );
}

#[test]
fn zone_labels_split_zone_and_sub_zone() {
    let zone = zone_state(Some(87), &areas()).unwrap();
    assert_eq!(zone.zone, "Elwynn Forest");
    assert_eq!(zone.real_zone, "Elwynn Forest");
    assert_eq!(zone.sub_zone, "Goldshire");
    assert_eq!(zone.minimap_zone, "Goldshire");
    let top = zone_state(Some(12), &areas()).unwrap();
    assert_eq!((top.zone.as_str(), top.sub_zone.as_str()), ("Elwynn Forest", ""));
    let none = zone_state(None, &areas()).unwrap();
    assert!(none.zone.is_empty() && none.minimap_zone.is_empty());
    assert_eq!(
        zone_state(Some(99), &areas()).err(),
        Some(CharacterProjectionError::UnknownArea { id: 500 })
    );
}

#[test]
fn world_model_group_overrides_terrain_area() {
    let group = Some(WorldModelAreaRow { id: 40, area_id: 87 });
    let root = Some(WorldModelAreaRow { id: 41, area_id: 0 });
    assert_eq!(
        location_areas(Some(12), group, root, true, &areas()),
        Ok(LocationAreas { area_id: Some(87), areas: [12, 87], world_model_areas: [41, 40] })
    );
    assert_eq!(
        location_areas(Some(12), group, root, false, &areas()),
        Ok(LocationAreas { area_id: Some(12), areas: [12, 0], world_model_areas: [41, 40] })
    );
    assert_eq!(
        location_areas(None, None, None, true, &areas()),
        Ok(LocationAreas { area_id: None, areas: [0, 0], world_model_areas: [0, 0] })
    );
    assert_eq!(
        location_areas(Some(3), None, None, true, &areas()),
        Err(CharacterProjectionError::UnknownArea { id: 3 })
    );
}

#[test]
fn unit_vocabulary_conversions() {
    assert_eq!(ui_power_type(0), Ok(UiUnitPowerType::Mana));
    assert_eq!(ui_power_type(6), Ok(UiUnitPowerType::RunicPower));
    assert_eq!(
        ui_power_type(7),
        Err(CharacterProjectionError::UnknownPowerType { id: 7 })
    );
    assert_eq!(player_faction_group("Alliance"), Ok(UiFactionGroup::Alliance));
    assert_eq!(player_faction_group("Horde"), Ok(UiFactionGroup::Horde));
    assert_eq!(
        player_faction_group("Scourge"),
        Err(CharacterProjectionError::UnsupportedPlayerFaction { name: "Scourge".to_owned() })
    );
    assert_eq!(player_level(80), Ok(80));
    assert_eq!(
        player_level(256),
        Err(CharacterProjectionError::InvalidPlayerLevel { level: 256 })
    );
    assert_eq!(default_language(UiFactionGroup::Alliance), (7, "Common"));
    assert_eq!(default_language(UiFactionGroup::Horde), (1, "Orcish"));
}

#[test]
fn active_player_is_ready_exactly_when_nothing_is_missing() {
    let all = ActivePlayerFacts {
        unit_identity: true,
        name: true,
        money: true,
        progression: true,
        vitals: true,
        stats: true,
    };
    assert!(active_player_is_ready(all));
    assert_eq!(missing_active_fact(all), None);
    let no_money = ActivePlayerFacts { money: false, ..all };
    assert!(!active_player_is_ready(no_money));
    assert_eq!(
        missing_active_fact(no_money),
        Some(CharacterProjectionError::MissingActiveMoney)
    );
    let nothing = ActivePlayerFacts {
        unit_identity: false,
        name: false,
        money: false,
        progression: false,
        vitals: false,
        stats: false,
    };
    assert_eq!(
        missing_active_fact(nothing),
        Some(CharacterProjectionError::MissingActiveIdentity)
    );
}

use solarity_runtime::character_directory::{active_player_image, ActivePlayerImage};

fn ready_facts() -> ActivePlayerFacts {
    ActivePlayerFacts {
        unit_identity: true,
        name: true,
        money: true,
        progression: true,
        vitals: true,
        stats: true,
    }
}

#[test]
fn active_player_image_takes_the_power_of_its_type() {
    let powers = [10, 20, 30, 40, 50, 60, 70];
    let max_powers = [100, 200, 300, 400, 500, 600, 700];
    assert_eq!(
        active_player_image(ready_facts(), 2, true, 1, true, 85, Some("Horde"), 80, 1, powers, max_powers),
        Ok(ActivePlayerImage {
            faction: UiFactionGroup::Horde,
            level: 80,
            power_type: UiUnitPowerType::Rage,
            power: (20, 200),
            language: (1, "Orcish"),
        })
    );
    let image = active_player_image(
        ready_facts(), 1, true, 6, true, 1, Some("Alliance"), 55, 6, powers, max_powers,
    )
    .unwrap();
    assert_eq!(image.power, (70, 700));
    assert_eq!(image.language, (7, "Common"));
}

#[test]
fn active_player_image_reports_the_first_failure() {
    let p = [0; 7];
    let missing = ActivePlayerFacts { vitals: false, ..ready_facts() };
    assert_eq!(
        active_player_image(missing, 99, false, 1, true, 1, None, 300, 9, p, p),
        Err(CharacterProjectionError::MissingActiveVitals)
    );
    assert_eq!(
        active_player_image(ready_facts(), 99, false, 1, false, 1, None, 300, 9, p, p),
        Err(CharacterProjectionError::UnknownRace { id: 99 })
    );
    assert_eq!(
        active_player_image(ready_facts(), 1, true, 12, false, 1, None, 300, 9, p, p),
        Err(CharacterProjectionError::UnknownClass { id: 12 })
    );
    assert_eq!(
        active_player_image(ready_facts(), 1, true, 1, true, 1234, None, 300, 9, p, p),
        Err(CharacterProjectionError::UnknownFactionTemplate { id: 1234 })
    );
    assert_eq!(
        active_player_image(ready_facts(), 1, true, 1, true, 1, Some("Monster"), 300, 9, p, p),
        Err(CharacterProjectionError::UnsupportedPlayerFaction { name: "Monster".to_owned() })
    );
    assert_eq!(
        active_player_image(ready_facts(), 1, true, 1, true, 1, Some("Alliance"), 300, 9, p, p),
        Err(CharacterProjectionError::InvalidPlayerLevel { level: 300 })
    );
    assert_eq!(
        active_player_image(ready_facts(), 1, true, 1, true, 1, Some("Alliance"), 30, 9, p, p),
        Err(CharacterProjectionError::UnknownPowerType { id: 9 })
    );
}
