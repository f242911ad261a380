//! Projection of protocol character rows through client-authored DBC metadata.
//!
//! The DBC catalogs are held as plain rows; a catalog lookup returns the first
//! row with the requested identifier.

use vstd::prelude::*;

use crate::search::{first_from, lemma_first_from, lemma_first_from_unique};
use crate::text::str_equal;

verus! {

/// A server character references metadata absent from the mounted client.
#[allow(inconsistent_fields)]
#[derive(Clone, Debug, PartialEq, Eq)]
pub enum CharacterProjectionError {
    /// The character's race has no client DBC row.
    UnknownRace { id: u32 },
    /// The character's class has no client DBC row.
    UnknownClass { id: u8 },
    /// The character's last zone has no client DBC row.
    UnknownArea { id: u32 },
    /// FrameXML started before the local create update published unit identity.
    MissingActiveIdentity,
    /// World bootstrap lost the selected character name.
    MissingActiveName,
    /// FrameXML started before private coinage arrived.
    MissingActiveMoney,
    /// FrameXML started before the adjacent XP words arrived.
    MissingActiveProgression,
    /// FrameXML started before health and power fields arrived.
    MissingActiveVitals,
    /// FrameXML started before primary player attributes arrived.
    MissingActiveStats,
    /// The local unit references a faction template absent from client DBCs.
    UnknownFactionTemplate { id: u32 },
    /// A player faction resolved outside the two stock playable groups.
    UnsupportedPlayerFaction { name: String },
    /// The server level does not fit build 12340's byte-sized UI result.
    InvalidPlayerLevel { level: u32 },
    /// The local unit uses an unknown build-12340 power identifier.
    UnknownPowerType { id: u8 },
}

/// `AreaTable.dbc`: identifier, parent zone (0 for a zone) and label.
#[derive(Clone, Debug)]
pub struct AreaRow {
    pub id: u32,
    pub parent_area_id: u32,
    pub name: String,
}

/// `ChrRaces.dbc`: identifier, display name and client file token.
#[derive(Clone, Debug)]
pub struct RaceRow {
    pub id: u32,
    pub name: String,
    pub client_file_string: String,
}

/// `ChrClasses.dbc`: identifier, display name and file token.
#[derive(Clone, Debug)]
pub struct ClassRow {
    pub id: u32,
    pub name: String,
    pub file_string: String,
}

pub open spec fn area_index(rows: Seq<AreaRow>, id: u32) -> int {
    first_from(rows, 0, |r: AreaRow| r.id == id)
}

pub open spec fn race_index(rows: Seq<RaceRow>, id: u32) -> int {
    first_from(rows, 0, |r: RaceRow| r.id == id)
}

pub open spec fn class_index(rows: Seq<ClassRow>, id: u32) -> int {
    first_from(rows, 0, |r: ClassRow| r.id == id)
}

pub fn find_area(rows: &[AreaRow], id: u32) -> (index: usize)
    ensures
        index as int == area_index(rows@, id),
        index <= rows@.len(),
{
    let ghost p = |r: AreaRow| r.id == id;
    let mut i: usize = 0;
    while i < rows.len() && rows[i].id != id
        invariant
            0 <= i <= rows@.len(),
            p == (|r: AreaRow| r.id == id),
            forall|j: int| 0 <= j < i ==> !p(#[trigger] rows@[j]),
        decreases rows@.len() - i,
    {
        i += 1;
    }
    proof {
        lemma_first_from_unique(rows@, 0, i as int, p);
    }
    i
}

pub fn find_race(rows: &[RaceRow], id: u32) -> (index: usize)
    ensures
        index as int == race_index(rows@, id),
        index <= rows@.len(),
{
    let ghost p = |r: RaceRow| r.id == id;
    let mut i: usize = 0;
    while i < rows.len() && rows[i].id != id
        invariant
            0 <= i <= rows@.len(),
            p == (|r: RaceRow| r.id == id),
            forall|j: int| 0 <= j < i ==> !p(#[trigger] rows@[j]),
        decreases rows@.len() - i,
    {
        i += 1;
    }
    proof {
        lemma_first_from_unique(rows@, 0, i as int, p);
    }
    i
}

pub fn find_class(rows: &[ClassRow], id: u32) -> (index: usize)
    ensures
        index as int == class_index(rows@, id),
        index <= rows@.len(),
{
    let ghost p = |r: ClassRow| r.id == id;
    let mut i: usize = 0;
    while i < rows.len() && rows[i].id != id
        invariant
            0 <= i <= rows@.len(),
            p == (|r: ClassRow| r.id == id),
            forall|j: int| 0 <= j < i ==> !p(#[trigger] rows@[j]),
        decreases rows@.len() - i,
    {
        i += 1;
    }
    proof {
        lemma_first_from_unique(rows@, 0, i as int, p);
    }
    i
}

/// The race whose backdrop a character selection screen shows: Gnomes share
/// the Dwarf backdrop and Trolls the Orc one.
pub open spec fn spec_background_race_id(race_id: u32) -> u32 {
    if race_id == 7 {
        3
    } else if race_id == 8 {
        2
    } else {
        race_id
    }
}

pub fn background_race_id(race_id: u32) -> (id: u32)
    ensures
        id == spec_background_race_id(race_id),
{
    match race_id {
        7 => 3,
        8 => 2,
        other => other,
    }
}

/// The class identifier of Death Knights, whose backdrop is class-owned.
pub const DEATH_KNIGHT_CLASS_ID: u8 = 6;

/// Character gender as sent by the server.
#[derive(Clone, Copy, Debug, PartialEq, Eq)]
pub enum CharacterGender {
    Male,
    Female,
    Unset,
}

/// Converts packet gender to the stock Lua sex constants.
pub fn lua_sex(gender: CharacterGender) -> (sex: u8)
    ensures
        sex == match gender {
            CharacterGender::Male => 2u8,
            CharacterGender::Female => 3u8,
            CharacterGender::Unset => 1u8,
        },
{
    match gender {
        CharacterGender::Male => 2,
        CharacterGender::Female => 3,
        CharacterGender::Unset => 1,
    }
}

/// Identifiers of one protocol character row that the projection resolves.
#[derive(Clone, Copy, Debug, PartialEq, Eq)]
pub struct CharacterKeys {
    pub race_id: u8,
    pub class_id: u8,
    pub area_id: u32,
}

/// Labels resolved for one character row.
#[derive(Clone, Debug)]
pub struct CharacterLabels {
    pub race_name: String,
    pub background_model: String,
    pub class_name: String,
    pub zone_name: Option<String>,
}

/// Outcome of projecting one character: the labels' views, or the first
/// missing catalog row.
pub open spec fn spec_project_character(
    keys: CharacterKeys,
    races: Seq<RaceRow>,
    classes: Seq<ClassRow>,
    areas: Seq<AreaRow>,
) -> Result<(Seq<char>, Seq<char>, Seq<char>, Option<Seq<char>>), CharacterProjectionError> {
    let race_id = keys.race_id as u32;
    let r = race_index(races, race_id);
    let c = class_index(classes, keys.class_id as u32);
    let bg_id = spec_background_race_id(race_id);
    let b = race_index(races, bg_id);
    let a = area_index(areas, keys.area_id);
    if r >= races.len() {
        Err(CharacterProjectionError::UnknownRace { id: race_id })
    } else if c >= classes.len() {
        Err(CharacterProjectionError::UnknownClass { id: keys.class_id })
    } else if keys.class_id != DEATH_KNIGHT_CLASS_ID && b >= races.len() {
        Err(CharacterProjectionError::UnknownRace { id: bg_id })
    } else if keys.area_id != 0 && a >= areas.len() {
        Err(CharacterProjectionError::UnknownArea { id: keys.area_id })
    } else {
        Ok(
            (
                races[r].name@,
                if keys.class_id == DEATH_KNIGHT_CLASS_ID {
                    classes[c].file_string@
                } else {
                    races[b].client_file_string@
                },
                classes[c].name@,
                if keys.area_id == 0 {
                    None
                } else {
                    Some(areas[a].name@)
                },
            ),
        )
    }
}

pub open spec fn labels_view(labels: CharacterLabels) -> (
    Seq<char>,
    Seq<char>,
    Seq<char>,
    Option<Seq<char>>,
) {
    (
        labels.race_name@,
        labels.background_model@,
        labels.class_name@,
        match labels.zone_name {
            Some(z) => Some(z@),
            None => None,
        },
    )
}

/// Projects one protocol row without substituting unknown custom metadata.
pub fn project_character(
    keys: CharacterKeys,
    races: &[RaceRow],
    classes: &[ClassRow],
    areas: &[AreaRow],
) -> (labels: Result<CharacterLabels, CharacterProjectionError>)
    ensures
        match labels {
            Ok(l) => spec_project_character(keys, races@, classes@, areas@) == Ok::<
                (Seq<char>, Seq<char>, Seq<char>, Option<Seq<char>>),
                CharacterProjectionError,
            >(labels_view(l)),
            Err(e) => spec_project_character(keys, races@, classes@, areas@) == Err::<
                (Seq<char>, Seq<char>, Seq<char>, Option<Seq<char>>),
                CharacterProjectionError,
            >(e),
        },
{
    let race_id = keys.race_id as u32;
    let r = find_race(races, race_id);
    if r >= races.len() {
        return Err(CharacterProjectionError::UnknownRace { id: race_id });
    }
    let c = find_class(classes, keys.class_id as u32);
    if c >= classes.len() {
        return Err(CharacterProjectionError::UnknownClass { id: keys.class_id });
    }
    let background_model = if keys.class_id == DEATH_KNIGHT_CLASS_ID {
        classes[c].file_string.clone()
    } else {
        let bg_id = background_race_id(race_id);
        let b = find_race(races, bg_id);
        if b >= races.len() {
            return Err(CharacterProjectionError::UnknownRace { id: bg_id });
        }
        races[b].client_file_string.clone()
    };
    let zone_name = if keys.area_id == 0 {
        None
    } else {
        let a = find_area(areas, keys.area_id);
        if a >= areas.len() {
            return Err(CharacterProjectionError::UnknownArea { id: keys.area_id });
        }
        Some(areas[a].name.clone())
    };
    Ok(
        CharacterLabels {
            race_name: races[r].name.clone(),
            background_model,
            class_name: classes[c].name.clone(),
            zone_name,
        },
    )
}

/// The race whose backdrop character selection shows by default.
pub const DEFAULT_BACKGROUND_RACE_ID: u32 = 2;

/// The first failing row of a directory, in row order.
pub open spec fn first_failure(
    keys: Seq<CharacterKeys>,
    races: Seq<RaceRow>,
    classes: Seq<ClassRow>,
    areas: Seq<AreaRow>,
) -> int {
    first_from(
        keys,
        0,
        |k: CharacterKeys| spec_project_character(k, races, classes, areas) is Err,
    )
}

/// Projects every server row, then the default backdrop; the first missing
/// row in that order is the error.
pub fn project_directory(
    keys: &[CharacterKeys],
    races: &[RaceRow],
    classes: &[ClassRow],
    areas: &[AreaRow],
) -> (directory: Result<(Vec<CharacterLabels>, String), CharacterProjectionError>)
    ensures
        ({
            let f = first_failure(keys@, races@, classes@, areas@);
            let d = race_index(races@, DEFAULT_BACKGROUND_RACE_ID);
            match directory {
                Ok((labels, background)) => {
                    &&& f == keys@.len()
                    &&& d < races@.len()
                    &&& background@ == races@[d].client_file_string@
                    &&& labels@.len() == keys@.len()
                    &&& forall|i: int|
                        0 <= i < keys@.len() ==> spec_project_character(
                            #[trigger] keys@[i],
                            races@,
                            classes@,
                            areas@,
                        ) == Ok::<
                            (Seq<char>, Seq<char>, Seq<char>, Option<Seq<char>>),
                            CharacterProjectionError,
                        >(labels_view(labels@[i]))
                },
                Err(e) => if f < keys@.len() {
                    spec_project_character(keys@[f], races@, classes@, areas@) == Err::<
                        (Seq<char>, Seq<char>, Seq<char>, Option<Seq<char>>),
                        CharacterProjectionError,
                    >(e)
                } else {
                    d >= races@.len() && e == CharacterProjectionError::UnknownRace {
                        id: DEFAULT_BACKGROUND_RACE_ID,
                    }
                },
            }
        }),
{
    let ghost fails = |k: CharacterKeys| spec_project_character(k, races@, classes@, areas@) is Err;
    let mut labels: Vec<CharacterLabels> = Vec::new();
    let mut i: usize = 0;
    while i < keys.len()
        invariant
            0 <= i <= keys@.len(),
            labels@.len() == i,
            fails == (|k: CharacterKeys| spec_project_character(k, races@, classes@, areas@) is Err),
            forall|j: int| 0 <= j < i ==> !fails(#[trigger] keys@[j]),
            forall|j: int|
                0 <= j < i ==> spec_project_character(
                    #[trigger] keys@[j],
                    races@,
                    classes@,
                    areas@,
                ) == Ok::<
                    (Seq<char>, Seq<char>, Seq<char>, Option<Seq<char>>),
                    CharacterProjectionError,
                >(labels_view(labels@[j])),
        decreases keys@.len() - i,
    {
        match project_character(keys[i], races, classes, areas) {
            Ok(l) => {
                labels.push(l);
            },
            Err(e) => {
                proof {
                    lemma_first_from_unique(keys@, 0, i as int, fails);
                }
                return Err(e);
            },
        }
        i += 1;
    }
    proof {
        lemma_first_from_unique(keys@, 0, i as int, fails);
    }
    let d = find_race(races, DEFAULT_BACKGROUND_RACE_ID);
    if d >= races.len() {
        return Err(CharacterProjectionError::UnknownRace { id: DEFAULT_BACKGROUND_RACE_ID });
    }
    Ok((labels, races[d].client_file_string.clone()))
}

/// Zone labels exposed to world and minimap Lua queries.
#[derive(Clone, Debug)]
pub struct ZoneLabels {
    pub zone: String,
    pub real_zone: String,
    pub sub_zone: String,
    pub minimap_zone: String,
}

/// The labels of an optional terrain-authored area: a zone names itself in
/// every slot but the sub-zone; a child area is the sub-zone of its parent.
pub open spec fn spec_zone_labels(area_id: Option<u32>, areas: Seq<AreaRow>) -> Result<
    (Seq<char>, Seq<char>, Seq<char>, Seq<char>),
    CharacterProjectionError,
> {
    match area_id {
        None => Ok((Seq::empty(), Seq::empty(), Seq::empty(), Seq::empty())),
        Some(id) => {
            let a = area_index(areas, id);
            if a >= areas.len() {
                Err(CharacterProjectionError::UnknownArea { id })
            } else if areas[a].parent_area_id == 0 {
                Ok((areas[a].name@, areas[a].name@, Seq::empty(), areas[a].name@))
            } else {
                let p = area_index(areas, areas[a].parent_area_id);
                if p >= areas.len() {
                    Err(CharacterProjectionError::UnknownArea { id: areas[a].parent_area_id })
                } else {
                    Ok((areas[p].name@, areas[p].name@, areas[a].name@, areas[a].name@))
                }
            }
        },
    }
}

pub open spec fn zone_view(z: ZoneLabels) -> (Seq<char>, Seq<char>, Seq<char>, Seq<char>) {
    (z.zone@, z.real_zone@, z.sub_zone@, z.minimap_zone@)
}

/// Projects an optional area into zone, sub-zone and minimap labels.
pub fn zone_state(area_id: Option<u32>, areas: &[AreaRow]) -> (labels: Result<
    ZoneLabels,
    CharacterProjectionError,
>)
    ensures
        match labels {
            Ok(z) => spec_zone_labels(area_id, areas@) == Ok::<
                (Seq<char>, Seq<char>, Seq<char>, Seq<char>),
                CharacterProjectionError,
            >(zone_view(z)),
            Err(e) => spec_zone_labels(area_id, areas@) == Err::<
                (Seq<char>, Seq<char>, Seq<char>, Seq<char>),
                CharacterProjectionError,
            >(e),
        },
{
    let id = match area_id {
        None => {
            return Ok(
                ZoneLabels {
                    zone: String::new(),
                    real_zone: String::new(),
                    sub_zone: String::new(),
                    minimap_zone: String::new(),
                },
            );
        },
        Some(id) => id,
    };
    let a = find_area(areas, id);
    if a >= areas.len() {
        return Err(CharacterProjectionError::UnknownArea { id });
    }
    let area = &areas[a];
    if area.parent_area_id == 0 {
        return Ok(
            ZoneLabels {
                zone: area.name.clone(),
                real_zone: area.name.clone(),
                sub_zone: String::new(),
                minimap_zone: area.name.clone(),
            },
        );
    }
    let p = find_area(areas, area.parent_area_id);
    if p >= areas.len() {
        return Err(CharacterProjectionError::UnknownArea { id: area.parent_area_id });
    }
    let parent = &areas[p];
    Ok(
        ZoneLabels {
            zone: parent.name.clone(),
            real_zone: parent.name.clone(),
            sub_zone: area.name.clone(),
            minimap_zone: area.name.clone(),
        },
    )
}

/// A world-model group or root row: its own identifier and its AreaTable
/// relation (0 when none).
#[derive(Clone, Copy, Debug, PartialEq, Eq)]
pub struct WorldModelAreaRow {
    pub id: u32,
    pub area_id: u32,
}

/// Area identifiers that zone text and zone sound ownership resolve from.
#[derive(Clone, Copy, Debug, PartialEq, Eq)]
pub struct LocationAreas {
    pub area_id: Option<u32>,
    /// Zone, then sub-zone (0 when absent).
    pub areas: [u32; 2],
    /// World-model root, then group (0 when absent).
    pub world_model_areas: [u32; 2],
}

/// A group's nonzero AreaTable relation overrides the terrain area
/// only when the location asks for it.
pub open spec fn spec_location_area_id(
    terrain_area_id: Option<u32>,
    group: Option<WorldModelAreaRow>,
    area_override: bool,
) -> Option<u32> {
    match group {
        Some(g) => if area_override && g.area_id != 0 {
            Some(g.area_id)
        } else {
            terrain_area_id
        },
        None => terrain_area_id,
    }
}

pub open spec fn row_id(row: Option<WorldModelAreaRow>) -> u32 {
    match row {
        Some(r) => r.id,
        None => 0,
    }
}

/// The resolved areas of a location: the area and, when it has one, its
/// parent zone; the zone slot holds the parent or else the area itself.
pub open spec fn spec_location_areas(
    terrain_area_id: Option<u32>,
    group: Option<WorldModelAreaRow>,
    root: Option<WorldModelAreaRow>,
    area_override: bool,
    areas: Seq<AreaRow>,
) -> Result<LocationAreas, CharacterProjectionError> {
    let area_id = spec_location_area_id(terrain_area_id, group, area_override);
    let wm = [row_id(root), row_id(group)];
    match area_id {
        None => Ok(LocationAreas { area_id, areas: [0, 0], world_model_areas: wm }),
        Some(id) => {
            let a = area_index(areas, id);
            if a >= areas.len() {
                Err(CharacterProjectionError::UnknownArea { id })
            } else if areas[a].parent_area_id == 0 {
                Ok(LocationAreas { area_id, areas: [areas[a].id, 0], world_model_areas: wm })
            } else {
                let p = area_index(areas, areas[a].parent_area_id);
                if p >= areas.len() {
                    Err(CharacterProjectionError::UnknownArea { id: areas[a].parent_area_id })
                } else {
                    Ok(
                        LocationAreas {
                            area_id,
                            areas: [areas[p].id, areas[a].id],
                            world_model_areas: wm,
                        },
                    )
                }
            }
        },
    }
}

/// Resolves the area identifiers of a world location from the terrain area
/// and the world-model group/root rows the caller looked up.
pub fn location_areas(
    terrain_area_id: Option<u32>,
    group: Option<WorldModelAreaRow>,
    root: Option<WorldModelAreaRow>,
    area_override: bool,
    areas: &[AreaRow],
) -> (location: Result<LocationAreas, CharacterProjectionError>)
    ensures
        location == spec_location_areas(terrain_area_id, group, root, area_override, areas@),
{
    let area_id = match group {
        Some(g) => {
            if area_override && g.area_id != 0 {
                Some(g.area_id)
            } else {
                terrain_area_id
            }
        },
        None => terrain_area_id,
    };
    let root_id = match root {
        Some(r) => r.id,
        None => 0,
    };
    let group_id = match group {
        Some(g) => g.id,
        None => 0,
    };
    let wm = [root_id, group_id];
    let id = match area_id {
        None => {
            return Ok(LocationAreas { area_id, areas: [0, 0], world_model_areas: wm });
        },
        Some(id) => id,
    };
    let a = find_area(areas, id);
    if a >= areas.len() {
        return Err(CharacterProjectionError::UnknownArea { id });
    }
    let parent_id = areas[a].parent_area_id;
    if parent_id == 0 {
        return Ok(LocationAreas { area_id, areas: [areas[a].id, 0], world_model_areas: wm });
    }
    let p = find_area(areas, parent_id);
    if p >= areas.len() {
        return Err(CharacterProjectionError::UnknownArea { id: parent_id });
    }
    Ok(LocationAreas { area_id, areas: [areas[p].id, areas[a].id], world_model_areas: wm })
}

/// `UNIT_FIELD_BYTES_0`'s closed build-12340 power vocabulary.
#[derive(Clone, Copy, Debug, PartialEq, Eq)]
pub enum UiUnitPowerType {
    Mana,
    Rage,
    Focus,
    Energy,
    Happiness,
    Runes,
    RunicPower,
}

/// Converts a power identifier into the UI power vocabulary.
pub fn ui_power_type(power_type_id: u8) -> (power: Result<UiUnitPowerType, CharacterProjectionError>)
    ensures
        power == match power_type_id {
            0 => Ok(UiUnitPowerType::Mana),
            1 => Ok(UiUnitPowerType::Rage),
            2 => Ok(UiUnitPowerType::Focus),
            3 => Ok(UiUnitPowerType::Energy),
            4 => Ok(UiUnitPowerType::Happiness),
            5 => Ok(UiUnitPowerType::Runes),
            6 => Ok(UiUnitPowerType::RunicPower),
            id => Err(CharacterProjectionError::UnknownPowerType { id }),
        },
{
    match power_type_id {
        0 => Ok(UiUnitPowerType::Mana),
        1 => Ok(UiUnitPowerType::Rage),
        2 => Ok(UiUnitPowerType::Focus),
        3 => Ok(UiUnitPowerType::Energy),
        4 => Ok(UiUnitPowerType::Happiness),
        5 => Ok(UiUnitPowerType::Runes),
        6 => Ok(UiUnitPowerType::RunicPower),
        id => Err(CharacterProjectionError::UnknownPowerType { id }),
    }
}

/// The two stock playable faction groups.
#[derive(Clone, Copy, Debug, PartialEq, Eq)]
pub enum UiFactionGroup {
    Alliance,
    Horde,
}

/// Resolves a faction group from its stable internal token.
pub fn player_faction_group(internal_name: &str) -> (group: Result<UiFactionGroup, CharacterProjectionError>)
    ensures
        match group {
            Ok(UiFactionGroup::Alliance) => internal_name@ == "Alliance"@,
            Ok(UiFactionGroup::Horde) => internal_name@ == "Horde"@ && internal_name@ != "Alliance"@,
            Err(CharacterProjectionError::UnsupportedPlayerFaction { name }) => name@
                == internal_name@ && internal_name@ != "Alliance"@ && internal_name@ != "Horde"@,
            Err(_) => false,
        },
{
    if str_equal(internal_name, "Alliance") {
        Ok(UiFactionGroup::Alliance)
    } else if str_equal(internal_name, "Horde") {
        Ok(UiFactionGroup::Horde)
    } else {
        Err(CharacterProjectionError::UnsupportedPlayerFaction { name: internal_name.to_owned() })
    }
}

/// The FrameXML byte-sized player level.
pub fn player_level(level: u32) -> (byte: Result<u8, CharacterProjectionError>)
    ensures
        byte == if level <= u8::MAX {
            Ok::<u8, CharacterProjectionError>(level as u8)
        } else {
            Err(CharacterProjectionError::InvalidPlayerLevel { level })
        },
{
    if level <= 255 {
        Ok(level as u8)
    } else {
        Err(CharacterProjectionError::InvalidPlayerLevel { level })
    }
}

/// Every stock player starts with its faction's common
/// language, as identifier and label.
pub fn default_language(group: UiFactionGroup) -> (language: (u32, &'static str))
    ensures
        match group {
            UiFactionGroup::Alliance => language.0 == 7 && language.1@ == "Common"@,
            UiFactionGroup::Horde => language.0 == 1 && language.1@ == "Orcish"@,
        },
{
    match group {
        UiFactionGroup::Alliance => (7, "Common"),
        UiFactionGroup::Horde => (1, "Orcish"),
    }
}

/// Which synchronous player facts the initial object-update stream delivered.
#[derive(Clone, Copy, Debug, PartialEq, Eq)]
pub struct ActivePlayerFacts {
    pub unit_identity: bool,
    pub name: bool,
    pub money: bool,
    pub progression: bool,
    pub vitals: bool,
    pub stats: bool,
}

pub open spec fn spec_player_ready(facts: ActivePlayerFacts) -> bool {
    facts.unit_identity && facts.name && facts.money && facts.progression && facts.vitals
        && facts.stats
}

pub open spec fn spec_missing_active_fact(facts: ActivePlayerFacts) -> Option<
    CharacterProjectionError,
> {
    if !facts.unit_identity {
        Some(CharacterProjectionError::MissingActiveIdentity)
    } else if !facts.name {
        Some(CharacterProjectionError::MissingActiveName)
    } else if !facts.money {
        Some(CharacterProjectionError::MissingActiveMoney)
    } else if !facts.progression {
        Some(CharacterProjectionError::MissingActiveProgression)
    } else if !facts.vitals {
        Some(CharacterProjectionError::MissingActiveVitals)
    } else if !facts.stats {
        Some(CharacterProjectionError::MissingActiveStats)
    } else {
        None
    }
}

/// All facts FrameXML OnLoad handlers query have arrived.
pub fn active_player_is_ready(facts: ActivePlayerFacts) -> (ready: bool)
    ensures
        ready == spec_player_ready(facts),
{
    facts.unit_identity && facts.name && facts.money && facts.progression && facts.vitals
        && facts.stats
}

/// The first missing fact, in the order the active player is published.
pub fn missing_active_fact(facts: ActivePlayerFacts) -> (missing: Option<CharacterProjectionError>)
    ensures
        missing == spec_missing_active_fact(facts),
{
    if !facts.unit_identity {
        Some(CharacterProjectionError::MissingActiveIdentity)
    } else if !facts.name {
        Some(CharacterProjectionError::MissingActiveName)
    } else if !facts.money {
        Some(CharacterProjectionError::MissingActiveMoney)
    } else if !facts.progression {
        Some(CharacterProjectionError::MissingActiveProgression)
    } else if !facts.vitals {
        Some(CharacterProjectionError::MissingActiveVitals)
    } else if !facts.stats {
        Some(CharacterProjectionError::MissingActiveStats)
    } else {
        None
    }
}

/// What the local player's FrameXML image publishes beyond its raw fields.
#[derive(Clone, Copy, Debug, PartialEq, Eq)]
pub struct ActivePlayerImage {
    pub faction: UiFactionGroup,
    pub level: u8,
    pub power_type: UiUnitPowerType,
    /// The current and maximum power of the unit's power type.
    pub power: (u32, u32),
    /// The faction's starting language, as identifier and label.
    pub language: (u32, &'static str),
}

pub open spec fn spec_ui_power_type(id: u8) -> UiUnitPowerType {
    match id {
        0 => UiUnitPowerType::Mana,
        1 => UiUnitPowerType::Rage,
        2 => UiUnitPowerType::Focus,
        3 => UiUnitPowerType::Energy,
        4 => UiUnitPowerType::Happiness,
        5 => UiUnitPowerType::Runes,
        _ => UiUnitPowerType::RunicPower,
    }
}

/// Validates the local player in the order its image is published: the six
/// field groups, the race and class rows, the faction template, the playable
/// faction, the byte-sized level, then the power type; a valid player's
/// image takes the power of its power type.
pub fn active_player_image(
    facts: ActivePlayerFacts,
    race_id: u8,
    race_known: bool,
    class_id: u8,
    class_known: bool,
    faction_template_id: u32,
    faction: Option<&str>,
    level: u32,
    power_type_id: u8,
    powers: [u32; 7],
    max_powers: [u32; 7],
) -> (image: Result<ActivePlayerImage, CharacterProjectionError>)
    ensures
        match image {
            Ok(img) => {
                &&& spec_missing_active_fact(facts) is None
                &&& race_known && class_known
                &&& faction matches Some(name) && (name@ == "Alliance"@ || name@ == "Horde"@)
                    && img.faction == if name@ == "Alliance"@ {
                    UiFactionGroup::Alliance
                } else {
                    UiFactionGroup::Horde
                }
                &&& level <= u8::MAX && img.level == level
                &&& power_type_id <= 6 && img.power_type == spec_ui_power_type(power_type_id)
                &&& img.power == (powers[power_type_id as int], max_powers[power_type_id as int])
                &&& img.language.0 == if img.faction == UiFactionGroup::Alliance {
                    7u32
                } else {
                    1u32
                }
                &&& img.language.1@ == if img.faction == UiFactionGroup::Alliance {
                    "Common"@
                } else {
                    "Orcish"@
                }
            },
            Err(e) => if spec_missing_active_fact(facts) is Some {
                spec_missing_active_fact(facts) == Some(e)
            } else if !race_known {
                e == CharacterProjectionError::UnknownRace { id: race_id as u32 }
            } else if !class_known {
                e == CharacterProjectionError::UnknownClass { id: class_id }
            } else if faction is None {
                e == CharacterProjectionError::UnknownFactionTemplate { id: faction_template_id }
            } else if faction->0@ != "Alliance"@ && faction->0@ != "Horde"@ {
                e matches CharacterProjectionError::UnsupportedPlayerFaction { name } && name@
                    == faction->0@
            } else if level > u8::MAX {
                e == CharacterProjectionError::InvalidPlayerLevel { level }
            } else {
                power_type_id > 6 && e == CharacterProjectionError::UnknownPowerType {
                    id: power_type_id,
                }
            },
        },
{
    if let Some(missing) = missing_active_fact(facts) {
        return Err(missing);
    }
    if !race_known {
        return Err(CharacterProjectionError::UnknownRace { id: race_id as u32 });
    }
    if !class_known {
        return Err(CharacterProjectionError::UnknownClass { id: class_id });
    }
    let name = match faction {
        Some(name) => name,
        None => {
            return Err(CharacterProjectionError::UnknownFactionTemplate { id: faction_template_id });
        },
    };
    let group = match player_faction_group(name) {
        Ok(group) => group,
        Err(e) => {
            return Err(e);
        },
    };
    let level = match player_level(level) {
        Ok(level) => level,
        Err(e) => {
            return Err(e);
        },
    };
    let power_type = match ui_power_type(power_type_id) {
        Ok(power_type) => power_type,
        Err(e) => {
            return Err(e);
        },
    };
    let index = power_type_id as usize;
    Ok(
        ActivePlayerImage {
            faction: group,
            level,
            power_type,
            power: (powers[index], max_powers[index]),
            language: default_language(group),
        },
    )
}

/// A player is ready for FrameXML exactly when no fact is missing.
pub proof fn law_ready_iff_nothing_missing(facts: ActivePlayerFacts)
    ensures
        spec_player_ready(facts) == (spec_missing_active_fact(facts) is None),
{
}

/// A world-model group without an AreaTable relation (0) never overrides
/// the terrain area: the location resolves as if no override were asked;
/// an override with a relation resolves that area; and no lookup of area 0
/// happens unless the terrain itself names area 0.
pub proof fn law_group_without_area_keeps_terrain_area(
    terrain_area_id: Option<u32>,
    group: WorldModelAreaRow,
    root: Option<WorldModelAreaRow>,
    areas: Seq<AreaRow>,
)
    ensures
        group.area_id == 0 ==> spec_location_areas(terrain_area_id, Some(group), root, true, areas)
            == spec_location_areas(terrain_area_id, Some(group), root, false, areas),
        group.area_id == 0 ==> spec_location_area_id(terrain_area_id, Some(group), true)
            == terrain_area_id,
        group.area_id != 0 ==> spec_location_area_id(terrain_area_id, Some(group), true) == Some(
            group.area_id,
        ),
        spec_location_area_id(terrain_area_id, Some(group), false) == terrain_area_id,
        terrain_area_id != Some(0u32) ==> spec_location_areas(
            terrain_area_id,
            Some(group),
            root,
            true,
            areas,
        ) != Err::<LocationAreas, CharacterProjectionError>(
            CharacterProjectionError::UnknownArea { id: 0 },
        ),
        spec_location_areas(terrain_area_id, Some(group), root, true, areas) matches Ok(l) ==> {
            &&& l.world_model_areas[1] == group.id
            &&& l.world_model_areas[0] == match root {
                Some(r) => r.id,
                None => 0,
            }
            &&& l.area_id == spec_location_area_id(terrain_area_id, Some(group), true)
            &&& l.area_id matches Some(id) ==> (l.areas[0] == id && l.areas[1] == 0) || l.areas[1]
                == id
            &&& l.area_id is None ==> l.areas == [0u32, 0u32]
        },
{
    match spec_location_area_id(terrain_area_id, Some(group), true) {
        Some(id) => {
            lemma_first_from(areas, 0, |r: AreaRow| r.id == id);
            let a = area_index(areas, id);
            if 0 <= a < areas.len() {
                let parent = areas[a].parent_area_id;
                lemma_first_from(areas, 0, |r: AreaRow| r.id == parent);
            }
        },
        None => {},
    }
}

} // verus!
