//! Map definitions: layers, the player's start, and actions placed on tiles
//! that carry the same commands as scenes.
use vstd::prelude::*;

use crate::static_commands::{Definitions, StaticCommands};
use crate::table::{Duplicate, Table, TableKey};
use crate::types::Position;

verus! {

/// Names a map.
#[derive(Debug, Hash, Clone, PartialEq, Eq)]
pub struct MapId(pub String);

impl View for MapId {
    type V = Seq<char>;

    open spec fn view(&self) -> Seq<char> {
        self.0@
    }
}

impl Duplicate for MapId {
    fn duplicate(&self) -> (r: Self) {
        MapId(self.0.clone())
    }
}

impl TableKey for MapId {
    fn key_eq(&self, other: &Self) -> (r: bool) {
        self.0 == other.0
    }
}

impl MapId {
    pub fn new(s: &str) -> (r: Self)
        ensures
            r@ == s@,
    {
        MapId(s.to_owned())
    }
}

/// The image paths of a map's layers.
#[derive(Debug, Clone, PartialEq, Eq)]
pub struct MapLayers {
    pub ground: String,
    pub base: String,
    pub sky: Option<String>,
}

/// Where on the map an action applies: one tile or a rectangle of tiles.
#[derive(Debug, Clone, PartialEq, Eq)]
pub enum ActionPosition {
    Position(Position),
    Range { start: Position, end: Position },
}

/// Commands that run when the player reaches a place on the map. The
/// condition is reserved and kept as its source text.
#[derive(Debug)]
pub struct MapAction {
    pub position: ActionPosition,
    pub name: String,
    pub condition: Option<String>,
    pub commands: StaticCommands,
}

/// A map: its layers, music (kept as its source text), the characters it
/// defines, where the player starts, and its actions.
#[derive(Debug)]
pub struct GameMap {
    pub id: MapId,
    pub music: String,
    pub layers: MapLayers,
    pub definitions: Definitions,
    pub player_position: Position,
    pub actions: Vec<MapAction>,
}

/// The loaded maps, by id.
#[derive(Debug)]
pub struct MapManager {
    maps: Table<MapId, GameMap>,
}

impl View for MapManager {
    type V = Map<Seq<char>, GameMap>;

    closed spec fn view(&self) -> Map<Seq<char>, GameMap> {
        self.maps@
    }
}

impl MapManager {
    pub fn new() -> (r: Self)
        ensures
            r@ == Map::<Seq<char>, GameMap>::empty(),
    {
        MapManager { maps: Table::new() }
    }

    /// Adds a parsed map under its id, replacing a map with the same id.
    pub fn load_map(&mut self, map: GameMap)
        ensures
            final(self)@ == old(self)@.insert(map.id@, map),
    {
        let id = map.id.duplicate();
        self.maps.insert(id, map);
    }

    /// The manager with `map` added, as `load_map` adds it.
    pub fn with_map(self, map: GameMap) -> (r: Self)
        ensures
            r@ == self@.insert(map.id@, map),
    {
        let mut m = self;
        m.load_map(map);
        m
    }

    pub fn get_map(&self, id: &MapId) -> (r: Option<&GameMap>)
        ensures
            match r {
                Some(m) => self@.contains_key(id@) && *m == self@[id@],
                None => !self@.contains_key(id@),
            },
    {
        self.maps.get(id)
    }
}

impl Default for MapManager {
    fn default() -> (r: Self)
        ensures
            r@ == Map::<Seq<char>, GameMap>::empty(),
    {
        MapManager::new()
    }
}

} // verus!
