use rpg_core::components::{NpcId, NpcImage, NpcVoice, RpgEntity};
use rpg_core::events::{
    AttackEvent, DamageEvent, DeathEvent, EndBattleEvent, EndSceneEvent, PlaySceneEvent, SpawnNpcEvent,
    StartBattleEvent, StaticCommandsEvent, UpdateNpcEvent,
};
use rpg_core::items::{ItemFile, ItemId, ItemManager, Weapon};
use rpg_core::maps::{ActionPosition, GameMap, MapAction, MapId, MapLayers, MapManager};
use rpg_core::scenes::{Character, Dialogue, Line, Scene, SceneBookmark, SceneError, SceneId, SceneManager, ScenePlayer, SceneSectionId};
use rpg_core::state::{GameState, StateError, StateManager};
use rpg_core::static_commands::{CharacterUpdate, Definitions, StaticCommands};
use rpg_core::table::Table;
use rpg_core::types::Position;
use rpg_core::world::{EntityRef, World};

fn character(name: &str) -> Character {
    Character { name: name.to_string(), image: NpcImage::default(), voice: NpcVoice::default() }
}

fn npc(id: &str) -> EntityRef {
    EntityRef::Npc(NpcId(id.to_string()))
}

fn no_commands() -> StaticCommands {
    StaticCommands {
        reward_gold: None,
        update_characters: None,
        scene_entry: None,
        variables: None,
        battle: None,
        kill_character: None,
        set_quest_stage: None,
        complete_quest: None,
    }
}

fn world_with_orc() -> World {
    let mut w = World::new(RpgEntity::new(Some("Jake".to_string())));
    assert!(w.spawn_npc(NpcId("orc".to_string()), character("Orc")));
    w
}

#[test]
fn spawn_npc_skips_taken_ids() {
    let mut w = world_with_orc();
    assert!(!w.spawn_npc(NpcId("orc".to_string()), character("Other Orc")));
    assert_eq!(w.npc(&NpcId("orc".to_string())).unwrap().entity.name(), "Orc");
    let spawns = vec![SpawnNpcEvent(NpcId("elf".to_string()), character("Elf")), SpawnNpcEvent(NpcId("orc".to_string()), character("Orc 2"))];
    SpawnNpcEvent::handler(&mut w, &spawns);
    assert_eq!(w.npc(&NpcId("elf".to_string())).unwrap().entity.name(), "Elf");
    assert_eq!(w.npc(&NpcId("orc".to_string())).unwrap().entity.name(), "Orc");
    assert!(w.npc(&NpcId("dwarf".to_string())).is_none());
}

#[test]
fn attack_then_damage_then_death() {
    let catalog = ItemManager::new().with_item_file(ItemFile {
        apparel: None,
        weapon: Some(vec![Weapon::new("axe".to_string(), "Axe".to_string(), 12, 1, 1)]),
        food: None,
        potion: None,
        shield: None,
    });
    let mut jake = RpgEntity::new(Some("Jake".to_string()));
    let axe = jake.insert_item(catalog.spawn(ItemId::new("axe")).unwrap());
    assert!(jake.equip(axe));
    let mut w = World::new(jake);
    assert!(w.spawn_npc(NpcId("orc".to_string()), character("Orc")));
    let attacks = vec![
        AttackEvent { attacker: EntityRef::Player, victim: npc("orc") },
        AttackEvent { attacker: npc("orc"), victim: EntityRef::Player },
        AttackEvent { attacker: EntityRef::Player, victim: npc("ghost") },
        AttackEvent { attacker: EntityRef::Player, victim: npc("orc") },
    ];
    let mut hits: Vec<DamageEvent> = Vec::new();
    AttackEvent::handler(&w, &attacks, &mut hits, &catalog);
    assert_eq!(hits.len(), 3);
    assert_eq!(hits[0].damage, 12);
    assert_eq!(hits[1].damage, 1);
    assert_eq!(hits[1].victim, EntityRef::Player);
    let mut deaths: Vec<DeathEvent> = Vec::new();
    DamageEvent::handler(&mut w, &hits, &mut deaths);
    assert_eq!(deaths.len(), 1);
    assert_eq!(deaths[0].0, npc("orc"));
    assert!(w.npc(&NpcId("orc".to_string())).unwrap().entity.is_dead());
    assert_eq!(w.player().health(), 19);
    assert_eq!(w.entity(&EntityRef::Player).unwrap().damage(), 1);
}

#[test]
fn damage_to_missing_entity_does_nothing() {
    let mut w = world_with_orc();
    assert!(w.damage_entity(&npc("ghost"), 5).is_none());
    assert_eq!(w.entity(&npc("orc")).unwrap().health(), 20);
}

#[test]
fn npc_updates_change_name_image_and_voice() {
    let mut w = world_with_orc();
    let updates = vec![
        UpdateNpcEvent(NpcId("orc".to_string()), CharacterUpdate { name: Some("Grok".to_string()), image: Some("images/grok.png".to_string()), voice: None }),
        UpdateNpcEvent(NpcId("ghost".to_string()), CharacterUpdate { name: Some("Boo".to_string()), image: None, voice: None }),
        UpdateNpcEvent(NpcId("orc".to_string()), CharacterUpdate { name: None, image: None, voice: Some("deep".to_string()) }),
    ];
    UpdateNpcEvent::handler(&mut w, &updates);
    let rec = w.npc(&NpcId("orc".to_string())).unwrap();
    assert_eq!(rec.entity.name(), "Grok");
    assert_eq!(rec.npc.image, NpcImage("images/grok.png".to_string()));
    assert_eq!(rec.npc.voice, NpcVoice("deep".to_string()));
    assert!(w.npc(&NpcId("ghost".to_string())).is_none());
}

#[test]
fn state_stack_checks_what_it_leaves() {
    let mut s = StateManager::new(GameState::WorldMap);
    assert_eq!(s.get(), Some(GameState::WorldMap));
    assert_eq!(s.pop(), None);
    assert_eq!(s.pop_expecting(GameState::WorldMap), Err(StateError::LastState));
    s.push(GameState::Dialogue);
    assert_eq!(s.pop_expecting(GameState::Battle), Err(StateError::Mismatch(GameState::Dialogue)));
    assert_eq!(s.get(), Some(GameState::Dialogue));
    assert_eq!(s.pop_expecting(GameState::Dialogue), Ok(GameState::WorldMap));
    s.push(GameState::Battle);
    assert_eq!(s.pop(), Some(GameState::Battle));
    assert_eq!(s.get(), Some(GameState::WorldMap));
}

fn talk_scene() -> Scene {
    let mut dialogue = Table::new();
    dialogue.insert(
        SceneSectionId("start".to_string()),
        Dialogue {
            lines: vec![Line { from: NpcId("orc".to_string()), text: "grr".to_string(), commands: Some(StaticCommands { battle: Some(NpcId("orc".to_string())), ..no_commands() }) }],
            responses: vec![],
            commands: None,
            continue_to: None,
        },
    );
    Scene { id: SceneId::new("talk"), music: None, definitions: Definitions { characters: None, vendors: None, quests: None }, dialogue, commands: None }
}

#[test]
fn scene_and_battle_handlers_follow_the_mode_stack() {
    let mut m = SceneManager::new().with_scene(talk_scene());
    let mut state = StateManager::new(GameState::WorldMap);
    let mut spawns: Vec<SpawnNpcEvent> = Vec::new();
    assert!(PlaySceneEvent::handler(&m, &vec![], &mut spawns, &mut state).is_none());
    assert!(PlaySceneEvent::handler(&m, &vec![PlaySceneEvent(SceneId::new("talk")), PlaySceneEvent(SceneId::new("nope"))], &mut spawns, &mut state).is_none());
    assert_eq!(state.get(), Some(GameState::WorldMap));
    let mut player = PlaySceneEvent::handler(&m, &vec![PlaySceneEvent(SceneId::new("nope")), PlaySceneEvent(SceneId::new("talk"))], &mut spawns, &mut state);
    assert!(player.is_some());
    assert_eq!(state.get(), Some(GameState::Dialogue));

    let b = SceneBookmark::new(&SceneId::new("talk"), Some(&SceneSectionId("start".to_string())), Some(0), None);
    let events = vec![StaticCommandsEvent(b.clone()), StaticCommandsEvent(b)];
    let mut battles: Vec<StartBattleEvent> = Vec::new();
    let mut updates: Vec<UpdateNpcEvent> = Vec::new();
    assert_eq!(StaticCommandsEvent::handler(&mut player, &mut m, &events, &mut battles, &mut updates), Ok(()));
    assert_eq!(battles.len(), 1);

    let w = world_with_orc();
    let battle = StartBattleEvent::handler(&w, &battles, &mut state).unwrap();
    assert_eq!(battle.0, NpcId("orc".to_string()));
    assert_eq!(state.get(), Some(GameState::Battle));
    assert_eq!(EndSceneEvent::handler(&vec![EndSceneEvent], &mut state), Err(StateError::Mismatch(GameState::Battle)));
    assert_eq!(EndBattleEvent::handler(&vec![], &mut state), Ok(false));
    assert_eq!(EndBattleEvent::handler(&vec![EndBattleEvent], &mut state), Ok(true));
    assert_eq!(EndSceneEvent::handler(&vec![EndSceneEvent, EndSceneEvent], &mut state), Ok(true));
    assert_eq!(state.get(), Some(GameState::WorldMap));

    let mut none: Option<ScenePlayer> = None;
    let more = vec![StaticCommandsEvent(SceneBookmark::new(&SceneId::new("talk"), None, None, None))];
    assert_eq!(StaticCommandsEvent::handler(&mut none, &mut m, &more, &mut battles, &mut updates), Err(SceneError::NoScenePlaying));
    assert_eq!(StaticCommandsEvent::handler(&mut none, &mut m, &vec![], &mut battles, &mut updates), Ok(()));
}

#[test]
fn battle_with_unknown_npc_does_not_start() {
    let w = world_with_orc();
    let mut state = StateManager::new(GameState::WorldMap);
    assert!(StartBattleEvent::handler(&w, &vec![StartBattleEvent(NpcId("ghost".to_string()))], &mut state).is_none());
    assert_eq!(state.get(), Some(GameState::WorldMap));
}

#[test]
fn positions_add_subtract_and_scale() {
    let a = Position::new(2, 3);
    let b = Position::new(1, 1);
    assert_eq!(a + b, Position::new(3, 4));
    assert_eq!(a - b, Position::new(1, 2));
    assert_eq!(a * 3, Position::new(6, 9));
    assert_eq!((a * 3).x(), 6);
    assert_eq!((a * 3).y(), 9);
}

#[test]
fn maps_are_kept_by_id() {
    let map = GameMap {
        id: MapId::new("town"),
        music: "\"town.ogg\"".to_string(),
        layers: MapLayers { ground: "g.png".to_string(), base: "b.png".to_string(), sky: None },
        definitions: Definitions { characters: None, vendors: None, quests: None },
        player_position: Position::new(1, 2),
        actions: vec![MapAction { position: ActionPosition::Position(Position::new(3, 3)), name: "door".to_string(), condition: None, commands: no_commands() }],
    };
    let m = MapManager::new().with_map(map);
    assert_eq!(m.get_map(&MapId::new("town")).unwrap().actions.len(), 1);
    assert!(m.get_map(&MapId::new("cave")).is_none());
}
