use rpg_core::components::{NpcId, NpcImage, NpcVoice};
use rpg_core::events::{EndSceneEvent, SpawnNpcEvent, StartBattleEvent, StaticCommandsEvent, UpdateNpcEvent};
use rpg_core::scenes::{
    Character, Condition, Dialogue, Line, Response, Scene, SceneBookmark, SceneError, SceneId,
    SceneManager, ScenePlayer, ScenePlayerInput, SceneSectionId,
};
use rpg_core::static_commands::{CharacterUpdate, Definitions, StaticCommands};
use rpg_core::table::Table;

fn no_commands() -> StaticCommands {
    StaticCommands {
        reward_gold: None,
        update_characters: None,
        scene_entry: None,
        variables: None,
        battle: None,
        kill_character: None,
        set_quest_stage: None,
        complete_quest: None,
    }
}

fn set_var(name: &str, value: &str) -> StaticCommands {
    let mut vars = Table::new();
    vars.insert(name.to_string(), value.to_string());
    StaticCommands { variables: Some(vars), ..no_commands() }
}

fn battle(npc: &str) -> StaticCommands {
    StaticCommands { battle: Some(NpcId(npc.to_string())), ..no_commands() }
}

fn line(text: &str, commands: Option<StaticCommands>) -> Line {
    Line { from: NpcId("narrator".to_string()), text: text.to_string(), commands }
}

fn response(text: &str, link: Option<&str>, conditions: Vec<Condition>, commands: Option<StaticCommands>) -> Response {
    Response {
        text: text.to_string(),
        link: link.map(|l| SceneSectionId(l.to_string())),
        skill_check: None,
        conditions,
        commands,
    }
}

fn dialogue(lines: Vec<Line>, responses: Vec<Response>, continue_to: Option<&str>) -> Dialogue {
    Dialogue {
        lines,
        responses,
        commands: None,
        continue_to: continue_to.map(|c| SceneSectionId(c.to_string())),
    }
}

fn no_definitions() -> Definitions {
    Definitions { characters: None, vendors: None, quests: None }
}

fn scene(id: &str, sections: Vec<(&str, Dialogue)>) -> Scene {
    let mut dialogue = Table::new();
    for (k, d) in sections {
        dialogue.insert(SceneSectionId(k.to_string()), d);
    }
    Scene { id: SceneId::new(id), music: None, definitions: no_definitions(), dialogue, commands: None }
}

fn var_equals(variable: &str, value: &str) -> Condition {
    Condition::VarEquals { variable: variable.to_string(), value: value.to_string() }
}

fn play(m: &SceneManager, id: &str) -> ScenePlayer {
    let mut spawns: Vec<SpawnNpcEvent> = Vec::new();
    m.play_scene(SceneId::new(id), &mut spawns).unwrap()
}

#[test]
fn two_lines_then_end() {
    let m = SceneManager::new().with_scene(scene(
        "intro",
        vec![("start", dialogue(vec![line("a", Some(set_var("x", "1"))), line("b", Some(set_var("y", "2")))], vec![], None))],
    ));
    let mut p = play(&m, "intro");
    let mut ends: Vec<EndSceneEvent> = Vec::new();
    let mut cmds: Vec<StaticCommandsEvent> = Vec::new();
    p.input(ScenePlayerInput::SelectCurrent, &m, &mut ends, &mut cmds).unwrap();
    assert!(ends.is_empty());
    assert_eq!(cmds.len(), 1);
    assert_eq!(cmds[0].0, SceneBookmark::new(&SceneId::new("intro"), Some(&SceneSectionId("start".to_string())), Some(0), None));
    let part = p.get_current(&m, &mut cmds).unwrap().unwrap();
    assert_eq!(part.line.text, "b");
    assert!(part.responses.is_some());
    p.input(ScenePlayerInput::SelectCurrent, &m, &mut ends, &mut cmds).unwrap();
    assert_eq!(ends.len(), 1);
    assert_eq!(cmds.len(), 2);
    assert_eq!(cmds[1].0, SceneBookmark::new(&SceneId::new("intro"), Some(&SceneSectionId("start".to_string())), Some(1), None));
}

#[test]
fn not_of_nothing_is_true_any_of_nothing_is_false() {
    let m = SceneManager::new();
    assert_eq!(Condition::Not { conditions: vec![] }.evaluate(&m), Ok(true));
    assert_eq!(Condition::Any { conditions: vec![] }.evaluate(&m), Ok(false));
}

#[test]
fn var_equals_needs_the_variable_set_to_the_value() {
    let mut m = SceneManager::new();
    assert_eq!(var_equals("door", "open").evaluate(&m), Ok(false));
    let mut vars = Table::new();
    vars.insert("door".to_string(), "open".to_string());
    m.update_variables(&vars);
    assert_eq!(var_equals("door", "open").evaluate(&m), Ok(true));
    assert_eq!(var_equals("door", "shut").evaluate(&m), Ok(false));
    assert_eq!(Condition::Any { conditions: vec![var_equals("door", "shut"), var_equals("door", "open")] }.evaluate(&m), Ok(true));
    assert_eq!(Condition::Not { conditions: vec![var_equals("door", "shut"), var_equals("door", "open")] }.evaluate(&m), Ok(false));
    assert_eq!(m.get_variable("door"), Some(&"open".to_string()));
    assert_eq!(m.get_variable("window"), None);
}

#[test]
fn reserved_conditions_are_errors() {
    let m = SceneManager::new();
    assert_eq!(Condition::HasItem.evaluate(&m), Err(SceneError::UnsupportedCondition));
    assert_eq!(Condition::QuestStage.evaluate(&m), Err(SceneError::UnsupportedCondition));
    assert_eq!(Condition::Any { conditions: vec![Condition::HasItem] }.evaluate(&m), Err(SceneError::UnsupportedCondition));
    assert_eq!(Condition::Not { conditions: vec![var_equals("a", "b"), Condition::QuestStage] }.evaluate(&m), Err(SceneError::UnsupportedCondition));
}

#[test]
fn response_gated_by_unset_variable_is_hidden() {
    let m = SceneManager::new().with_scene(scene(
        "s",
        vec![(
            "start",
            dialogue(
                vec![line("hello", None)],
                vec![
                    response("always", None, vec![], None),
                    response("secret", None, vec![var_equals("knows", "yes")], None),
                    response("not secret", None, vec![Condition::Not { conditions: vec![var_equals("knows", "yes")] }], None),
                ],
                None,
            ),
        )],
    ));
    let p = play(&m, "s");
    let mut cmds: Vec<StaticCommandsEvent> = Vec::new();
    let part = p.get_current(&m, &mut cmds).unwrap().unwrap();
    let texts: Vec<&str> = part.responses.unwrap().iter().map(|r| r.text.as_str()).collect();
    assert_eq!(texts, vec!["always", "not secret"]);
}

#[test]
fn reserved_condition_in_a_response_is_an_error() {
    let m = SceneManager::new().with_scene(scene(
        "s",
        vec![("start", dialogue(vec![line("hello", None)], vec![response("r", None, vec![Condition::HasItem], None)], None))],
    ));
    let p = play(&m, "s");
    let mut cmds: Vec<StaticCommandsEvent> = Vec::new();
    assert_eq!(p.get_current(&m, &mut cmds).err(), Some(SceneError::UnsupportedCondition));
}

#[test]
fn move_down_stops_at_last_response() {
    let m = SceneManager::new().with_scene(scene(
        "s",
        vec![(
            "start",
            dialogue(vec![line("q", None)], vec![response("a", None, vec![], None), response("b", None, vec![], None), response("c", None, vec![], None)], None),
        )],
    ));
    let mut p = play(&m, "s");
    let mut ends: Vec<EndSceneEvent> = Vec::new();
    let mut cmds: Vec<StaticCommandsEvent> = Vec::new();
    for _ in 0..10 {
        p.input(ScenePlayerInput::MoveDown, &m, &mut ends, &mut cmds).unwrap();
        assert!(p.highlighted_response() <= 2);
    }
    assert_eq!(p.highlighted_response(), 2);
    p.input(ScenePlayerInput::MoveUp, &m, &mut ends, &mut cmds).unwrap();
    assert_eq!(p.highlighted_response(), 1);
    for _ in 0..5 {
        p.input(ScenePlayerInput::MoveUp, &m, &mut ends, &mut cmds).unwrap();
    }
    assert_eq!(p.highlighted_response(), 0);
    p.input(ScenePlayerInput::MoveTo(7), &m, &mut ends, &mut cmds).unwrap();
    assert_eq!(p.highlighted_response(), 7);
    p.input(ScenePlayerInput::MoveDown, &m, &mut ends, &mut cmds).unwrap();
    assert_eq!(p.highlighted_response(), 2);
    assert!(ends.is_empty());
}

#[test]
fn move_down_without_responses_stays_at_zero() {
    let m = SceneManager::new().with_scene(scene("s", vec![("start", dialogue(vec![line("q", None)], vec![], None))]));
    let mut p = play(&m, "s");
    let mut ends: Vec<EndSceneEvent> = Vec::new();
    let mut cmds: Vec<StaticCommandsEvent> = Vec::new();
    for _ in 0..3 {
        p.input(ScenePlayerInput::MoveDown, &m, &mut ends, &mut cmds).unwrap();
    }
    assert_eq!(p.highlighted_response(), 0);
}

#[test]
fn bookmarked_commands_run_once() {
    let mut m = SceneManager::new().with_scene(scene(
        "s",
        vec![("start", dialogue(vec![line("fight!", Some(battle("orc")))], vec![], None))],
    ));
    let mut p = play(&m, "s");
    let b = SceneBookmark::new(&SceneId::new("s"), Some(&SceneSectionId("start".to_string())), Some(0), None);
    let mut battles: Vec<StartBattleEvent> = Vec::new();
    let mut updates: Vec<UpdateNpcEvent> = Vec::new();
    p.execute(b.clone(), &mut m, &mut battles, &mut updates);
    p.execute(b, &mut m, &mut battles, &mut updates);
    assert_eq!(battles.len(), 1);
    assert_eq!(battles[0].0, NpcId("orc".to_string()));
}

#[test]
fn commands_set_variables_entries_and_update_npcs() {
    let mut entry = Table::new();
    entry.insert(SceneId::new("s"), SceneSectionId("later".to_string()));
    let mut upd = Table::new();
    upd.insert(NpcId("bob".to_string()), CharacterUpdate { name: Some("Robert".to_string()), image: None, voice: None });
    let mut vars = Table::new();
    vars.insert("met_bob".to_string(), "yes".to_string());
    let cmds = StaticCommands { scene_entry: Some(entry), update_characters: Some(upd), variables: Some(vars), ..no_commands() };
    let mut m = SceneManager::new().with_scene(scene("s", vec![("start", dialogue(vec![], vec![], None)), ("later", dialogue(vec![], vec![], None))]));
    let mut battles: Vec<StartBattleEvent> = Vec::new();
    let mut updates: Vec<UpdateNpcEvent> = Vec::new();
    cmds.execute(&mut m, &mut battles, &mut updates);
    assert!(battles.is_empty());
    assert_eq!(updates.len(), 1);
    assert_eq!(updates[0].0, NpcId("bob".to_string()));
    assert_eq!(updates[0].1.name, Some("Robert".to_string()));
    assert_eq!(m.get_variable("met_bob"), Some(&"yes".to_string()));
    assert_eq!(m.get_scene_entry(&SceneId::new("s")), Some(&SceneSectionId("later".to_string())));
    let p = play(&m, "s");
    let mut events: Vec<StaticCommandsEvent> = Vec::new();
    assert!(p.get_current(&m, &mut events).unwrap().is_none());
}

#[test]
fn play_unknown_scene_is_none() {
    let m = SceneManager::new();
    let mut spawns: Vec<SpawnNpcEvent> = Vec::new();
    assert!(m.play_scene(SceneId::new("nowhere"), &mut spawns).is_none());
    assert!(spawns.is_empty());
}

#[test]
fn play_scene_spawns_defined_characters_and_uses_entry() {
    let mut chars = Table::new();
    chars.insert(NpcId("bob".to_string()), Character { name: "Bob".to_string(), image: NpcImage::default(), voice: NpcVoice::default() });
    let mut s = scene("s", vec![("start", dialogue(vec![line("hi", None)], vec![], None)), ("second", dialogue(vec![line("again", None)], vec![], None))]);
    s.definitions = Definitions { characters: Some(chars), vendors: None, quests: None };
    let mut m = SceneManager::new().with_scene(s);
    let mut spawns: Vec<SpawnNpcEvent> = Vec::new();
    let p = m.play_scene(SceneId::new("s"), &mut spawns).unwrap();
    assert_eq!(spawns.len(), 1);
    assert_eq!(spawns[0].0, NpcId("bob".to_string()));
    assert_eq!(spawns[0].1.name, "Bob");
    assert_eq!(spawns[0].1.image.0, "images/mysterious.png");
    let mut cmds: Vec<StaticCommandsEvent> = Vec::new();
    assert_eq!(p.get_current(&m, &mut cmds).unwrap().unwrap().line.text, "hi");
    assert_eq!(m.update_scene_entry(SceneId::new("s"), SceneSectionId("second".to_string())), None);
    let p = m.play_scene(SceneId::new("s"), &mut spawns).unwrap();
    assert_eq!(p.get_current(&m, &mut cmds).unwrap().unwrap().line.text, "again");
}

#[test]
fn response_link_jumps_and_runs_response_commands() {
    let m = SceneManager::new().with_scene(scene(
        "s",
        vec![
            ("start", dialogue(vec![line("q", None)], vec![response("stay", None, vec![], None), response("go", Some("next"), vec![], Some(set_var("went", "1")))], None)),
            ("next", dialogue(vec![line("arrived", None)], vec![], None)),
        ],
    ));
    let mut p = play(&m, "s");
    let mut ends: Vec<EndSceneEvent> = Vec::new();
    let mut cmds: Vec<StaticCommandsEvent> = Vec::new();
    p.input(ScenePlayerInput::Select(1), &m, &mut ends, &mut cmds).unwrap();
    assert!(ends.is_empty());
    assert_eq!(cmds.len(), 1);
    assert_eq!(cmds[0].0, SceneBookmark::new(&SceneId::new("s"), Some(&SceneSectionId("start".to_string())), None, Some(1)));
    assert_eq!(p.highlighted_response(), 0);
    assert_eq!(p.get_current(&m, &mut cmds).unwrap().unwrap().line.text, "arrived");
}

#[test]
fn response_without_link_ends_scene() {
    let m = SceneManager::new().with_scene(scene(
        "s",
        vec![("start", dialogue(vec![line("q", None)], vec![response("bye", None, vec![], None)], Some("other")))],
    ));
    let mut p = play(&m, "s");
    let mut ends: Vec<EndSceneEvent> = Vec::new();
    let mut cmds: Vec<StaticCommandsEvent> = Vec::new();
    p.input(ScenePlayerInput::SelectCurrent, &m, &mut ends, &mut cmds).unwrap();
    assert_eq!(ends.len(), 1);
}

#[test]
fn continue_to_follows_when_no_response() {
    let m = SceneManager::new().with_scene(scene(
        "s",
        vec![("start", dialogue(vec![line("q", None)], vec![], Some("other"))), ("other", dialogue(vec![line("there", None)], vec![], None))],
    ));
    let mut p = play(&m, "s");
    let mut ends: Vec<EndSceneEvent> = Vec::new();
    let mut cmds: Vec<StaticCommandsEvent> = Vec::new();
    p.input(ScenePlayerInput::SelectCurrent, &m, &mut ends, &mut cmds).unwrap();
    assert!(ends.is_empty());
    assert_eq!(p.get_current(&m, &mut cmds).unwrap().unwrap().line.text, "there");
}

#[test]
fn empty_section_ends_scene_on_select() {
    let mut d = dialogue(vec![], vec![], Some("other"));
    d.commands = Some(set_var("seen", "1"));
    let m = SceneManager::new().with_scene(scene("s", vec![("start", d)]));
    let mut p = play(&m, "s");
    let mut ends: Vec<EndSceneEvent> = Vec::new();
    let mut cmds: Vec<StaticCommandsEvent> = Vec::new();
    assert!(p.get_current(&m, &mut cmds).unwrap().is_none());
    assert_eq!(cmds.len(), 1);
    assert_eq!(cmds[0].0, SceneBookmark::new(&SceneId::new("s"), Some(&SceneSectionId("start".to_string())), None, None));
    p.input(ScenePlayerInput::SelectCurrent, &m, &mut ends, &mut cmds).unwrap();
    assert_eq!(ends.len(), 1);
}

#[test]
fn missing_scene_and_section_are_errors() {
    let m = SceneManager::new().with_scene(scene("s", vec![("start", dialogue(vec![line("q", None)], vec![], None))]));
    let mut ends: Vec<EndSceneEvent> = Vec::new();
    let mut cmds: Vec<StaticCommandsEvent> = Vec::new();
    let mut lost = ScenePlayer::new(SceneId::new("gone"), None);
    assert_eq!(lost.input(ScenePlayerInput::SelectCurrent, &m, &mut ends, &mut cmds), Err(SceneError::UnknownScene));
    let mut astray = ScenePlayer::new(SceneId::new("s"), Some(SceneSectionId("nowhere".to_string())));
    assert_eq!(astray.input(ScenePlayerInput::MoveDown, &m, &mut ends, &mut cmds), Err(SceneError::UnknownSection));
    assert!(astray.get_current(&m, &mut cmds).is_err());
    assert!(cmds.is_empty());
    assert!(ends.is_empty());
}

#[test]
fn line_past_end_is_an_error() {
    let m = SceneManager::new().with_scene(scene("s", vec![("start", dialogue(vec![line("q", None)], vec![], None))]));
    let mut p = ScenePlayer::new(SceneId::new("s"), None);
    p.advance_line();
    let mut ends: Vec<EndSceneEvent> = Vec::new();
    let mut cmds: Vec<StaticCommandsEvent> = Vec::new();
    assert_eq!(p.input(ScenePlayerInput::SelectCurrent, &m, &mut ends, &mut cmds), Err(SceneError::LinePastEnd));
    assert_eq!(p.get_current(&m, &mut cmds).err(), Some(SceneError::LinePastEnd));
    p.reset_line();
    assert!(p.get_current(&m, &mut cmds).is_ok());
}

#[test]
fn bookmarks_compare_by_all_parts() {
    let s = SceneId::new("s");
    let k = SceneSectionId("k".to_string());
    assert_eq!(SceneBookmark::new(&s, Some(&k), Some(1), None), SceneBookmark::new(&s, Some(&k), Some(1), None));
    assert_ne!(SceneBookmark::new(&s, Some(&k), Some(1), None), SceneBookmark::new(&s, Some(&k), None, Some(1)));
    assert_ne!(SceneBookmark::new(&s, Some(&k), None, None), SceneBookmark::new(&s, None, None, None));
}

#[test]
fn default_section_and_character() {
    assert_eq!(SceneSectionId::default(), SceneSectionId("start".to_string()));
    let c = Character::default();
    assert_eq!(c.name, "?");
    assert_eq!(c.voice.0, "default");
}

#[test]
fn table_insert_returns_previous() {
    let mut t: Table<String, String> = Table::new();
    assert_eq!(t.insert("a".to_string(), "1".to_string()), None);
    assert_eq!(t.insert("a".to_string(), "2".to_string()), Some("1".to_string()));
    assert_eq!(t.len(), 1);
    assert_eq!(t.get(&"a".to_string()), Some(&"2".to_string()));
    assert!(t.contains_key(&"a".to_string()));
    assert!(!t.contains_key(&"b".to_string()));
}

#[test]
fn hidden_responses_are_skipped_when_selecting() {
    let m = SceneManager::new().with_scene(scene(
        "s",
        vec![
            (
                "start",
                dialogue(
                    vec![line("q", None)],
                    vec![
                        response("secret", Some("secret"), vec![var_equals("knows", "yes")], Some(battle("orc"))),
                        response("plain", Some("plain"), vec![], Some(set_var("chose", "plain"))),
                    ],
                    None,
                ),
            ),
            ("secret", dialogue(vec![line("hidden place", None)], vec![], None)),
            ("plain", dialogue(vec![line("plain place", None)], vec![], None)),
        ],
    ));
    let mut p = play(&m, "s");
    let mut ends: Vec<EndSceneEvent> = Vec::new();
    let mut cmds: Vec<StaticCommandsEvent> = Vec::new();
    for _ in 0..3 {
        p.input(ScenePlayerInput::MoveDown, &m, &mut ends, &mut cmds).unwrap();
    }
    assert_eq!(p.highlighted_response(), 0);
    p.input(ScenePlayerInput::Select(0), &m, &mut ends, &mut cmds).unwrap();
    assert_eq!(cmds.len(), 1);
    assert_eq!(cmds[0].0, SceneBookmark::new(&SceneId::new("s"), Some(&SceneSectionId("start".to_string())), None, Some(1)));
    assert_eq!(p.get_current(&m, &mut cmds).unwrap().unwrap().line.text, "plain place");
}

#[test]
fn errors_queue_no_signal() {
    let mut d = dialogue(vec![line("q", None)], vec![response("r", None, vec![Condition::QuestStage], None)], None);
    d.commands = Some(set_var("seen", "1"));
    let m = SceneManager::new().with_scene(scene("s", vec![("start", d)]));
    let mut ends: Vec<EndSceneEvent> = Vec::new();
    let mut cmds: Vec<StaticCommandsEvent> = Vec::new();
    let mut p = ScenePlayer::new(SceneId::new("s"), None);
    assert_eq!(p.input(ScenePlayerInput::Select(0), &m, &mut ends, &mut cmds), Err(SceneError::UnsupportedCondition));
    assert_eq!(p.highlighted_response(), 0);
    assert_eq!(p.input(ScenePlayerInput::MoveDown, &m, &mut ends, &mut cmds), Err(SceneError::UnsupportedCondition));
    assert!(p.get_current(&m, &mut cmds).is_err());
    p.advance_line();
    assert_eq!(p.input(ScenePlayerInput::SelectCurrent, &m, &mut ends, &mut cmds), Err(SceneError::LinePastEnd));
    assert_eq!(p.get_current(&m, &mut cmds).err(), Some(SceneError::LinePastEnd));
    assert!(cmds.is_empty());
    assert!(ends.is_empty());
    p.input(ScenePlayerInput::MoveUp, &m, &mut ends, &mut cmds).unwrap();
    assert_eq!(cmds.len(), 1);
}
