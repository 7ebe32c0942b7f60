//! Declarative command payloads attached to scene content, and what running
//! them does to the story state.
use vstd::prelude::*;

use crate::components::NpcId;
use crate::events::{SpawnNpcEvent, StartBattleEvent, UpdateNpcEvent};
use crate::scenes::{Character, SceneId, SceneManager, SceneSectionId};
use crate::table::{Duplicate, Table};

verus! {

/// Characters (and, reserved for later, vendors and quests) that a scene
/// or map defines. Vendor and quest definitions are kept as their source
/// text and not acted on.
#[derive(Debug)]
pub struct Definitions {
    pub characters: Option<Table<NpcId, Character>>,
    pub vendors: Option<String>,
    pub quests: Option<String>,
}

/// The spawn signals for the characters of `characters`, in table order.
pub open spec fn spawn_events(characters: Option<Table<NpcId, Character>>) -> Seq<(Seq<char>, Character)> {
    match characters {
        Some(t) => t.items().map_values(|p: (NpcId, Character)| (p.0@, p.1)),
        None => Seq::empty(),
    }
}

pub open spec fn spawned(events: Seq<SpawnNpcEvent>) -> Seq<(Seq<char>, Character)> {
    events.map_values(|e: SpawnNpcEvent| (e.0@, e.1))
}

impl Definitions {
    /// Emits one spawn signal per defined character.
    pub fn create(&self, spawn_npc_event: &mut Vec<SpawnNpcEvent>)
        ensures
            spawned(final(spawn_npc_event)@) == spawned(old(spawn_npc_event)@) + spawn_events(
                self.characters,
            ),
    {
        let ghost start = spawned(spawn_npc_event@);
        if let Some(characters) = &self.characters {
            let ghost s = characters.items();
            let mut i: usize = 0;
            while i < characters.len()
                invariant
                    i <= s.len(),
                    s == characters.items(),
                    spawned(spawn_npc_event@) == start + s.take(i as int).map_values(
                        |p: (NpcId, Character)| (p.0@, p.1),
                    ),
                decreases s.len() - i,
            {
                let entry = characters.entry_at(i);
                let ghost before = spawn_npc_event@;
                let ev = SpawnNpcEvent(entry.0.duplicate(), entry.1.duplicate());
                spawn_npc_event.push(ev);
                proof {
                    assert(s.take(i + 1) == s.take(i as int).push(s[i as int]));
                    assert(spawned(spawn_npc_event@) =~= spawned(before).push((s[i as int].0@, s[i as int].1)));
                }
                i = i + 1;
                proof {
                    assert(spawned(spawn_npc_event@) =~= start + s.take(i as int).map_values(
                        |p: (NpcId, Character)| (p.0@, p.1),
                    ));
                }
            }
            proof {
                assert(s.take(s.len() as int) == s);
            }
        } else {
            assert(spawned(spawn_npc_event@) =~= start + spawn_events(self.characters));
        }
    }
}

/// Changes to apply to an existing NPC; absent fields stay as they are.
#[derive(Debug, Clone, PartialEq, Eq)]
pub struct CharacterUpdate {
    pub name: Option<String>,
    pub image: Option<String>,
    pub voice: Option<String>,
}

fn duplicate_text(s: &Option<String>) -> (r: Option<String>)
    ensures
        r == *s,
{
    match s {
        Some(t) => Some(t.clone()),
        None => None,
    }
}

impl Duplicate for CharacterUpdate {
    fn duplicate(&self) -> (r: Self) {
        CharacterUpdate {
            name: duplicate_text(&self.name),
            image: duplicate_text(&self.image),
            voice: duplicate_text(&self.voice),
        }
    }
}

/// Gold that an NPC hands over.
#[derive(Debug, Clone, PartialEq, Eq)]
pub struct RewardGoldCommand {
    pub amount: u32,
    pub from: NpcId,
}

/// A command payload. Gold rewards, killing characters and quest stages
/// are accepted but reserved: running them does nothing yet.
#[derive(Debug)]
pub struct StaticCommands {
    pub reward_gold: Option<RewardGoldCommand>,
    pub update_characters: Option<Table<NpcId, CharacterUpdate>>,
    pub scene_entry: Option<Table<SceneId, SceneSectionId>>,
    pub variables: Option<Table<String, String>>,
    pub battle: Option<NpcId>,
    pub kill_character: Option<String>,
    pub set_quest_stage: Option<String>,
    pub complete_quest: Option<String>,
}

/// Story variables after running `c`: its variables overwrite.
pub open spec fn variables_after(c: Option<StaticCommands>, vars: Map<Seq<char>, String>) -> Map<
    Seq<char>,
    String,
> {
    match c {
        Some(c) => match c.variables {
            Some(t) => vars.union_prefer_right(t@),
            None => vars,
        },
        None => vars,
    }
}

/// Scene entry points after running `c`: its entries overwrite.
pub open spec fn entries_after(
    c: Option<StaticCommands>,
    entries: Map<Seq<char>, SceneSectionId>,
) -> Map<Seq<char>, SceneSectionId> {
    match c {
        Some(c) => match c.scene_entry {
            Some(t) => entries.union_prefer_right(t@),
            None => entries,
        },
        None => entries,
    }
}

/// The NPC ids of the start-battle signals that running `c` emits.
pub open spec fn battles_of(c: Option<StaticCommands>) -> Seq<Seq<char>> {
    match c {
        Some(c) => match c.battle {
            Some(n) => seq![n@],
            None => Seq::empty(),
        },
        None => Seq::empty(),
    }
}

/// The NPC updates that running `c` emits, in table order.
pub open spec fn updates_of(c: Option<StaticCommands>) -> Seq<(Seq<char>, CharacterUpdate)> {
    match c {
        Some(c) => match c.update_characters {
            Some(t) => t.items().map_values(|p: (NpcId, CharacterUpdate)| (p.0@, p.1)),
            None => Seq::empty(),
        },
        None => Seq::empty(),
    }
}

pub open spec fn battle_ids(events: Seq<StartBattleEvent>) -> Seq<Seq<char>> {
    events.map_values(|e: StartBattleEvent| e.0@)
}

pub open spec fn npc_updates(events: Seq<UpdateNpcEvent>) -> Seq<(Seq<char>, CharacterUpdate)> {
    events.map_values(|e: UpdateNpcEvent| (e.0@, e.1))
}

impl StaticCommands {
    /// Runs the commands on the story state held apart from the scenes.
    pub(crate) fn apply(
        &self,
        variables: &mut Table<String, String>,
        entries: &mut Table<SceneId, SceneSectionId>,
        start_battle_event: &mut Vec<StartBattleEvent>,
        update_npc_event: &mut Vec<UpdateNpcEvent>,
    )
        ensures
            final(variables)@ == variables_after(Some(*self), old(variables)@),
            final(entries)@ == entries_after(Some(*self), old(entries)@),
            battle_ids(final(start_battle_event)@) == battle_ids(old(start_battle_event)@) + battles_of(
                Some(*self),
            ),
            npc_updates(final(update_npc_event)@) == npc_updates(old(update_npc_event)@) + updates_of(
                Some(*self),
            ),
    {
        let ghost start = npc_updates(update_npc_event@);
        if let Some(update_characters) = &self.update_characters {
            let ghost s = update_characters.items();
            let mut i: usize = 0;
            while i < update_characters.len()
                invariant
                    i <= s.len(),
                    s == update_characters.items(),
                    npc_updates(update_npc_event@) == start + s.take(i as int).map_values(
                        |p: (NpcId, CharacterUpdate)| (p.0@, p.1),
                    ),
                decreases s.len() - i,
            {
                let entry = update_characters.entry_at(i);
                let ghost before = update_npc_event@;
                let ev = UpdateNpcEvent(entry.0.duplicate(), entry.1.duplicate());
                update_npc_event.push(ev);
                proof {
                    assert(s.take(i + 1) == s.take(i as int).push(s[i as int]));
                    assert(npc_updates(update_npc_event@) =~= npc_updates(before).push((s[i as int].0@, s[i as int].1)));
                }
                i = i + 1;
                proof {
                    assert(npc_updates(update_npc_event@) =~= start + s.take(i as int).map_values(
                        |p: (NpcId, CharacterUpdate)| (p.0@, p.1),
                    ));
                }
            }
            proof {
                assert(s.take(s.len() as int) == s);
            }
        } else {
            assert(npc_updates(update_npc_event@) =~= start + updates_of(Some(*self)));
        }
        if let Some(scene_entry) = &self.scene_entry {
            entries.extend_from(scene_entry);
        }
        if let Some(vars) = &self.variables {
            variables.extend_from(vars);
        }
        let ghost b = battle_ids(start_battle_event@);
        if let Some(battle) = &self.battle {
            start_battle_event.push(StartBattleEvent(battle.duplicate()));
            assert(battle_ids(start_battle_event@) =~= b + battles_of(Some(*self)));
        } else {
            assert(battle_ids(start_battle_event@) =~= b + battles_of(Some(*self)));
        }
    }

    /// Runs the commands: NPC updates and a battle are signalled, scene
    /// entry points and story variables are overwritten with the given ones.
    pub fn execute(
        &self,
        scene_manager: &mut SceneManager,
        start_battle_event: &mut Vec<StartBattleEvent>,
        update_npc_event: &mut Vec<UpdateNpcEvent>,
    )
        ensures
            final(scene_manager).spec_scenes() == old(scene_manager).spec_scenes(),
            final(scene_manager).spec_variables() == variables_after(
                Some(*self),
                old(scene_manager).spec_variables(),
            ),
            final(scene_manager).spec_entries() == entries_after(
                Some(*self),
                old(scene_manager).spec_entries(),
            ),
            battle_ids(final(start_battle_event)@) == battle_ids(old(start_battle_event)@) + battles_of(
                Some(*self),
            ),
            npc_updates(final(update_npc_event)@) == npc_updates(old(update_npc_event)@) + updates_of(
                Some(*self),
            ),
    {
        scene_manager.run_commands(self, start_battle_event, update_npc_event)
    }
}

} // verus!
