//! Signals the core emits for the surrounding game to act on. Each kind is
//! queued on a `Vec` that the caller drains.
use vstd::prelude::*;

use crate::components::{attack_value, NpcId};
use crate::items::ItemManager;
use crate::scenes::{
    bookmarks_of, command_state, execute_state, BookmarkView, Character, CommandState, Scene,
    SceneBookmark, SceneError, SceneId, SceneManager, ScenePlayer,
};
use crate::state::{Battle, GameState, StateError, StateManager};
use crate::static_commands::{spawn_events, spawned, CharacterUpdate};
use crate::table::Duplicate;
use crate::world::{
    after_hit, after_update, entity_of, hit_kills, npc_index, spawn_step, EntityRef, World, WorldView,
};

verus! {

/// One entity attacks another.
#[derive(Debug)]
pub struct AttackEvent {
    pub attacker: EntityRef,
    pub victim: EntityRef,
}

/// An entity takes a hit.
#[derive(Debug)]
pub struct DamageEvent {
    pub victim: EntityRef,
    pub damage: u32,
}

/// An entity died.
#[derive(Debug)]
pub struct DeathEvent(pub EntityRef);

/// A scene is to be played.
#[derive(Debug)]
pub struct PlaySceneEvent(pub SceneId);

/// The current battle is over.
#[derive(Clone, Copy, Debug, PartialEq, Eq, Structural)]
pub struct EndBattleEvent;

/// The current scene is over.
#[derive(Clone, Copy, Debug, PartialEq, Eq, Structural)]
pub struct EndSceneEvent;

/// The commands at the bookmarked site of the scene graph are to run.
#[derive(Debug)]
pub struct StaticCommandsEvent(pub SceneBookmark);

/// A battle against the named NPC is to start.
#[derive(Debug)]
pub struct StartBattleEvent(pub NpcId);

/// The named NPC is to be created from its definition, unless it exists.
#[derive(Debug)]
pub struct SpawnNpcEvent(pub NpcId, pub Character);

/// The named NPC is to take the given changes.
#[derive(Debug)]
pub struct UpdateNpcEvent(pub NpcId, pub CharacterUpdate);

/// The hits that `attacks` cause, in order: each attack between two
/// existing entities hits the victim with the attacker's attack damage.
pub open spec fn attack_outcomes(
    w: WorldView,
    catalog: Map<Seq<char>, crate::items::AnyItem>,
    attacks: Seq<AttackEvent>,
) -> Seq<(Option<Seq<char>>, u32)>
    decreases attacks.len(),
{
    if attacks.len() == 0 {
        Seq::empty()
    } else {
        let prev = attack_outcomes(w, catalog, attacks.drop_last());
        let a = attacks.last();
        match (entity_of(w, a.attacker@), entity_of(w, a.victim@)) {
            (Some(e), Some(_)) => prev.push((a.victim@, attack_value(e, catalog))),
            _ => prev,
        }
    }
}

pub open spec fn hits_of(events: Seq<DamageEvent>) -> Seq<(Option<Seq<char>>, u32)> {
    events.map_values(|e: DamageEvent| (e.victim@, e.damage))
}

/// The world after the hits `hits`, in order.
pub open spec fn world_after_hits(w: WorldView, hits: Seq<DamageEvent>) -> WorldView
    decreases hits.len(),
{
    if hits.len() == 0 {
        w
    } else {
        after_hit(world_after_hits(w, hits.drop_last()), hits.last().victim@, hits.last().damage as nat)
    }
}

/// The victims that the hits `hits` leave dead, one per killing hit.
pub open spec fn deaths_from_hits(w: WorldView, hits: Seq<DamageEvent>) -> Seq<Option<Seq<char>>>
    decreases hits.len(),
{
    if hits.len() == 0 {
        Seq::empty()
    } else {
        let prev = deaths_from_hits(w, hits.drop_last());
        let h = hits.last();
        if hit_kills(world_after_hits(w, hits.drop_last()), h.victim@, h.damage as nat) {
            prev.push(h.victim@)
        } else {
            prev
        }
    }
}

pub open spec fn dead_of(events: Seq<DeathEvent>) -> Seq<Option<Seq<char>>> {
    events.map_values(|e: DeathEvent| e.0@)
}

/// The world after the NPC updates `updates`, in order.
pub open spec fn world_after_updates(w: WorldView, updates: Seq<UpdateNpcEvent>) -> WorldView
    decreases updates.len(),
{
    if updates.len() == 0 {
        w
    } else {
        let u = updates.last();
        after_update(world_after_updates(w, updates.drop_last()), u.0@, u.1)
    }
}

/// Running the bookmarks `bs` in order.
pub open spec fn execute_all(scenes: Map<Seq<char>, Scene>, s: CommandState, bs: Seq<BookmarkView>) -> CommandState
    decreases bs.len(),
{
    if bs.len() == 0 {
        s
    } else {
        execute_state(scenes, execute_all(scenes, s, bs.drop_last()), bs.last())
    }
}

impl AttackEvent {
    /// Turns each attack between existing entities into a hit on the victim.
    pub fn handler(
        world: &World,
        attack_events: &Vec<AttackEvent>,
        damage_event: &mut Vec<DamageEvent>,
        item_manager: &ItemManager,
    )
        ensures
            hits_of(final(damage_event)@) == hits_of(old(damage_event)@) + attack_outcomes(
                world@,
                item_manager@,
                attack_events@,
            ),
    {
        let ghost start = hits_of(damage_event@);
        let ghost es = attack_events@;
        let mut i: usize = 0;
        while i < attack_events.len()
            invariant
                i <= es.len(),
                es == attack_events@,
                hits_of(damage_event@) == start + attack_outcomes(world@, item_manager@, es.take(i as int)),
            decreases es.len() - i,
        {
            proof {
                assert(es.take(i + 1).drop_last() == es.take(i as int));
                assert(es.take(i + 1).last() == es[i as int]);
            }
            let a = &attack_events[i];
            let ghost before = damage_event@;
            match (world.entity(&a.attacker), world.entity(&a.victim)) {
                (Some(attacker), Some(_)) => {
                    let damage = attacker.attack_damage(item_manager);
                    damage_event.push(DamageEvent { victim: a.victim.duplicate(), damage });
                    assert(hits_of(damage_event@) =~= hits_of(before).push((a.victim@, damage)));
                },
                _ => {},
            }
            i = i + 1;
        }
        proof {
            assert(es.take(es.len() as int) == es);
        }
    }
}

impl DamageEvent {
    /// Applies each hit in order and signals each death it causes.
    pub fn handler(world: &mut World, damage_events: &Vec<DamageEvent>, death_event: &mut Vec<DeathEvent>)
        requires
            old(world).wf(),
        ensures
            final(world).wf(),
            final(world)@ == world_after_hits(old(world)@, damage_events@),
            dead_of(final(death_event)@) == dead_of(old(death_event)@) + deaths_from_hits(
                old(world)@,
                damage_events@,
            ),
    {
        let ghost w0 = world@;
        let ghost start = dead_of(death_event@);
        let ghost es = damage_events@;
        let mut i: usize = 0;
        while i < damage_events.len()
            invariant
                i <= es.len(),
                es == damage_events@,
                world.wf(),
                world@ == world_after_hits(w0, es.take(i as int)),
                dead_of(death_event@) == start + deaths_from_hits(w0, es.take(i as int)),
            decreases es.len() - i,
        {
            proof {
                assert(es.take(i + 1).drop_last() == es.take(i as int));
                assert(es.take(i + 1).last() == es[i as int]);
            }
            let e = &damage_events[i];
            let ghost before = death_event@;
            match world.damage_entity(&e.victim, e.damage) {
                Some(res) => {
                    if res.life_status.is_dead() {
                        death_event.push(DeathEvent(e.victim.duplicate()));
                        assert(dead_of(death_event@) =~= dead_of(before).push(e.victim@));
                    }
                },
                None => {},
            }
            i = i + 1;
        }
        proof {
            assert(es.take(es.len() as int) == es);
        }
    }
}

impl UpdateNpcEvent {
    /// Applies each NPC update in order; updates of unknown NPCs change nothing.
    pub fn handler(world: &mut World, update_npc_events: &Vec<UpdateNpcEvent>)
        requires
            old(world).wf(),
        ensures
            final(world).wf(),
            final(world)@ == world_after_updates(old(world)@, update_npc_events@),
    {
        let ghost w0 = world@;
        let ghost es = update_npc_events@;
        let mut i: usize = 0;
        while i < update_npc_events.len()
            invariant
                i <= es.len(),
                es == update_npc_events@,
                world.wf(),
                world@ == world_after_updates(w0, es.take(i as int)),
            decreases es.len() - i,
        {
            proof {
                assert(es.take(i + 1).drop_last() == es.take(i as int));
                assert(es.take(i + 1).last() == es[i as int]);
            }
            let e = &update_npc_events[i];
            world.update_npc(&e.0, &e.1);
            i = i + 1;
        }
        proof {
            assert(es.take(es.len() as int) == es);
        }
    }
}

/// Spawning for the signals `es`, in order, takes `a` to `b`.
pub open spec fn spawns_lead(a: WorldView, b: WorldView, es: Seq<SpawnNpcEvent>) -> bool
    decreases es.len(),
{
    if es.len() == 0 {
        b == a
    } else {
        exists|mid: WorldView|
            spawns_lead(a, mid, es.drop_last()) && #[trigger] spawn_step(mid, b, es.last().0, es.last().1)
    }
}

impl SpawnNpcEvent {
    /// Spawns each signalled NPC, in order, unless its id is taken by then.
    pub fn handler(world: &mut World, spawn_npc_events: &Vec<SpawnNpcEvent>)
        requires
            old(world).wf(),
        ensures
            final(world).wf(),
            spawns_lead(old(world)@, final(world)@, spawn_npc_events@),
    {
        let ghost w0 = world@;
        let ghost es = spawn_npc_events@;
        proof {
            assert(es.take(0) =~= Seq::<SpawnNpcEvent>::empty());
        }
        let mut i: usize = 0;
        while i < spawn_npc_events.len()
            invariant
                i <= es.len(),
                es == spawn_npc_events@,
                world.wf(),
                spawns_lead(w0, world@, es.take(i as int)),
            decreases es.len() - i,
        {
            let e = &spawn_npc_events[i];
            let ghost before = world@;
            world.spawn_npc(e.0.duplicate(), e.1.duplicate());
            proof {
                let t = es.take(i + 1);
                assert(t.drop_last() == es.take(i as int));
                assert(t.last() == es[i as int]);
                assert(spawns_lead(w0, before, t.drop_last()) && spawn_step(before, world@, t.last().0, t.last().1));
            }
            i = i + 1;
        }
        proof {
            assert(es.take(es.len() as int) == es);
        }
    }
}

impl PlaySceneEvent {
    /// Plays the scene of the last queued request, if any: on success the
    /// game enters dialogue and the new player is returned.
    pub fn handler(
        scene_manager: &SceneManager,
        play_scene_events: &Vec<PlaySceneEvent>,
        spawn_npc_event: &mut Vec<SpawnNpcEvent>,
        state_manager: &mut StateManager,
    ) -> (r: Option<ScenePlayer>)
        ensures
            r is Some == (play_scene_events@.len() > 0 && scene_manager.spec_scenes().contains_key(
                play_scene_events@.last().0@,
            )),
            r is None ==> final(state_manager)@ == old(state_manager)@ && final(spawn_npc_event)@ == old(
                spawn_npc_event,
            )@,
            r matches Some(p) ==> {
                let id = play_scene_events@.last().0@;
                &&& final(state_manager)@ == old(state_manager)@.push(GameState::Dialogue)
                &&& spawned(final(spawn_npc_event)@) == spawned(old(spawn_npc_event)@) + spawn_events(
                    scene_manager.spec_scenes()[id].definitions.characters,
                )
                &&& p.spec_scene() == id
                &&& p.spec_key() == if scene_manager.spec_entries().contains_key(id) {
                    scene_manager.spec_entries()[id]@
                } else {
                    "start"@
                }
                &&& p.spec_line() == 0
                &&& p.spec_highlighted() == 0
                &&& p.spec_executed() == Set::<BookmarkView>::empty()
            },
    {
        let n = play_scene_events.len();
        if n == 0 {
            return None;
        }
        let id = play_scene_events[n - 1].0.duplicate();
        match scene_manager.play_scene(id, spawn_npc_event) {
            Some(player) => {
                state_manager.push(GameState::Dialogue);
                Some(player)
            },
            None => None,
        }
    }
}

impl EndSceneEvent {
    /// When an end of scene is queued, leaves dialogue mode; returns whether
    /// the scene player is to be dropped. Fails, changing nothing, when the
    /// game is not in dialogue.
    pub fn handler(end_scene_events: &Vec<EndSceneEvent>, state_manager: &mut StateManager) -> (r: Result<bool, StateError>)
        ensures
            end_scene_events@.len() == 0 ==> r == Ok::<bool, StateError>(false) && final(state_manager)@ == old(
                state_manager,
            )@,
            end_scene_events@.len() > 0 ==> leave_post(*old(state_manager), *final(state_manager), GameState::Dialogue, r),
    {
        if end_scene_events.len() == 0 {
            return Ok(false);
        }
        match state_manager.pop_expecting(GameState::Dialogue) {
            Ok(_) => Ok(true),
            Err(e) => Err(e),
        }
    }
}

/// Leaving mode `mode` took the stack from `a` to `b` with result `r`.
pub open spec fn leave_post(a: StateManager, b: StateManager, mode: GameState, r: Result<bool, StateError>) -> bool {
    if a@.len() <= 1 {
        r == Err::<bool, StateError>(StateError::LastState) && b@ == a@
    } else if a@.last() != mode {
        r == Err::<bool, StateError>(StateError::Mismatch(a@.last())) && b@ == a@
    } else {
        r == Ok::<bool, StateError>(true) && b@ == a@.drop_last()
    }
}

impl EndBattleEvent {
    /// When an end of battle is queued, leaves battle mode; returns whether
    /// it did. Fails, changing nothing, when the game is not in battle.
    pub fn handler(end_battle_events: &Vec<EndBattleEvent>, state_manager: &mut StateManager) -> (r: Result<bool, StateError>)
        ensures
            end_battle_events@.len() == 0 ==> r == Ok::<bool, StateError>(false) && final(state_manager)@ == old(
                state_manager,
            )@,
            end_battle_events@.len() > 0 ==> leave_post(*old(state_manager), *final(state_manager), GameState::Battle, r),
    {
        if end_battle_events.len() == 0 {
            return Ok(false);
        }
        match state_manager.pop_expecting(GameState::Battle) {
            Ok(_) => Ok(true),
            Err(e) => Err(e),
        }
    }
}

impl StartBattleEvent {
    /// Starts a battle against the NPC of the last queued request, when that
    /// NPC exists: the game enters battle mode.
    pub fn handler(world: &World, start_battle_events: &Vec<StartBattleEvent>, state_manager: &mut StateManager) -> (r: Option<Battle>)
        ensures
            r is Some == (start_battle_events@.len() > 0 && npc_index(world@.npcs, start_battle_events@.last().0@) >= 0),
            r is None ==> final(state_manager)@ == old(state_manager)@,
            r matches Some(b) ==> b.0@ == start_battle_events@.last().0@ && final(state_manager)@ == old(
                state_manager,
            )@.push(GameState::Battle),
    {
        let n = start_battle_events.len();
        if n == 0 {
            return None;
        }
        let id = &start_battle_events[n - 1].0;
        match world.npc(id) {
            Some(_) => {
                state_manager.push(GameState::Battle);
                Some(Battle(id.duplicate()))
            },
            None => None,
        }
    }
}

impl StaticCommandsEvent {
    /// Runs the signalled commands through the playing scene, each bookmark
    /// at most once. Signals with no scene playing are an error.
    pub fn handler(
        scene_player: &mut Option<ScenePlayer>,
        scene_manager: &mut SceneManager,
        static_commands_events: &Vec<StaticCommandsEvent>,
        start_battle_event: &mut Vec<StartBattleEvent>,
        update_npc_event: &mut Vec<UpdateNpcEvent>,
    ) -> (r: Result<(), SceneError>)
        ensures
            final(scene_manager).spec_scenes() == old(scene_manager).spec_scenes(),
            match *old(scene_player) {
                None => {
                    &&& *final(scene_player) is None
                    &&& final(scene_manager).spec_variables() == old(scene_manager).spec_variables()
                    &&& final(scene_manager).spec_entries() == old(scene_manager).spec_entries()
                    &&& final(start_battle_event)@ == old(start_battle_event)@
                    &&& final(update_npc_event)@ == old(update_npc_event)@
                    &&& r == if static_commands_events@.len() == 0 {
                        Ok::<(), SceneError>(())
                    } else {
                        Err(SceneError::NoScenePlaying)
                    }
                },
                Some(p) => {
                    &&& r == Ok::<(), SceneError>(())
                    &&& *final(scene_player) matches Some(q) && command_state(
                        q,
                        *final(scene_manager),
                        final(start_battle_event)@,
                        final(update_npc_event)@,
                    ) == execute_all(
                        old(scene_manager).spec_scenes(),
                        command_state(p, *old(scene_manager), old(start_battle_event)@, old(update_npc_event)@),
                        bookmarks_of(static_commands_events@),
                    )
                },
            },
    {
        match scene_player {
            None => {
                if static_commands_events.len() == 0 {
                    Ok(())
                } else {
                    Err(SceneError::NoScenePlaying)
                }
            },
            Some(player) => {
                let ghost scenes = scene_manager.spec_scenes();
                let ghost s0 = command_state(*player, *scene_manager, start_battle_event@, update_npc_event@);
                let ghost bs = bookmarks_of(static_commands_events@);
                let mut i: usize = 0;
                while i < static_commands_events.len()
                    invariant
                        i <= bs.len(),
                        bs == bookmarks_of(static_commands_events@),
                        scene_manager.spec_scenes() == scenes,
                        command_state(*player, *scene_manager, start_battle_event@, update_npc_event@)
                            == execute_all(scenes, s0, bs.take(i as int)),
                    decreases bs.len() - i,
                {
                    proof {
                        assert(bs.take(i + 1).drop_last() == bs.take(i as int));
                        assert(bs.take(i + 1).last() == bs[i as int]);
                    }
                    let b = static_commands_events[i].0.duplicate();
                    player.execute(b, scene_manager, start_battle_event, update_npc_event);
                    i = i + 1;
                }
                proof {
                    assert(bs.take(bs.len() as int) == bs);
                }
                Ok(())
            },
        }
    }
}

} // verus!
