//! The player and the NPCs as owned records, looked up by NPC id, and the
//! operations that the event handlers apply to them.
use vstd::prelude::*;

use crate::components::{
    damage_step, DamageResult, LifeStatus, Npc, NpcId, NpcImage, NpcVoice, RpgEntity,
    MAX_HEALTH,
};
use crate::scenes::Character;
use crate::static_commands::CharacterUpdate;
use crate::table::{Duplicate, TableKey};

verus! {

/// Names an entity: the player, or an NPC by id.
#[derive(Debug, Clone, PartialEq, Eq, Hash)]
pub enum EntityRef {
    Player,
    Npc(NpcId),
}

impl View for EntityRef {
    type V = Option<Seq<char>>;

    open spec fn view(&self) -> Option<Seq<char>> {
        match self {
            EntityRef::Player => None,
            EntityRef::Npc(id) => Some(id@),
        }
    }
}

impl Duplicate for EntityRef {
    fn duplicate(&self) -> (r: Self) {
        match self {
            EntityRef::Player => EntityRef::Player,
            EntityRef::Npc(id) => EntityRef::Npc(id.duplicate()),
        }
    }
}

/// An NPC and its entity.
#[derive(Debug)]
pub struct NpcRecord {
    pub npc: Npc,
    pub entity: RpgEntity,
}

/// The player's entity and the NPC records, in the order they were spawned.
pub struct WorldView {
    pub player: RpgEntity,
    pub npcs: Seq<NpcRecord>,
}

/// The position of the NPC with id `id` (the last one, should there be
/// several), or -1.
pub open spec fn npc_index(s: Seq<NpcRecord>, id: Seq<char>) -> int
    decreases s.len(),
{
    if s.len() == 0 {
        -1
    } else if s.last().npc.id@ == id {
        s.len() - 1
    } else {
        npc_index(s.drop_last(), id)
    }
}

pub proof fn lemma_npc_index(s: Seq<NpcRecord>, id: Seq<char>)
    ensures
        -1 <= npc_index(s, id) < s.len(),
        npc_index(s, id) >= 0 ==> s[npc_index(s, id)].npc.id@ == id,
        forall|j: int| npc_index(s, id) < j < s.len() ==> #[trigger] s[j].npc.id@ != id,
    decreases s.len(),
{
    if s.len() > 0 {
        lemma_npc_index(s.drop_last(), id);
        if s.last().npc.id@ != id {
            assert forall|j: int| npc_index(s, id) < j < s.len() implies #[trigger] s[j].npc.id@ != id by {
                if j < s.len() - 1 {
                    assert(s.drop_last()[j] == s[j]);
                }
            }
        }
    }
}

/// The entity that `r` names, when it exists.
pub open spec fn entity_of(w: WorldView, r: Option<Seq<char>>) -> Option<RpgEntity> {
    match r {
        None => Some(w.player),
        Some(id) => if npc_index(w.npcs, id) >= 0 {
            Some(w.npcs[npc_index(w.npcs, id)].entity)
        } else {
            None
        },
    }
}

/// `w` with the entity that `r` names replaced by `e`.
pub open spec fn with_entity(w: WorldView, r: Option<Seq<char>>, e: RpgEntity) -> WorldView {
    match r {
        None => WorldView { player: e, npcs: w.npcs },
        Some(id) => {
            let i = npc_index(w.npcs, id);
            if i >= 0 {
                WorldView { player: w.player, npcs: w.npcs.update(i, NpcRecord { npc: w.npcs[i].npc, entity: e }) }
            } else {
                w
            }
        },
    }
}

/// `w` after the entity `r` names takes a hit of `damage`.
pub open spec fn after_hit(w: WorldView, r: Option<Seq<char>>, damage: nat) -> WorldView {
    match entity_of(w, r) {
        Some(e) => with_entity(w, r, e.spec_with_damage(damage_step(e.spec_damage(), damage))),
        None => w,
    }
}

/// Whether a hit of `damage` kills the entity `r` names.
pub open spec fn hit_kills(w: WorldView, r: Option<Seq<char>>, damage: nat) -> bool {
    match entity_of(w, r) {
        Some(e) => damage_step(e.spec_damage(), damage) == MAX_HEALTH,
        None => false,
    }
}

/// `w` after the NPC `id` takes the changes `u`.
pub open spec fn after_update(w: WorldView, id: Seq<char>, u: CharacterUpdate) -> WorldView {
    let i = npc_index(w.npcs, id);
    if i < 0 {
        w
    } else {
        let rec = w.npcs[i];
        let npc = Npc {
            id: rec.npc.id,
            image: match u.image {
                Some(p) => NpcImage(p),
                None => rec.npc.image,
            },
            voice: match u.voice {
                Some(v) => NpcVoice(v),
                None => rec.npc.voice,
            },
        };
        let entity = match u.name {
            Some(n) => rec.entity.spec_renamed(n),
            None => rec.entity,
        };
        WorldView { player: w.player, npcs: w.npcs.update(i, NpcRecord { npc, entity }) }
    }
}

/// Spawning `ch` under `id` takes `a` to `b`: nothing changes when an NPC
/// with that id exists; otherwise one fresh NPC made from `ch` is appended.
pub open spec fn spawn_step(a: WorldView, b: WorldView, id: NpcId, ch: Character) -> bool {
    if npc_index(a.npcs, id@) >= 0 {
        b == a
    } else {
        &&& b.player == a.player
        &&& b.npcs.len() == a.npcs.len() + 1
        &&& b.npcs.drop_last() == a.npcs
        &&& b.npcs.last().npc == (Npc { id, image: ch.image, voice: ch.voice })
        &&& b.npcs.last().entity.is_fresh(ch.name@)
    }
}

/// The player and the NPCs.
pub struct World {
    player: RpgEntity,
    npcs: Vec<NpcRecord>,
}

impl View for World {
    type V = WorldView;

    closed spec fn view(&self) -> WorldView {
        WorldView { player: self.player, npcs: self.npcs@ }
    }
}

impl World {
    /// Every entity is well formed.
    pub closed spec fn wf(&self) -> bool {
        &&& self.player.wf()
        &&& forall|i: int| 0 <= i < self.npcs@.len() ==> (#[trigger] self.npcs@[i]).entity.wf()
    }

    pub fn new(player: RpgEntity) -> (r: Self)
        requires
            player.wf(),
        ensures
            r.wf(),
            r@.player == player,
            r@.npcs == Seq::<NpcRecord>::empty(),
    {
        World { player, npcs: Vec::new() }
    }

    pub fn player(&self) -> (r: &RpgEntity)
        ensures
            *r == self@.player,
    {
        &self.player
    }

    fn find_npc(&self, id: &NpcId) -> (r: Option<usize>)
        ensures
            match r {
                Some(i) => i == npc_index(self@.npcs, id@) && i < self@.npcs.len() && self@.npcs[i as int].npc.id@ == id@,
                None => npc_index(self@.npcs, id@) == -1,
            },
    {
        proof {
            lemma_npc_index(self.npcs@, id@);
        }
        let mut i: usize = self.npcs.len();
        while i > 0
            invariant
                i <= self.npcs@.len(),
                forall|j: int| i <= j < self.npcs@.len() ==> #[trigger] self.npcs@[j].npc.id@ != id@,
            decreases i,
        {
            if self.npcs[i - 1].npc.id.key_eq(id) {
                proof {
                    lemma_last_match(self.npcs@, id@, i - 1);
                }
                return Some(i - 1);
            }
            i = i - 1;
        }
        proof {
            lemma_no_match(self.npcs@, id@);
        }
        None
    }

    pub fn npc(&self, id: &NpcId) -> (r: Option<&NpcRecord>)
        ensures
            match r {
                Some(rec) => npc_index(self@.npcs, id@) >= 0 && *rec == self@.npcs[npc_index(self@.npcs, id@)],
                None => npc_index(self@.npcs, id@) == -1,
            },
    {
        match self.find_npc(id) {
            Some(i) => Some(&self.npcs[i]),
            None => None,
        }
    }

    pub fn entity(&self, r: &EntityRef) -> (e: Option<&RpgEntity>)
        ensures
            match e {
                Some(x) => entity_of(self@, r@) == Some(*x),
                None => entity_of(self@, r@) is None,
            },
    {
        match r {
            EntityRef::Player => Some(&self.player),
            EntityRef::Npc(id) => match self.npc(id) {
                Some(rec) => Some(&rec.entity),
                None => None,
            },
        }
    }

    /// Adds an NPC made from `character` under `id`, unless an NPC with
    /// that id exists; returns whether it was added.
    pub fn spawn_npc(&mut self, id: NpcId, character: Character) -> (r: bool)
        requires
            old(self).wf(),
        ensures
            final(self).wf(),
            r == (npc_index(old(self)@.npcs, id@) < 0),
            spawn_step(old(self)@, final(self)@, id, character),
    {
        if self.find_npc(&id).is_some() {
            return false;
        }
        let Character { name, image, voice } = character;
        let entity = RpgEntity::new(Some(name));
        self.npcs.push(NpcRecord { npc: Npc { id, image, voice }, entity });
        proof {
            assert(self.npcs@.drop_last() == old(self).npcs@);
        }
        true
    }

    /// Applies a hit of `damage` to the entity `victim` names; none when
    /// there is no such entity.
    pub fn damage_entity(&mut self, victim: &EntityRef, damage: u32) -> (r: Option<DamageResult>)
        requires
            old(self).wf(),
        ensures
            final(self).wf(),
            final(self)@ == after_hit(old(self)@, victim@, damage as nat),
            match r {
                Some(res) => entity_of(old(self)@, victim@) is Some && res.reduced_damage == damage
                    && res.life_status == if hit_kills(old(self)@, victim@, damage as nat) {
                    LifeStatus::Dead
                } else {
                    LifeStatus::Alive
                },
                None => entity_of(old(self)@, victim@) is None,
            },
    {
        match victim {
            EntityRef::Player => Some(self.player.apply_damage(damage)),
            EntityRef::Npc(id) => match self.find_npc(id) {
                Some(i) => {
                    let mut rec = self.npcs.remove(i);
                    assert(rec == old(self).npcs@[i as int]);
                    let res = rec.entity.apply_damage(damage);
                    self.npcs.insert(i, rec);
                    proof {
                        assert(self.npcs@ =~= old(self).npcs@.update(
                            i as int,
                            NpcRecord { npc: old(self).npcs@[i as int].npc, entity: self.npcs@[i as int].entity },
                        ));
                        assert forall|j: int| 0 <= j < self.npcs@.len() implies (#[trigger] self.npcs@[j]).entity.wf() by {
                            if j != i {
                                assert(self.npcs@[j] == old(self).npcs@[j]);
                            }
                        }
                    }
                    Some(res)
                },
                None => None,
            },
        }
    }

    /// Applies the changes `update` to the NPC `id`; returns whether there
    /// is such an NPC.
    pub fn update_npc(&mut self, id: &NpcId, update: &CharacterUpdate) -> (r: bool)
        requires
            old(self).wf(),
        ensures
            final(self).wf(),
            r == (npc_index(old(self)@.npcs, id@) >= 0),
            final(self)@ == after_update(old(self)@, id@, *update),
    {
        match self.find_npc(id) {
            Some(i) => {
                let mut rec = self.npcs.remove(i);
                assert(rec == old(self).npcs@[i as int]);
                if let Some(image) = &update.image {
                    rec.npc.image = NpcImage(image.clone());
                }
                if let Some(name) = &update.name {
                    rec.entity.set_name(name.clone());
                }
                if let Some(voice) = &update.voice {
                    rec.npc.voice = NpcVoice(voice.clone());
                }
                self.npcs.insert(i, rec);
                proof {
                    let new_rec = self.npcs@[i as int];
                    assert(self.npcs@ =~= old(self).npcs@.update(i as int, new_rec));
                    assert forall|j: int| 0 <= j < self.npcs@.len() implies (#[trigger] self.npcs@[j]).entity.wf() by {
                        if j != i {
                            assert(self.npcs@[j] == old(self).npcs@[j]);
                        }
                    }
                }
                true
            },
            None => false,
        }
    }
}

proof fn lemma_last_match(s: Seq<NpcRecord>, id: Seq<char>, i: int)
    requires
        0 <= i < s.len(),
        s[i].npc.id@ == id,
        forall|j: int| i < j < s.len() ==> #[trigger] s[j].npc.id@ != id,
    ensures
        npc_index(s, id) == i,
    decreases s.len(),
{
    if i < s.len() - 1 {
        assert(s[s.len() - 1].npc.id@ != id);
        assert forall|j: int| i < j < s.drop_last().len() implies #[trigger] s.drop_last()[j].npc.id@ != id by {
            assert(s.drop_last()[j] == s[j]);
        }
        lemma_last_match(s.drop_last(), id, i);
    }
}

proof fn lemma_no_match(s: Seq<NpcRecord>, id: Seq<char>)
    requires
        forall|j: int| 0 <= j < s.len() ==> #[trigger] s[j].npc.id@ != id,
    ensures
        npc_index(s, id) == -1,
    decreases s.len(),
{
    if s.len() > 0 {
        assert(s.last().npc.id@ != id);
        assert forall|j: int| 0 <= j < s.drop_last().len() implies #[trigger] s.drop_last()[j].npc.id@ != id by {
            assert(s.drop_last()[j] == s[j]);
        }
        lemma_no_match(s.drop_last(), id);
    }
}

} // verus!
