//! Entities: equipment slots, inventories, health and damage.
use vstd::prelude::*;

use crate::items::{AnyItem, ItemInstance, ItemInstanceId, ItemKind, ItemManager};
use crate::table::{Duplicate, Table, TableKey};
use crate::utils::{get_weapon, resolve_item};

verus! {

/// A body slot that apparel is worn in.
#[derive(Clone, Copy, Debug, Hash, PartialEq, Eq, Structural)]
pub enum ArmorSlot {
    Head,
    Body,
    Feet,
    Hands,
}

/// The apparel worn in each slot, by instance id.
#[derive(Debug, Hash, PartialEq, Eq, Structural)]
pub struct ArmorSlots {
    head: Option<ItemInstanceId>,
    body: Option<ItemInstanceId>,
    feet: Option<ItemInstanceId>,
    hands: Option<ItemInstanceId>,
}

impl Default for ArmorSlots {
    fn default() -> (r: Self)
        ensures
            forall|s: ArmorSlot| #[trigger] r.spec_get(s) == None::<ItemInstanceId>,
    {
        ArmorSlots::new()
    }
}

impl ArmorSlots {
    pub closed spec fn spec_get(&self, slot: ArmorSlot) -> Option<ItemInstanceId> {
        match slot {
            ArmorSlot::Head => self.head,
            ArmorSlot::Body => self.body,
            ArmorSlot::Feet => self.feet,
            ArmorSlot::Hands => self.hands,
        }
    }

    /// These slots with `slot` holding `item` and the others unchanged.
    pub closed spec fn spec_with(&self, slot: ArmorSlot, item: Option<ItemInstanceId>) -> ArmorSlots {
        match slot {
            ArmorSlot::Head => ArmorSlots { head: item, ..*self },
            ArmorSlot::Body => ArmorSlots { body: item, ..*self },
            ArmorSlot::Feet => ArmorSlots { feet: item, ..*self },
            ArmorSlot::Hands => ArmorSlots { hands: item, ..*self },
        }
    }

    pub proof fn lemma_with(&self, slot: ArmorSlot, item: Option<ItemInstanceId>)
        ensures
            self.spec_with(slot, item).spec_get(slot) == item,
            forall|s: ArmorSlot| s != slot ==> #[trigger] self.spec_with(slot, item).spec_get(s) == self.spec_get(s),
    {
    }

    pub fn new() -> (r: Self)
        ensures
            forall|s: ArmorSlot| #[trigger] r.spec_get(s) == None::<ItemInstanceId>,
    {
        ArmorSlots { head: None, body: None, feet: None, hands: None }
    }

    /// The contents of `slot`, to change in place.
    pub fn get_mut(&mut self, slot: ArmorSlot) -> (r: &mut Option<ItemInstanceId>)
        ensures
            *r == old(self).spec_get(slot),
            *final(self) == old(self).spec_with(slot, *final(r)),
    {
        match slot {
            ArmorSlot::Head => &mut self.head,
            ArmorSlot::Body => &mut self.body,
            ArmorSlot::Feet => &mut self.feet,
            ArmorSlot::Hands => &mut self.hands,
        }
    }

    pub fn get(&self, slot: ArmorSlot) -> (r: Option<&ItemInstanceId>)
        ensures
            r == match self.spec_get(slot) {
                Some(i) => Some(&i),
                None => None,
            },
    {
        match slot {
            ArmorSlot::Head => self.head.as_ref(),
            ArmorSlot::Body => self.body.as_ref(),
            ArmorSlot::Feet => self.feet.as_ref(),
            ArmorSlot::Hands => self.hands.as_ref(),
        }
    }

    /// Puts `item` in `slot`, returning the instance it held before.
    pub fn set(&mut self, slot: ArmorSlot, item: ItemInstanceId) -> (r: Option<ItemInstanceId>)
        ensures
            r == old(self).spec_get(slot),
            *final(self) == old(self).spec_with(slot, Some(item)),
    {
        let prev = self.spec_get_exec(slot);
        self.put(slot, Some(item));
        prev
    }

    /// Empties `slot`, returning the instance it held.
    pub fn remove(&mut self, slot: ArmorSlot) -> (r: Option<ItemInstanceId>)
        ensures
            r == old(self).spec_get(slot),
            *final(self) == old(self).spec_with(slot, None),
    {
        let prev = self.spec_get_exec(slot);
        self.put(slot, None);
        prev
    }

    fn spec_get_exec(&self, slot: ArmorSlot) -> (r: Option<ItemInstanceId>)
        ensures
            r == self.spec_get(slot),
    {
        match slot {
            ArmorSlot::Head => self.head,
            ArmorSlot::Body => self.body,
            ArmorSlot::Feet => self.feet,
            ArmorSlot::Hands => self.hands,
        }
    }

    fn put(&mut self, slot: ArmorSlot, item: Option<ItemInstanceId>)
        ensures
            *final(self) == old(self).spec_with(slot, item),
    {
        match slot {
            ArmorSlot::Head => self.head = item,
            ArmorSlot::Body => self.body = item,
            ArmorSlot::Feet => self.feet = item,
            ArmorSlot::Hands => self.hands = item,
        }
    }

    /// The damage that reaches the wearer of this armor out of `damage`.
    /// Armor does not reduce damage yet, so all of it reaches the wearer.
    pub fn damage_restistance(&self, damage: u32) -> (r: u32)
        ensures
            r == damage,
    {
        damage
    }
}

/// The item instances an entity owns, by instance id.
#[derive(Debug)]
pub struct Inventory {
    items: Table<ItemInstanceId, ItemInstance>,
}

impl View for Inventory {
    type V = Map<u128, ItemInstance>;

    closed spec fn view(&self) -> Map<u128, ItemInstance> {
        self.items@
    }
}

impl Inventory {
    pub fn new() -> (r: Self)
        ensures
            r@ == Map::<u128, ItemInstance>::empty(),
    {
        Inventory { items: Table::new() }
    }

    pub fn get(&self, id: &ItemInstanceId) -> (r: Option<&ItemInstance>)
        ensures
            match r {
                Some(inst) => self@.contains_key(id@) && *inst == self@[id@],
                None => !self@.contains_key(id@),
            },
    {
        self.items.get(id)
    }

    /// Stores `instance` under its own instance id and returns that id.
    pub fn insert(&mut self, instance: ItemInstance) -> (r: ItemInstanceId)
        ensures
            r == instance.spec_instance_id(),
            final(self)@ == old(self)@.insert(r@, instance),
    {
        let instance_id = instance.instance_id();
        self.items.insert(instance_id, instance);
        instance_id
    }
}

impl Default for Inventory {
    fn default() -> (r: Self)
        ensures
            r@ == Map::<u128, ItemInstance>::empty(),
    {
        Inventory::new()
    }
}

/// Whether an entity still lives.
#[derive(Clone, Copy, Debug, PartialEq, Eq, Structural)]
pub enum LifeStatus {
    Alive,
    Dead,
}

impl LifeStatus {
    /// Returns `true` if the life status is `Dead`.
    pub fn is_dead(&self) -> (r: bool)
        ensures
            r == (*self == LifeStatus::Dead),
    {
        matches!(self, LifeStatus::Dead)
    }
}

/// What one hit did: the damage left after armor, and the victim's state after it.
#[derive(Clone, Copy, Debug, PartialEq, Eq, Structural)]
pub struct DamageResult {
    pub reduced_damage: u32,
    pub life_status: LifeStatus,
}

/// The health every entity starts with.
pub const MAX_HEALTH: u32 = 20;

/// The damage an attack deals without a weapon.
pub const UNARMED_DAMAGE: u32 = 1;

/// Cumulative damage after one more hit: it grows by the hit and stops at
/// the maximum health.
pub open spec fn damage_step(damage: nat, hit: nat) -> nat {
    if damage + hit < MAX_HEALTH {
        damage + hit
    } else {
        MAX_HEALTH as nat
    }
}

/// Cumulative damage after the hits `hits`, in order, starting from `damage`.
pub open spec fn damage_after(damage: nat, hits: Seq<nat>) -> nat
    decreases hits.len(),
{
    if hits.len() == 0 {
        damage
    } else {
        damage_step(damage_after(damage, hits.drop_last()), hits.last())
    }
}

pub open spec fn sum_hits(hits: Seq<nat>) -> nat
    decreases hits.len(),
{
    if hits.len() == 0 {
        0
    } else {
        sum_hits(hits.drop_last()) + hits.last()
    }
}

/// From no damage, any sequence of hits leaves the damage at the sum of the
/// hits, capped at the maximum health; health is the maximum less that.
pub proof fn lemma_damage_is_capped_sum(hits: Seq<nat>)
    ensures
        damage_after(0, hits) == if sum_hits(hits) < MAX_HEALTH {
            sum_hits(hits)
        } else {
            MAX_HEALTH as nat
        },
    decreases hits.len(),
{
    if hits.len() > 0 {
        lemma_damage_is_capped_sum(hits.drop_last());
    }
}

/// Once health is zero, no further hits bring it back above zero.
pub proof fn lemma_dead_stays_dead(hits: Seq<nat>)
    ensures
        damage_after(MAX_HEALTH as nat, hits) == MAX_HEALTH,
    decreases hits.len(),
{
    if hits.len() > 0 {
        lemma_dead_stays_dead(hits.drop_last());
    }
}

/// The damage an attack by `e` deals: its equipped weapon's damage when the
/// catalog knows that item as a weapon, else the unarmed damage.
pub open spec fn attack_value(e: RpgEntity, catalog: Map<Seq<char>, AnyItem>) -> u32 {
    match resolve_item(e.spec_weapon(), e.spec_inventory(), catalog) {
        Some(AnyItem::Weapon(w)) => w.spec_damage(),
        _ => UNARMED_DAMAGE,
    }
}

/// A character that can fight, wear equipment and carry items.
#[derive(Debug)]
pub struct RpgEntity {
    name: String,
    damage: u32,
    armor: ArmorSlots,
    weapon: Option<ItemInstanceId>,
    shield: Option<ItemInstanceId>,
    inventory: Inventory,
}

pub open spec fn held_in(slot: Option<ItemInstanceId>, inv: Map<u128, ItemInstance>) -> bool {
    slot matches Some(id) ==> inv.contains_key(id@)
}

impl RpgEntity {
    pub closed spec fn spec_name(&self) -> Seq<char> {
        self.name@
    }

    pub closed spec fn spec_damage(&self) -> nat {
        self.damage as nat
    }

    pub closed spec fn spec_armor(&self) -> ArmorSlots {
        self.armor
    }

    pub closed spec fn spec_weapon(&self) -> Option<ItemInstanceId> {
        self.weapon
    }

    pub closed spec fn spec_shield(&self) -> Option<ItemInstanceId> {
        self.shield
    }

    pub closed spec fn spec_inventory(&self) -> Map<u128, ItemInstance> {
        self.inventory@
    }

    /// Damage never exceeds the maximum health, and every equipped instance
    /// is one the entity owns.
    pub open spec fn wf(&self) -> bool {
        &&& self.spec_damage() <= MAX_HEALTH
        &&& held_in(self.spec_weapon(), self.spec_inventory())
        &&& held_in(self.spec_shield(), self.spec_inventory())
        &&& forall|s: ArmorSlot| held_in(#[trigger] self.spec_armor().spec_get(s), self.spec_inventory())
    }

    pub closed spec fn spec_renamed(self, name: String) -> RpgEntity {
        RpgEntity { name, ..self }
    }

    pub closed spec fn spec_with_damage(self, damage: nat) -> RpgEntity {
        RpgEntity { damage: damage as u32, ..self }
    }

    /// What renaming and taking damage change, and what they keep.
    pub proof fn lemma_updates(self, name: String, damage: nat)
        ensures
            self.spec_renamed(name).spec_name() == name@,
            self.spec_renamed(name).spec_damage() == self.spec_damage(),
            same_gear(self, self.spec_renamed(name)),
            damage <= u32::MAX ==> self.spec_with_damage(damage).spec_damage() == damage,
            self.spec_with_damage(damage).spec_name() == self.spec_name(),
            same_gear(self, self.spec_with_damage(damage)),
    {
    }

    /// A new entity named `name`: unhurt, with nothing equipped or owned.
    pub open spec fn is_fresh(&self, name: Seq<char>) -> bool {
        &&& self.spec_name() == name
        &&& self.spec_damage() == 0
        &&& self.spec_weapon() is None
        &&& self.spec_shield() is None
        &&& forall|s: ArmorSlot| #[trigger] self.spec_armor().spec_get(s) is None
        &&& self.spec_inventory() == Map::<u128, ItemInstance>::empty()
    }

    /// A new unhurt entity with nothing equipped and an empty inventory,
    /// named `name`, or `?` without one.
    pub fn new(name: Option<String>) -> (r: Self)
        ensures
            r.wf(),
            r.spec_damage() == 0,
            r.spec_name() == match name {
                Some(n) => n@,
                None => "?"@,
            },
            r.spec_weapon().is_none(),
            r.spec_shield().is_none(),
            forall|s: ArmorSlot| #[trigger] r.spec_armor().spec_get(s).is_none(),
            r.spec_inventory() == Map::<u128, ItemInstance>::empty(),
            r.is_fresh(
                match name {
                    Some(n) => n@,
                    None => "?"@,
                },
            ),
    {
        let name = match name {
            Some(n) => n,
            None => "?".to_owned(),
        };
        RpgEntity {
            name,
            damage: 0,
            armor: ArmorSlots::new(),
            weapon: None,
            shield: None,
            inventory: Inventory::new(),
        }
    }

    pub fn name(&self) -> (r: &str)
        ensures
            r@ == self.spec_name(),
    {
        self.name.as_str()
    }

    pub fn set_name(&mut self, name: String)
        requires
            old(self).wf(),
        ensures
            final(self).wf(),
            *final(self) == old(self).spec_renamed(name),
            final(self).spec_name() == name@,
            final(self).spec_damage() == old(self).spec_damage(),
            same_gear(*old(self), *final(self)),
    {
        self.name = name
    }

    pub fn inventory(&self) -> (r: &Inventory)
        ensures
            r@ == self.spec_inventory(),
    {
        &self.inventory
    }

    /// Gives the entity `instance`, which it then owns; returns its instance id.
    pub fn insert_item(&mut self, instance: ItemInstance) -> (r: ItemInstanceId)
        requires
            old(self).wf(),
        ensures
            final(self).wf(),
            r == instance.spec_instance_id(),
            final(self).spec_inventory() == old(self).spec_inventory().insert(r@, instance),
            final(self).spec_name() == old(self).spec_name(),
            final(self).spec_damage() == old(self).spec_damage(),
            final(self).spec_weapon() == old(self).spec_weapon(),
            final(self).spec_shield() == old(self).spec_shield(),
            final(self).spec_armor() == old(self).spec_armor(),
    {
        self.inventory.insert(instance)
    }

    /// Equips the owned instance `instance_id` in the slot its kind calls
    /// for: apparel in its armor slot, a weapon or a shield in its hand. The
    /// previous occupant of that slot stays in the inventory. Fails, changing
    /// nothing, when the entity does not own the instance or it is food or a
    /// potion.
    pub fn equip(&mut self, instance_id: ItemInstanceId) -> (r: bool)
        requires
            old(self).wf(),
        ensures
            final(self).wf(),
            equip_post(*old(self), *final(self), instance_id, r),
    {
        let kind = match self.inventory.get(&instance_id) {
            Some(item_instance) => *item_instance.kind(),
            None => {
                return false;
            },
        };
        match kind {
            ItemKind::Apparel(slot) => {
                self.armor.set(slot, instance_id);
                proof {
                    old(self).armor.lemma_with(slot, Some(instance_id));
                }
            },
            ItemKind::Weapon => {
                self.weapon = Some(instance_id);
            },
            ItemKind::Shield => {
                self.shield = Some(instance_id);
            },
            ItemKind::Food | ItemKind::Potion => {
                return false;
            },
        }
        true
    }

    /// Takes a hit of `damage`. Damage accumulates up to the maximum health;
    /// the entity is dead once it reaches it, and stays so.
    pub fn apply_damage(&mut self, damage: u32) -> (r: DamageResult)
        requires
            old(self).wf(),
        ensures
            final(self).wf(),
            final(self).spec_damage() == damage_step(old(self).spec_damage(), damage as nat),
            *final(self) == old(self).spec_with_damage(final(self).spec_damage()),
            final(self).spec_name() == old(self).spec_name(),
            same_gear(*old(self), *final(self)),
            r.reduced_damage == damage,
            r.life_status == if final(self).spec_damage() < MAX_HEALTH {
                LifeStatus::Alive
            } else {
                LifeStatus::Dead
            },
    {
        let reduced_damage = self.armor.damage_restistance(damage);
        let total: u64 = self.damage as u64 + reduced_damage as u64;
        let life_status = if total < MAX_HEALTH as u64 {
            self.damage = total as u32;
            LifeStatus::Alive
        } else {
            self.damage = MAX_HEALTH;
            LifeStatus::Dead
        };
        DamageResult { reduced_damage, life_status }
    }

    pub fn max_health(&self) -> (r: u32)
        ensures
            r == MAX_HEALTH,
    {
        MAX_HEALTH
    }

    pub fn health(&self) -> (r: u32)
        requires
            self.wf(),
        ensures
            r == MAX_HEALTH - self.spec_damage(),
    {
        MAX_HEALTH - self.damage
    }

    pub fn damage(&self) -> (r: u32)
        ensures
            r == self.spec_damage(),
    {
        self.damage
    }

    pub fn is_alive(&self) -> (r: bool)
        requires
            self.wf(),
        ensures
            r == (self.spec_damage() < MAX_HEALTH),
    {
        self.health() > 0
    }

    pub fn is_dead(&self) -> (r: bool)
        requires
            self.wf(),
        ensures
            r == (self.spec_damage() == MAX_HEALTH),
    {
        !self.is_alive()
    }

    /// The damage this entity's attack deals: the damage of its equipped
    /// weapon when the catalog knows it as a weapon, else the unarmed damage.
    pub fn attack_damage(&self, item_manager: &ItemManager) -> (r: u32)
        ensures
            r == attack_value(*self, item_manager@),
    {
        match get_weapon(self.weapon, &self.inventory, item_manager) {
            Some(weapon) => weapon.damage(),
            None => UNARMED_DAMAGE,
        }
    }

    /// The equipped instances: weapon, shield, then head, body, hands and
    /// feet armor, each when present.
    pub fn equipped(&self) -> (r: Vec<ItemInstanceId>)
        ensures
            r@ == equipped_seq(self.spec_weapon(), self.spec_shield(), self.spec_armor()),
    {
        let mut r: Vec<ItemInstanceId> = Vec::new();
        if let Some(i) = self.weapon {
            r.push(i);
        }
        if let Some(i) = self.shield {
            r.push(i);
        }
        if let Some(i) = self.armor.head {
            r.push(i);
        }
        if let Some(i) = self.armor.body {
            r.push(i);
        }
        if let Some(i) = self.armor.hands {
            r.push(i);
        }
        if let Some(i) = self.armor.feet {
            r.push(i);
        }
        r
    }

    pub fn is_equipped(&self, instance_id: &ItemInstanceId) -> (r: bool)
        ensures
            r == equipped_seq(self.spec_weapon(), self.spec_shield(), self.spec_armor()).contains(*instance_id),
    {
        let all = self.equipped();
        let mut i: usize = 0;
        while i < all.len()
            invariant
                i <= all@.len(),
                all@ == equipped_seq(self.spec_weapon(), self.spec_shield(), self.spec_armor()),
                forall|j: int| 0 <= j < i ==> all@[j] != *instance_id,
            decreases all@.len() - i,
        {
            if all[i] == *instance_id {
                return true;
            }
            i = i + 1;
        }
        false
    }
}

pub open spec fn opt_seq(o: Option<ItemInstanceId>) -> Seq<ItemInstanceId> {
    match o {
        Some(i) => seq![i],
        None => Seq::empty(),
    }
}

pub open spec fn equipped_seq(
    weapon: Option<ItemInstanceId>,
    shield: Option<ItemInstanceId>,
    armor: ArmorSlots,
) -> Seq<ItemInstanceId> {
    opt_seq(weapon) + opt_seq(shield) + opt_seq(armor.spec_get(ArmorSlot::Head)) + opt_seq(
        armor.spec_get(ArmorSlot::Body),
    ) + opt_seq(armor.spec_get(ArmorSlot::Hands)) + opt_seq(armor.spec_get(ArmorSlot::Feet))
}

/// The two hold the same equipment and the same inventory.
pub open spec fn same_gear(a: RpgEntity, b: RpgEntity) -> bool {
    &&& a.spec_weapon() == b.spec_weapon()
    &&& a.spec_shield() == b.spec_shield()
    &&& a.spec_armor() == b.spec_armor()
    &&& a.spec_inventory() == b.spec_inventory()
}

/// Equipping `id` took entity `a` to `b` with result `r`: it succeeds
/// exactly when `a` owns `id` and it is apparel, a weapon or a shield; on
/// success only the slot for its kind changes, to hold `id`; on failure
/// nothing changes.
pub open spec fn equip_post(a: RpgEntity, b: RpgEntity, id: ItemInstanceId, r: bool) -> bool {
    let owned = a.spec_inventory().contains_key(id@);
    let kind = a.spec_inventory()[id@].spec_kind();
    &&& r == (owned && !(kind is Food) && !(kind is Potion))
    &&& !r ==> b == a
    &&& r ==> {
        &&& b.spec_inventory() == a.spec_inventory()
        &&& b.spec_name() == a.spec_name()
        &&& b.spec_damage() == a.spec_damage()
        &&& match kind {
            ItemKind::Weapon => b.spec_weapon() == Some(id) && b.spec_shield() == a.spec_shield()
                && b.spec_armor() == a.spec_armor(),
            ItemKind::Shield => b.spec_shield() == Some(id) && b.spec_weapon() == a.spec_weapon()
                && b.spec_armor() == a.spec_armor(),
            ItemKind::Apparel(slot) => b.spec_armor() == a.spec_armor().spec_with(slot, Some(id))
                && b.spec_weapon() == a.spec_weapon() && b.spec_shield() == a.spec_shield(),
            _ => true,
        }
    }
}

/// Equipping an owned apparel instance and then another one for the same
/// slot: both succeed; just before the second, the slot holds the first
/// (the instance that `ArmorSlots::set` hands back there); afterwards it
/// holds the second, and the inventory, the first instance included, is as
/// it was.
pub proof fn lemma_reequip_slot(
    e0: RpgEntity,
    e1: RpgEntity,
    e2: RpgEntity,
    a: ItemInstanceId,
    b: ItemInstanceId,
    slot: ArmorSlot,
    r1: bool,
    r2: bool,
)
    requires
        e0.spec_inventory().contains_key(a@),
        e0.spec_inventory().contains_key(b@),
        e0.spec_inventory()[a@].spec_kind() == ItemKind::Apparel(slot),
        e0.spec_inventory()[b@].spec_kind() == ItemKind::Apparel(slot),
        equip_post(e0, e1, a, r1),
        equip_post(e1, e2, b, r2),
    ensures
        r1,
        e1.spec_armor().spec_get(slot) == Some(a),
        r2,
        e2.spec_armor().spec_get(slot) == Some(b),
        e2.spec_inventory() == e0.spec_inventory(),
        e2.spec_inventory().contains_key(a@),
{
    e0.spec_armor().lemma_with(slot, Some(a));
    e1.spec_armor().lemma_with(slot, Some(b));
}

/// Marks the entity the player controls.
#[derive(Debug, Clone, Copy, PartialEq, Eq, Structural)]
pub struct Player;

/// A non-player character: its id, portrait and voice.
#[derive(Debug, Hash, Clone, PartialEq, Eq)]
pub struct Npc {
    pub id: NpcId,
    pub image: NpcImage,
    pub voice: NpcVoice,
}

/// The path of an NPC's portrait image.
#[derive(Debug, Hash, Clone, PartialEq, Eq)]
pub struct NpcImage(pub String);

impl Default for NpcImage {
    fn default() -> (r: Self)
        ensures
            r.0@ == "images/mysterious.png"@,
    {
        NpcImage("images/mysterious.png".to_owned())
    }
}

impl Duplicate for NpcImage {
    fn duplicate(&self) -> (r: Self) {
        NpcImage(self.0.clone())
    }
}

/// The name of an NPC's voice.
#[derive(Debug, Hash, Clone, PartialEq, Eq)]
pub struct NpcVoice(pub String);

impl Default for NpcVoice {
    fn default() -> (r: Self)
        ensures
            r.0@ == "default"@,
    {
        NpcVoice("default".to_owned())
    }
}

impl Duplicate for NpcVoice {
    fn duplicate(&self) -> (r: Self) {
        NpcVoice(self.0.clone())
    }
}

/// The stable id that scenes use to name an NPC.
#[derive(Debug, PartialEq, Eq, Clone, Hash)]
pub struct NpcId(pub String);

impl View for NpcId {
    type V = Seq<char>;

    open spec fn view(&self) -> Seq<char> {
        self.0@
    }
}

impl Duplicate for NpcId {
    fn duplicate(&self) -> (r: Self) {
        NpcId(self.0.clone())
    }
}

impl TableKey for NpcId {
    fn key_eq(&self, other: &Self) -> (r: bool) {
        self.0 == other.0
    }
}

} // verus!
