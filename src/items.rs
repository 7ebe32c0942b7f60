//! Item definitions, the catalog that indexes them by id, and spawned instances.
use vstd::prelude::*;

use crate::components::ArmorSlot;
use crate::table::{Duplicate, Table, TableKey};

verus! {

/// Relies on `uuid::Uuid::new_v4`: a fresh random 128-bit identifier, taken
/// as its integer value. Nothing is promised of the value itself.
#[verifier::external_body]
fn random_instance_bits() -> (r: u128) {
    uuid::Uuid::new_v4().as_u128()
}

/// Identifies one spawned item instance.
#[derive(Clone, Copy, PartialEq, Eq, Structural, Hash, Debug)]
pub struct ItemInstanceId(u128);

impl View for ItemInstanceId {
    type V = u128;

    closed spec fn view(&self) -> u128 {
        self.0
    }
}

impl Duplicate for ItemInstanceId {
    fn duplicate(&self) -> (r: Self) {
        *self
    }
}

impl TableKey for ItemInstanceId {
    fn key_eq(&self, other: &Self) -> (r: bool) {
        self.0 == other.0
    }
}

impl ItemInstanceId {
    /// A freshly drawn random identifier.
    pub fn new() -> (r: Self) {
        ItemInstanceId(random_instance_bits())
    }
}

/// What kind of item an instance is, with the slot for apparel.
#[derive(Clone, Copy, PartialEq, Eq, Structural, Debug, Hash)]
pub enum ItemKind {
    Apparel(ArmorSlot),
    Weapon,
    Food,
    Potion,
    Shield,
}

/// An owned copy of a catalog item: its own id, the item it was spawned
/// from, and that item's kind at spawn time.
#[derive(Clone, PartialEq, Eq, Debug, Hash)]
pub struct ItemInstance {
    instance_id: ItemInstanceId,
    item_id: ItemId,
    kind: ItemKind,
}

impl ItemInstance {
    pub closed spec fn spec_instance_id(&self) -> ItemInstanceId {
        self.instance_id
    }

    pub closed spec fn spec_item_id(&self) -> Seq<char> {
        self.item_id@
    }

    pub closed spec fn spec_kind(&self) -> ItemKind {
        self.kind
    }

    pub fn instance_id(&self) -> (r: ItemInstanceId)
        ensures
            r == self.spec_instance_id(),
    {
        self.instance_id
    }

    pub fn item_id(&self) -> (r: &ItemId)
        ensures
            r@ == self.spec_item_id(),
    {
        &self.item_id
    }

    pub fn kind(&self) -> (r: &ItemKind)
        ensures
            *r == self.spec_kind(),
    {
        &self.kind
    }
}

/// The stable identifier of a catalog item.
#[derive(Debug, Hash, Clone, PartialEq, Eq, PartialOrd, Ord)]
pub struct ItemId(pub String);

impl View for ItemId {
    type V = Seq<char>;

    open spec fn view(&self) -> Seq<char> {
        self.0@
    }
}

impl Duplicate for ItemId {
    fn duplicate(&self) -> (r: Self) {
        ItemId(self.0.clone())
    }
}

impl TableKey for ItemId {
    fn key_eq(&self, other: &Self) -> (r: bool) {
        self.0 == other.0
    }
}

impl ItemId {
    pub fn new(s: &str) -> (r: Self)
        ensures
            r@ == s@,
    {
        ItemId(s.to_owned())
    }
}

/// Apparel worn in one armor slot.
#[derive(Debug, Clone, PartialEq, Eq)]
pub struct Apparel {
    id: String,
    name: String,
    slot: ArmorSlot,
    defense: u32,
    weight: u32,
    value: u32,
}

impl Apparel {
    pub closed spec fn spec_id(&self) -> Seq<char> {
        self.id@
    }

    pub closed spec fn spec_name(&self) -> Seq<char> {
        self.name@
    }

    pub closed spec fn spec_slot(&self) -> ArmorSlot {
        self.slot
    }

    pub closed spec fn spec_defense(&self) -> u32 {
        self.defense
    }

    pub closed spec fn spec_weight(&self) -> u32 {
        self.weight
    }

    pub closed spec fn spec_value(&self) -> u32 {
        self.value
    }

    pub fn new(id: String, name: String, slot: ArmorSlot, defense: u32, weight: u32, value: u32) -> (r: Self)
        ensures
            r.spec_id() == id@,
            r.spec_name() == name@,
            r.spec_slot() == slot,
            r.spec_defense() == defense,
            r.spec_weight() == weight,
            r.spec_value() == value,
    {
        Apparel { id, name, slot, defense, weight, value }
    }

    pub fn id(&self) -> (r: &str)
        ensures
            r@ == self.spec_id(),
    {
        self.id.as_str()
    }

    pub fn name(&self) -> (r: &str)
        ensures
            r@ == self.spec_name(),
    {
        self.name.as_str()
    }

    pub fn defense(&self) -> (r: u32)
        ensures
            r == self.spec_defense(),
    {
        self.defense
    }

    pub fn weight(&self) -> (r: u32)
        ensures
            r == self.spec_weight(),
    {
        self.weight
    }

    pub fn value(&self) -> (r: u32)
        ensures
            r == self.spec_value(),
    {
        self.value
    }

    pub fn slot(&self) -> (r: ArmorSlot)
        ensures
            r == self.spec_slot(),
    {
        self.slot
    }
}

impl Duplicate for Apparel {
    fn duplicate(&self) -> (r: Self) {
        Apparel {
            id: self.id.clone(),
            name: self.name.clone(),
            slot: self.slot,
            defense: self.defense,
            weight: self.weight,
            value: self.value,
        }
    }
}

/// A weapon; its damage is what an attack with it deals.
#[derive(Debug, Clone, PartialEq, Eq)]
pub struct Weapon {
    id: String,
    name: String,
    damage: u32,
    weight: u32,
    value: u32,
}

impl Weapon {
    pub closed spec fn spec_id(&self) -> Seq<char> {
        self.id@
    }

    pub closed spec fn spec_name(&self) -> Seq<char> {
        self.name@
    }

    pub closed spec fn spec_damage(&self) -> u32 {
        self.damage
    }

    pub closed spec fn spec_weight(&self) -> u32 {
        self.weight
    }

    pub closed spec fn spec_value(&self) -> u32 {
        self.value
    }

    pub fn new(id: String, name: String, damage: u32, weight: u32, value: u32) -> (r: Self)
        ensures
            r.spec_id() == id@,
            r.spec_name() == name@,
            r.spec_damage() == damage,
            r.spec_weight() == weight,
            r.spec_value() == value,
    {
        Weapon { id, name, damage, weight, value }
    }

    pub fn id(&self) -> (r: &str)
        ensures
            r@ == self.spec_id(),
    {
        self.id.as_str()
    }

    pub fn name(&self) -> (r: &str)
        ensures
            r@ == self.spec_name(),
    {
        self.name.as_str()
    }

    pub fn damage(&self) -> (r: u32)
        ensures
            r == self.spec_damage(),
    {
        self.damage
    }

    pub fn weight(&self) -> (r: u32)
        ensures
            r == self.spec_weight(),
    {
        self.weight
    }

    pub fn value(&self) -> (r: u32)
        ensures
            r == self.spec_value(),
    {
        self.value
    }
}

impl Duplicate for Weapon {
    fn duplicate(&self) -> (r: Self) {
        Weapon {
            id: self.id.clone(),
            name: self.name.clone(),
            damage: self.damage,
            weight: self.weight,
            value: self.value,
        }
    }
}

/// Food that heals when eaten.
#[derive(Debug, Clone, PartialEq, Eq)]
pub struct Food {
    id: String,
    name: String,
    hp: u32,
    weight: u32,
    value: u32,
}

impl Food {
    pub closed spec fn spec_id(&self) -> Seq<char> {
        self.id@
    }

    pub closed spec fn spec_name(&self) -> Seq<char> {
        self.name@
    }

    pub closed spec fn spec_hp(&self) -> u32 {
        self.hp
    }

    pub closed spec fn spec_weight(&self) -> u32 {
        self.weight
    }

    pub closed spec fn spec_value(&self) -> u32 {
        self.value
    }

    pub fn new(id: String, name: String, hp: u32, weight: u32, value: u32) -> (r: Self)
        ensures
            r.spec_id() == id@,
            r.spec_name() == name@,
            r.spec_hp() == hp,
            r.spec_weight() == weight,
            r.spec_value() == value,
    {
        Food { id, name, hp, weight, value }
    }

    pub fn id(&self) -> (r: &str)
        ensures
            r@ == self.spec_id(),
    {
        self.id.as_str()
    }

    pub fn name(&self) -> (r: &str)
        ensures
            r@ == self.spec_name(),
    {
        self.name.as_str()
    }

    pub fn hp(&self) -> (r: u32)
        ensures
            r == self.spec_hp(),
    {
        self.hp
    }

    pub fn weight(&self) -> (r: u32)
        ensures
            r == self.spec_weight(),
    {
        self.weight
    }

    pub fn value(&self) -> (r: u32)
        ensures
            r == self.spec_value(),
    {
        self.value
    }
}

impl Duplicate for Food {
    fn duplicate(&self) -> (r: Self) {
        Food {
            id: self.id.clone(),
            name: self.name.clone(),
            hp: self.hp,
            weight: self.weight,
            value: self.value,
        }
    }
}

/// A potion; it weighs nothing.
#[derive(Debug, Clone, PartialEq, Eq)]
pub struct Potion {
    id: String,
    name: String,
    description: String,
    value: u32,
    effects: PotionEffects,
}

impl Potion {
    pub closed spec fn spec_id(&self) -> Seq<char> {
        self.id@
    }

    pub closed spec fn spec_name(&self) -> Seq<char> {
        self.name@
    }

    pub closed spec fn spec_description(&self) -> Seq<char> {
        self.description@
    }

    pub closed spec fn spec_value(&self) -> u32 {
        self.value
    }

    pub closed spec fn spec_effects(&self) -> PotionEffects {
        self.effects
    }

    pub fn new(id: String, name: String, description: String, value: u32, effects: PotionEffects) -> (r: Self)
        ensures
            r.spec_id() == id@,
            r.spec_name() == name@,
            r.spec_description() == description@,
            r.spec_value() == value,
            r.spec_effects() == effects,
    {
        Potion { id, name, description, value, effects }
    }

    pub fn id(&self) -> (r: &str)
        ensures
            r@ == self.spec_id(),
    {
        self.id.as_str()
    }

    pub fn name(&self) -> (r: &str)
        ensures
            r@ == self.spec_name(),
    {
        self.name.as_str()
    }

    pub fn description(&self) -> (r: &str)
        ensures
            r@ == self.spec_description(),
    {
        self.description.as_str()
    }

    pub fn value(&self) -> (r: u32)
        ensures
            r == self.spec_value(),
    {
        self.value
    }

    pub fn effects(&self) -> (r: &PotionEffects)
        ensures
            *r == self.spec_effects(),
    {
        &self.effects
    }
}

impl Duplicate for Potion {
    fn duplicate(&self) -> (r: Self) {
        Potion {
            id: self.id.clone(),
            name: self.name.clone(),
            description: self.description.clone(),
            value: self.value,
            effects: self.effects.duplicate(),
        }
    }
}

/// What drinking a potion does.
#[derive(Debug, Clone, PartialEq, Eq, Structural)]
pub struct PotionEffects {
    pub health: Option<u32>,
}

impl Duplicate for PotionEffects {
    fn duplicate(&self) -> (r: Self) {
        PotionEffects { health: self.health }
    }
}

/// A shield held in the shield hand.
#[derive(Debug, Clone, PartialEq, Eq)]
pub struct Shield {
    id: String,
    name: String,
    weight: u32,
    defense: u32,
    value: u32,
}

impl Shield {
    pub closed spec fn spec_id(&self) -> Seq<char> {
        self.id@
    }

    pub closed spec fn spec_name(&self) -> Seq<char> {
        self.name@
    }

    pub closed spec fn spec_weight(&self) -> u32 {
        self.weight
    }

    pub closed spec fn spec_defense(&self) -> u32 {
        self.defense
    }

    pub closed spec fn spec_value(&self) -> u32 {
        self.value
    }

    pub fn new(id: String, name: String, weight: u32, defense: u32, value: u32) -> (r: Self)
        ensures
            r.spec_id() == id@,
            r.spec_name() == name@,
            r.spec_weight() == weight,
            r.spec_defense() == defense,
            r.spec_value() == value,
    {
        Shield { id, name, weight, defense, value }
    }

    pub fn id(&self) -> (r: &str)
        ensures
            r@ == self.spec_id(),
    {
        self.id.as_str()
    }

    pub fn name(&self) -> (r: &str)
        ensures
            r@ == self.spec_name(),
    {
        self.name.as_str()
    }

    pub fn weight(&self) -> (r: u32)
        ensures
            r == self.spec_weight(),
    {
        self.weight
    }

    pub fn defense(&self) -> (r: u32)
        ensures
            r == self.spec_defense(),
    {
        self.defense
    }

    pub fn value(&self) -> (r: u32)
        ensures
            r == self.spec_value(),
    {
        self.value
    }
}

impl Duplicate for Shield {
    fn duplicate(&self) -> (r: Self) {
        Shield {
            id: self.id.clone(),
            name: self.name.clone(),
            weight: self.weight,
            defense: self.defense,
            value: self.value,
        }
    }
}

/// Any catalog item, tagged by the list it was defined in.
#[derive(Debug, Clone, PartialEq, Eq)]
pub enum AnyItem {
    Apparel(Apparel),
    Weapon(Weapon),
    Food(Food),
    Potion(Potion),
    Shield(Shield),
}

impl Duplicate for AnyItem {
    fn duplicate(&self) -> (r: Self) {
        match self {
            AnyItem::Apparel(i) => AnyItem::Apparel(i.duplicate()),
            AnyItem::Weapon(i) => AnyItem::Weapon(i.duplicate()),
            AnyItem::Food(i) => AnyItem::Food(i.duplicate()),
            AnyItem::Potion(i) => AnyItem::Potion(i.duplicate()),
            AnyItem::Shield(i) => AnyItem::Shield(i.duplicate()),
        }
    }
}

impl AnyItem {
    pub open spec fn spec_id(&self) -> Seq<char> {
        match self {
            AnyItem::Apparel(i) => i.spec_id(),
            AnyItem::Weapon(i) => i.spec_id(),
            AnyItem::Food(i) => i.spec_id(),
            AnyItem::Potion(i) => i.spec_id(),
            AnyItem::Shield(i) => i.spec_id(),
        }
    }

    pub open spec fn spec_name(&self) -> Seq<char> {
        match self {
            AnyItem::Apparel(i) => i.spec_name(),
            AnyItem::Weapon(i) => i.spec_name(),
            AnyItem::Food(i) => i.spec_name(),
            AnyItem::Potion(i) => i.spec_name(),
            AnyItem::Shield(i) => i.spec_name(),
        }
    }

    /// The kind that instances spawned from this item carry.
    pub open spec fn spec_kind(&self) -> ItemKind {
        match self {
            AnyItem::Apparel(i) => ItemKind::Apparel(i.spec_slot()),
            AnyItem::Weapon(_) => ItemKind::Weapon,
            AnyItem::Food(_) => ItemKind::Food,
            AnyItem::Potion(_) => ItemKind::Potion,
            AnyItem::Shield(_) => ItemKind::Shield,
        }
    }

    pub fn id(&self) -> (r: ItemId)
        ensures
            r@ == self.spec_id(),
    {
        let s = match self {
            AnyItem::Apparel(i) => &i.id,
            AnyItem::Weapon(i) => &i.id,
            AnyItem::Food(i) => &i.id,
            AnyItem::Potion(i) => &i.id,
            AnyItem::Shield(i) => &i.id,
        };
        ItemId(s.clone())
    }

    pub fn name(&self) -> (r: &str)
        ensures
            r@ == self.spec_name(),
    {
        match self {
            AnyItem::Apparel(i) => i.name(),
            AnyItem::Weapon(i) => i.name(),
            AnyItem::Food(i) => i.name(),
            AnyItem::Potion(i) => i.name(),
            AnyItem::Shield(i) => i.name(),
        }
    }

    /// The item's weight; potions weigh nothing.
    pub fn weight(&self) -> (r: u32)
        ensures
            r == match self {
                AnyItem::Apparel(i) => i.spec_weight(),
                AnyItem::Weapon(i) => i.spec_weight(),
                AnyItem::Food(i) => i.spec_weight(),
                AnyItem::Potion(_) => 0,
                AnyItem::Shield(i) => i.spec_weight(),
            },
    {
        match self {
            AnyItem::Apparel(i) => i.weight(),
            AnyItem::Weapon(i) => i.weight(),
            AnyItem::Food(i) => i.weight(),
            AnyItem::Potion(_) => 0,
            AnyItem::Shield(i) => i.weight(),
        }
    }

    pub fn value(&self) -> (r: u32)
        ensures
            r == match self {
                AnyItem::Apparel(i) => i.spec_value(),
                AnyItem::Weapon(i) => i.spec_value(),
                AnyItem::Food(i) => i.spec_value(),
                AnyItem::Potion(i) => i.spec_value(),
                AnyItem::Shield(i) => i.spec_value(),
            },
    {
        match self {
            AnyItem::Apparel(i) => i.value(),
            AnyItem::Weapon(i) => i.value(),
            AnyItem::Food(i) => i.value(),
            AnyItem::Potion(i) => i.value(),
            AnyItem::Shield(i) => i.value(),
        }
    }

    pub fn is_apparel(&self) -> (r: bool)
        ensures
            r == self is Apparel,
    {
        matches!(self, AnyItem::Apparel(_))
    }

    pub fn is_weapon(&self) -> (r: bool)
        ensures
            r == self is Weapon,
    {
        matches!(self, AnyItem::Weapon(_))
    }

    pub fn is_food(&self) -> (r: bool)
        ensures
            r == self is Food,
    {
        matches!(self, AnyItem::Food(_))
    }

    pub fn is_potion(&self) -> (r: bool)
        ensures
            r == self is Potion,
    {
        matches!(self, AnyItem::Potion(_))
    }

    pub fn is_shield(&self) -> (r: bool)
        ensures
            r == self is Shield,
    {
        matches!(self, AnyItem::Shield(_))
    }

    pub fn as_apparel(&self) -> (r: Option<&Apparel>)
        ensures
            r == match self {
                AnyItem::Apparel(i) => Some(i),
                _ => None::<&Apparel>,
            },
    {
        if let AnyItem::Apparel(i) = self {
            Some(i)
        } else {
            None
        }
    }

    pub fn as_weapon(&self) -> (r: Option<&Weapon>)
        ensures
            r == match self {
                AnyItem::Weapon(i) => Some(i),
                _ => None::<&Weapon>,
            },
    {
        if let AnyItem::Weapon(i) = self {
            Some(i)
        } else {
            None
        }
    }

    pub fn as_food(&self) -> (r: Option<&Food>)
        ensures
            r == match self {
                AnyItem::Food(i) => Some(i),
                _ => None::<&Food>,
            },
    {
        if let AnyItem::Food(i) = self {
            Some(i)
        } else {
            None
        }
    }

    pub fn as_potion(&self) -> (r: Option<&Potion>)
        ensures
            r == match self {
                AnyItem::Potion(i) => Some(i),
                _ => None::<&Potion>,
            },
    {
        if let AnyItem::Potion(i) = self {
            Some(i)
        } else {
            None
        }
    }

    pub fn as_shield(&self) -> (r: Option<&Shield>)
        ensures
            r == match self {
                AnyItem::Shield(i) => Some(i),
                _ => None::<&Shield>,
            },
    {
        if let AnyItem::Shield(i) = self {
            Some(i)
        } else {
            None
        }
    }

    pub fn kind(&self) -> (r: ItemKind)
        ensures
            r == self.spec_kind(),
    {
        match self {
            AnyItem::Apparel(i) => ItemKind::Apparel(i.slot),
            AnyItem::Weapon(_) => ItemKind::Weapon,
            AnyItem::Food(_) => ItemKind::Food,
            AnyItem::Potion(_) => ItemKind::Potion,
            AnyItem::Shield(_) => ItemKind::Shield,
        }
    }
}

/// The contents of one item file: up to five lists, one per kind.
#[derive(Debug, Clone, PartialEq, Eq)]
pub struct ItemFile {
    pub apparel: Option<Vec<Apparel>>,
    pub weapon: Option<Vec<Weapon>>,
    pub food: Option<Vec<Food>>,
    pub potion: Option<Vec<Potion>>,
    pub shield: Option<Vec<Shield>>,
}

/// A definition that an item file lists under its own kind.
pub trait ListedItem: Sized {
    /// The catalog item that this definition is.
    spec fn into_any(self) -> AnyItem;

    fn to_any(&self) -> (r: AnyItem)
        ensures
            r == self.into_any(),
    ;
}

impl ListedItem for Apparel {
    open spec fn into_any(self) -> AnyItem {
        AnyItem::Apparel(self)
    }

    fn to_any(&self) -> (r: AnyItem) {
        AnyItem::Apparel(self.duplicate())
    }
}

impl ListedItem for Weapon {
    open spec fn into_any(self) -> AnyItem {
        AnyItem::Weapon(self)
    }

    fn to_any(&self) -> (r: AnyItem) {
        AnyItem::Weapon(self.duplicate())
    }
}

impl ListedItem for Food {
    open spec fn into_any(self) -> AnyItem {
        AnyItem::Food(self)
    }

    fn to_any(&self) -> (r: AnyItem) {
        AnyItem::Food(self.duplicate())
    }
}

impl ListedItem for Potion {
    open spec fn into_any(self) -> AnyItem {
        AnyItem::Potion(self)
    }

    fn to_any(&self) -> (r: AnyItem) {
        AnyItem::Potion(self.duplicate())
    }
}

impl ListedItem for Shield {
    open spec fn into_any(self) -> AnyItem {
        AnyItem::Shield(self)
    }

    fn to_any(&self) -> (r: AnyItem) {
        AnyItem::Shield(self.duplicate())
    }
}

/// The catalog items of one list of an item file, in order.
pub open spec fn listed_items<T: ListedItem>(l: Option<Vec<T>>) -> Seq<AnyItem> {
    match l {
        Some(v) => v@.map_values(|i: T| i.into_any()),
        None => Seq::empty(),
    }
}

impl ItemFile {
    /// Every item of the file, list by list in the order apparel, weapon,
    /// food, potion, shield, each list in its own order.
    pub open spec fn spec_items(&self) -> Seq<AnyItem> {
        listed_items(self.apparel) + listed_items(self.weapon) + listed_items(self.food)
            + listed_items(self.potion) + listed_items(self.shield)
    }

    pub fn into_iter(self) -> (r: Vec<AnyItem>)
        ensures
            r@ == self.spec_items(),
    {
        let mut out: Vec<AnyItem> = Vec::new();
        append_listed(&mut out, &self.apparel);
        append_listed(&mut out, &self.weapon);
        append_listed(&mut out, &self.food);
        append_listed(&mut out, &self.potion);
        append_listed(&mut out, &self.shield);
        assert(out@ =~= self.spec_items());
        out
    }
}

/// Appends the catalog items of one list of an item file.
fn append_listed<T: ListedItem>(out: &mut Vec<AnyItem>, l: &Option<Vec<T>>)
    ensures
        final(out)@ == old(out)@ + listed_items(*l),
{
    let ghost a = out@;
    if let Some(v) = l {
        let mut i: usize = 0;
        while i < v.len()
            invariant
                i <= v@.len(),
                out@ == a + v@.take(i as int).map_values(|x: T| x.into_any()),
            decreases v@.len() - i,
        {
            out.push(v[i].to_any());
            proof {
                assert(v@.take(i + 1) == v@.take(i as int).push(v@[i as int]));
            }
            i = i + 1;
            proof {
                assert(out@ =~= a + v@.take(i as int).map_values(|x: T| x.into_any()));
            }
        }
        proof {
            assert(v@.take(v@.len() as int) == v@);
        }
    } else {
        assert(out@ =~= a + listed_items(*l));
    }
}

/// The catalog after inserting `items` in order into `m`, each under its id:
/// a later item with the same id replaces an earlier one.
pub open spec fn insert_items(m: Map<Seq<char>, AnyItem>, items: Seq<AnyItem>) -> Map<Seq<char>, AnyItem>
    decreases items.len(),
{
    if items.len() == 0 {
        m
    } else {
        insert_items(m, items.drop_last()).insert(items.last().spec_id(), items.last())
    }
}

/// The catalog of item definitions, indexed by item id.
pub struct ItemManager {
    items: Table<ItemId, AnyItem>,
}

impl View for ItemManager {
    type V = Map<Seq<char>, AnyItem>;

    closed spec fn view(&self) -> Map<Seq<char>, AnyItem> {
        self.items@
    }
}

impl ItemManager {
    pub fn new() -> (r: Self)
        ensures
            r@ == Map::<Seq<char>, AnyItem>::empty(),
    {
        ItemManager { items: Table::new() }
    }

    /// Adds every item of a parsed item file; an item whose id is already
    /// known replaces the earlier definition.
    pub fn load_item_file(&mut self, file: ItemFile)
        ensures
            final(self)@ == insert_items(old(self)@, file.spec_items()),
    {
        let ghost all = file.spec_items();
        let items = file.into_iter();
        let mut i: usize = 0;
        while i < items.len()
            invariant
                i <= items@.len(),
                items@ == all,
                self@ == insert_items(old(self)@, all.take(i as int)),
            decreases items@.len() - i,
        {
            let item = items[i].duplicate();
            let id = item.id();
            self.items.insert(id, item);
            proof {
                assert(all.take(i + 1).drop_last() == all.take(i as int));
            }
            i = i + 1;
        }
        proof {
            assert(all.take(all.len() as int) == all);
        }
    }

    /// The catalog with the items of `file` added, as `load_item_file` adds them.
    pub fn with_item_file(self, file: ItemFile) -> (r: Self)
        ensures
            r@ == insert_items(self@, file.spec_items()),
    {
        let mut m = self;
        m.load_item_file(file);
        m
    }

    pub fn get_item(&self, id: &ItemId) -> (r: Option<&AnyItem>)
        ensures
            match r {
                Some(item) => self@.contains_key(id@) && *item == self@[id@],
                None => !self@.contains_key(id@),
            },
    {
        self.items.get(id)
    }

    /// A new instance of the item `item_id`, with a fresh instance id; none
    /// when the catalog has no such item.
    pub fn spawn(&self, item_id: ItemId) -> (r: Option<ItemInstance>)
        ensures
            r.is_some() == self@.contains_key(item_id@),
            r matches Some(inst) ==> inst.spec_item_id() == item_id@ && inst.spec_kind()
                == self@[item_id@].spec_kind(),
    {
        match self.get_item(&item_id) {
            Some(item) => {
                let kind = item.kind();
                Some(ItemInstance { instance_id: ItemInstanceId::new(), item_id, kind })
            },
            None => None,
        }
    }
}

impl Default for ItemManager {
    fn default() -> (r: Self)
        ensures
            r@ == Map::<Seq<char>, AnyItem>::empty(),
    {
        ItemManager::new()
    }
}

proof fn lemma_insert_items_union(m: Map<Seq<char>, AnyItem>, items: Seq<AnyItem>)
    ensures
        insert_items(m, items) == m.union_prefer_right(insert_items(Map::empty(), items)),
    decreases items.len(),
{
    if items.len() > 0 {
        lemma_insert_items_union(m, items.drop_last());
        assert(insert_items(m, items) =~= m.union_prefer_right(insert_items(Map::empty(), items)));
    }
}

/// Loading the same items a second time leaves the catalog as one load left it.
pub proof fn lemma_reload_items_idempotent(m: Map<Seq<char>, AnyItem>, items: Seq<AnyItem>)
    ensures
        insert_items(insert_items(m, items), items) == insert_items(m, items),
{
    let f = insert_items(Map::empty(), items);
    lemma_insert_items_union(m, items);
    lemma_insert_items_union(insert_items(m, items), items);
    assert(m.union_prefer_right(f).union_prefer_right(f) =~= m.union_prefer_right(f));
}

} // verus!
