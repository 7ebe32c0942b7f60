use rpg_core::components::{ArmorSlot, ArmorSlots, LifeStatus, RpgEntity, MAX_HEALTH};
use rpg_core::items::{Apparel, Food, ItemFile, ItemId, ItemInstanceId, ItemManager, Shield, Weapon};

fn catalog() -> ItemManager {
    ItemManager::new().with_item_file(ItemFile {
        apparel: Some(vec![
            Apparel::new("cap".to_string(), "Cap".to_string(), ArmorSlot::Head, 1, 1, 1),
            Apparel::new("helm".to_string(), "Helm".to_string(), ArmorSlot::Head, 3, 4, 5),
        ]),
        weapon: Some(vec![Weapon::new("club".to_string(), "Club".to_string(), 4, 2, 2)]),
        food: Some(vec![Food::new("apple".to_string(), "Apple".to_string(), 2, 1, 1)]),
        potion: None,
        shield: Some(vec![Shield::new("board".to_string(), "Board".to_string(), 3, 1, 1)]),
    })
}

#[test]
fn damage_accumulates_and_clamps_at_max_health() {
    let mut e = RpgEntity::new(Some("Orc".to_string()));
    assert_eq!(e.max_health(), 20);
    assert_eq!(e.health(), 20);
    let r = e.apply_damage(5);
    assert_eq!(r.reduced_damage, 5);
    assert_eq!(r.life_status, LifeStatus::Alive);
    assert_eq!(e.health(), 15);
    let r = e.apply_damage(14);
    assert_eq!(r.life_status, LifeStatus::Alive);
    assert_eq!(e.health(), 1);
    assert!(e.is_alive());
    let r = e.apply_damage(7);
    assert!(r.life_status.is_dead());
    assert_eq!(e.damage(), MAX_HEALTH);
    assert_eq!(e.health(), 0);
    assert!(e.is_dead());
}

#[test]
fn dead_entity_stays_dead() {
    let mut e = RpgEntity::new(None);
    assert!(e.apply_damage(20).life_status.is_dead());
    for hit in [0, 1, 3, u32::MAX] {
        let r = e.apply_damage(hit);
        assert_eq!(r.life_status, LifeStatus::Dead);
        assert_eq!(e.health(), 0);
    }
}

#[test]
fn zero_damage_keeps_health() {
    let mut e = RpgEntity::new(None);
    let r = e.apply_damage(0);
    assert_eq!(r.life_status, LifeStatus::Alive);
    assert_eq!(e.health(), 20);
}

#[test]
fn equipping_a_foreign_instance_fails() {
    let c = catalog();
    let mut owner = RpgEntity::new(Some("A".to_string()));
    let mut other = RpgEntity::new(Some("B".to_string()));
    let club = owner.insert_item(c.spawn(ItemId::new("club")).unwrap());
    assert!(!other.equip(club));
    assert!(other.equipped().is_empty());
    assert!(!other.equip(ItemInstanceId::new()));
    assert!(other.equipped().is_empty());
    assert_eq!(other.attack_damage(&c), 1);
}

#[test]
fn food_is_not_equippable() {
    let c = catalog();
    let mut e = RpgEntity::new(None);
    let apple = e.insert_item(c.spawn(ItemId::new("apple")).unwrap());
    assert!(!e.equip(apple));
    assert!(!e.is_equipped(&apple));
}

#[test]
fn reequipping_a_slot_keeps_first_in_inventory() {
    let c = catalog();
    let mut e = RpgEntity::new(None);
    let cap = e.insert_item(c.spawn(ItemId::new("cap")).unwrap());
    let helm = e.insert_item(c.spawn(ItemId::new("helm")).unwrap());
    assert!(e.equip(cap));
    assert!(e.is_equipped(&cap));
    assert!(e.equip(helm));
    assert!(e.is_equipped(&helm));
    assert!(!e.is_equipped(&cap));
    assert!(e.inventory().get(&cap).is_some());

    let mut slots = ArmorSlots::new();
    assert_eq!(slots.set(ArmorSlot::Head, cap), None);
    assert_eq!(slots.set(ArmorSlot::Head, helm), Some(cap));
    assert_eq!(slots.get(ArmorSlot::Head), Some(&helm));
    assert_eq!(slots.get(ArmorSlot::Feet), None);
    assert_eq!(slots.remove(ArmorSlot::Head), Some(helm));
    assert_eq!(slots.get(ArmorSlot::Head), None);
}

#[test]
fn equipped_lists_weapon_shield_then_armor() {
    let c = catalog();
    let mut e = RpgEntity::new(None);
    let helm = e.insert_item(c.spawn(ItemId::new("helm")).unwrap());
    let board = e.insert_item(c.spawn(ItemId::new("board")).unwrap());
    let club = e.insert_item(c.spawn(ItemId::new("club")).unwrap());
    assert!(e.equip(helm));
    assert!(e.equip(board));
    assert!(e.equip(club));
    assert_eq!(e.equipped(), vec![club, board, helm]);
    assert_eq!(e.attack_damage(&c), 4);
}

#[test]
fn rename_entity() {
    let mut e = RpgEntity::new(Some("Old".to_string()));
    e.set_name("New".to_string());
    assert_eq!(e.name(), "New");
}

#[test]
fn armor_does_not_reduce_damage_yet() {
    let slots = ArmorSlots::new();
    assert_eq!(slots.damage_restistance(6), 6);
}
