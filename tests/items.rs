use rpg_core::components::{ArmorSlot, RpgEntity, UNARMED_DAMAGE};
use rpg_core::items::{AnyItem, Apparel, Food, ItemFile, ItemId, ItemInstanceId, ItemKind, ItemManager, Potion, PotionEffects, Shield, Weapon};
use rpg_core::utils::{get_apparel, get_item, get_weapon};

fn sword_file() -> ItemFile {
    ItemFile {
        apparel: None,
        weapon: Some(vec![Weapon::new("sword".to_string(), "Sword".to_string(), 7, 3, 10)]),
        food: None,
        potion: None,
        shield: None,
    }
}

fn mixed_file() -> ItemFile {
    ItemFile {
        apparel: Some(vec![Apparel::new("helm".to_string(), "Helm".to_string(), ArmorSlot::Head, 2, 4, 6)]),
        weapon: Some(vec![Weapon::new("axe".to_string(), "Axe".to_string(), 5, 6, 8)]),
        food: Some(vec![Food::new("bread".to_string(), "Bread".to_string(), 3, 1, 1)]),
        potion: Some(vec![Potion::new(
            "tonic".to_string(),
            "Tonic".to_string(),
            "heals".to_string(),
            9,
            PotionEffects { health: Some(5) },
        )]),
        shield: Some(vec![Shield::new("buckler".to_string(), "Buckler".to_string(), 4, 2, 7)]),
    }
}

#[test]
fn unique_instance_ids() {
    assert_ne!(ItemInstanceId::new(), ItemInstanceId::new())
}

#[test]
fn equipped_sword_deals_its_damage() {
    let mut catalog = ItemManager::new();
    catalog.load_item_file(sword_file());
    let mut e = RpgEntity::new(Some("Jake".to_string()));
    assert_eq!(e.attack_damage(&catalog), 1);
    assert_eq!(UNARMED_DAMAGE, 1);
    let inst = catalog.spawn(ItemId::new("sword")).unwrap();
    let id = e.insert_item(inst);
    assert!(e.equip(id));
    assert_eq!(e.attack_damage(&catalog), 7);
    assert!(e.is_equipped(&id));
}

#[test]
fn spawn_unknown_item_is_none() {
    let catalog = ItemManager::new().with_item_file(sword_file());
    assert!(catalog.spawn(ItemId::new("shield")).is_none());
    let inst = catalog.spawn(ItemId::new("sword")).unwrap();
    assert_eq!(inst.item_id(), &ItemId::new("sword"));
    assert_eq!(*inst.kind(), ItemKind::Weapon);
}

#[test]
fn item_file_lists_kinds_in_order() {
    let items = mixed_file().into_iter();
    let ids: Vec<String> = items.iter().map(|i| i.id().0).collect();
    assert_eq!(ids, vec!["helm", "axe", "bread", "tonic", "buckler"]);
    assert!(items[0].is_apparel());
    assert!(items[1].is_weapon());
    assert!(items[2].is_food());
    assert!(items[3].is_potion());
    assert!(items[4].is_shield());
    assert_eq!(items[0].kind(), ItemKind::Apparel(ArmorSlot::Head));
}

#[test]
fn potion_weighs_nothing() {
    let items = mixed_file().into_iter();
    assert_eq!(items[3].weight(), 0);
    assert_eq!(items[3].value(), 9);
    assert_eq!(items[1].weight(), 6);
    assert_eq!(items[4].as_shield().unwrap().defense(), 2);
    assert_eq!(items[2].as_food().unwrap().hp(), 3);
    assert_eq!(items[3].as_potion().unwrap().effects().health, Some(5));
    assert!(items[3].as_weapon().is_none());
    assert_eq!(items[0].name(), "Helm");
}

#[test]
fn later_item_with_same_id_wins() {
    let mut catalog = ItemManager::new();
    catalog.load_item_file(sword_file());
    catalog.load_item_file(ItemFile {
        apparel: None,
        weapon: Some(vec![Weapon::new("sword".to_string(), "Big Sword".to_string(), 9, 5, 20)]),
        food: None,
        potion: None,
        shield: None,
    });
    match catalog.get_item(&ItemId::new("sword")) {
        Some(AnyItem::Weapon(w)) => assert_eq!(w.damage(), 9),
        _ => panic!("sword missing"),
    }
}

#[test]
fn reloading_a_file_gives_the_same_catalog() {
    let mut once = ItemManager::new();
    once.load_item_file(mixed_file());
    let mut twice = ItemManager::new();
    twice.load_item_file(mixed_file());
    let inst = twice.spawn(ItemId::new("axe")).unwrap();
    twice.load_item_file(mixed_file());
    for id in ["helm", "axe", "bread", "tonic", "buckler", "sword"] {
        assert_eq!(once.get_item(&ItemId::new(id)), twice.get_item(&ItemId::new(id)));
    }
    assert_eq!(inst.item_id(), &ItemId::new("axe"));
    let again = inst.instance_id();
    assert_eq!(again, inst.instance_id());
}

#[test]
fn lookups_through_inventory() {
    let catalog = ItemManager::new().with_item_file(mixed_file());
    let mut e = RpgEntity::new(None);
    assert_eq!(e.name(), "?");
    let helm = e.insert_item(catalog.spawn(ItemId::new("helm")).unwrap());
    assert!(get_item(Some(helm), e.inventory(), &catalog).is_some());
    assert_eq!(get_apparel(Some(helm), e.inventory(), &catalog).unwrap().id(), "helm");
    assert!(get_weapon(Some(helm), e.inventory(), &catalog).is_none());
    assert!(get_item(None, e.inventory(), &catalog).is_none());
    assert!(get_item(Some(ItemInstanceId::new()), e.inventory(), &catalog).is_none());
}
