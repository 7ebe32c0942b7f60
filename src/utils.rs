//! Looking up what an equipment slot holds through an inventory and the catalog.
use vstd::prelude::*;

use crate::components::Inventory;
use crate::items::{AnyItem, Apparel, Food, ItemInstance, ItemInstanceId, ItemManager, Potion, Shield, Weapon};

verus! {

/// The catalog item behind an optional instance id: the instance must be in
/// the inventory and its item in the catalog.
pub open spec fn resolve_item(
    instance_id: Option<ItemInstanceId>,
    inventory: Map<u128, ItemInstance>,
    catalog: Map<Seq<char>, AnyItem>,
) -> Option<AnyItem> {
    match instance_id {
        Some(id) => if inventory.contains_key(id@) && catalog.contains_key(
            inventory[id@].spec_item_id(),
        ) {
            Some(catalog[inventory[id@].spec_item_id()])
        } else {
            None
        },
        None => None,
    }
}

pub fn get_item<'a>(
    maybe_instance_id: Option<ItemInstanceId>,
    inventory: &Inventory,
    item_manager: &'a ItemManager,
) -> (r: Option<&'a AnyItem>)
    ensures
        r == match resolve_item(maybe_instance_id, inventory@, item_manager@) {
            Some(item) => Some(&item),
            None => None,
        },
{
    match maybe_instance_id {
        Some(instance_id) => match inventory.get(&instance_id) {
            Some(item_instance) => item_manager.get_item(item_instance.item_id()),
            None => None,
        },
        None => None,
    }
}

pub fn get_apparel<'a>(
    maybe_instance_id: Option<ItemInstanceId>,
    inventory: &Inventory,
    item_manager: &'a ItemManager,
) -> (r: Option<&'a Apparel>)
    ensures
        r == match resolve_item(maybe_instance_id, inventory@, item_manager@) {
            Some(AnyItem::Apparel(i)) => Some(&i),
            _ => None,
        },
{
    match get_item(maybe_instance_id, inventory, item_manager) {
        Some(item) => item.as_apparel(),
        None => None,
    }
}

pub fn get_weapon<'a>(
    maybe_instance_id: Option<ItemInstanceId>,
    inventory: &Inventory,
    item_manager: &'a ItemManager,
) -> (r: Option<&'a Weapon>)
    ensures
        r == match resolve_item(maybe_instance_id, inventory@, item_manager@) {
            Some(AnyItem::Weapon(i)) => Some(&i),
            _ => None,
        },
{
    match get_item(maybe_instance_id, inventory, item_manager) {
        Some(item) => item.as_weapon(),
        None => None,
    }
}

pub fn get_food<'a>(
    maybe_instance_id: Option<ItemInstanceId>,
    inventory: &Inventory,
    item_manager: &'a ItemManager,
) -> (r: Option<&'a Food>)
    ensures
        r == match resolve_item(maybe_instance_id, inventory@, item_manager@) {
            Some(AnyItem::Food(i)) => Some(&i),
            _ => None,
        },
{
    match get_item(maybe_instance_id, inventory, item_manager) {
        Some(item) => item.as_food(),
        None => None,
    }
}

pub fn get_potion<'a>(
    maybe_instance_id: Option<ItemInstanceId>,
    inventory: &Inventory,
    item_manager: &'a ItemManager,
) -> (r: Option<&'a Potion>)
    ensures
        r == match resolve_item(maybe_instance_id, inventory@, item_manager@) {
            Some(AnyItem::Potion(i)) => Some(&i),
            _ => None,
        },
{
    match get_item(maybe_instance_id, inventory, item_manager) {
        Some(item) => item.as_potion(),
        None => None,
    }
}

pub fn get_shield<'a>(
    maybe_instance_id: Option<ItemInstanceId>,
    inventory: &Inventory,
    item_manager: &'a ItemManager,
) -> (r: Option<&'a Shield>)
    ensures
        r == match resolve_item(maybe_instance_id, inventory@, item_manager@) {
            Some(AnyItem::Shield(i)) => Some(&i),
            _ => None,
        },
{
    match get_item(maybe_instance_id, inventory, item_manager) {
        Some(item) => item.as_shield(),
        None => None,
    }
}

} // verus!
