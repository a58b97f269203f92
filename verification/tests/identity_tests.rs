use afk_companion_bot::identity::{
    armor_info, armor_target_slot, axe_rank, best_armor_in_storage, best_pickaxe_slot,
    best_sword_slot, best_tool_slot_for, best_weapon_slot, equipped_armor, find_storage_slot,
    food_slot, hotbar_slot, is_block, is_food, is_hostile, is_keep, is_shield, is_tool, is_totem,
    is_trash, is_valuable, item_name, offhand_item, pickaxe_rank, ranked_hotbar_slot,
    shovel_rank, sword_rank, ArmorSlot, ItemClass, Ranking,
};

fn menu(items: &[(usize, &str)]) -> Vec<Option<String>> {
    let mut slots = vec![None; 46];
    for (i, name) in items {
        slots[*i] = Some(name.to_string());
    }
    slots
}

#[test]
fn registry_names_come_from_debug_names() {
    assert_eq!(item_name("DiamondSword"), "diamond_sword");
    assert_eq!(item_name("TotemOfUndying"), "totem_of_undying");
    assert_eq!(item_name("Apple"), "apple");
}

#[test]
fn items_are_classified() {
    assert!(is_food("cooked_beef"));
    assert!(!is_food("rotten_flesh"));
    assert_eq!(sword_rank("netherite_sword"), Some(6));
    assert_eq!(pickaxe_rank("golden_pickaxe"), Some(2));
    assert_eq!(axe_rank("stone_axe"), Some(3));
    assert_eq!(shovel_rank("wooden_shovel"), Some(1));
    assert_eq!(sword_rank("stick"), None);
    assert!(is_shield("shield"));
    assert!(is_totem("totem_of_undying"));
    assert_eq!(armor_info("turtle_helmet"), Some((ArmorSlot::Helmet, 4)));
    assert_eq!(armor_info("diamond_boots"), Some((ArmorSlot::Boots, 5)));
    assert_eq!(armor_info("elytra"), None);
    assert!(is_tool("iron_hoe"));
    assert!(is_tool("fishing_rod"));
    assert!(is_valuable("gold_ingot"));
    assert!(is_valuable("ender_pearl"));
    assert!(is_block("oak_planks"));
    assert!(is_block("dirt"));
    assert!(is_hostile("zombie_villager"));
    assert!(!is_hostile("cow"));
}

#[test]
fn trash_is_exactly_what_is_not_kept() {
    for name in ["rotten_flesh", "string", "bone", "gunpowder", "spider_eye", "bread", "dirt", "diamond"] {
        assert_eq!(is_trash(name), !is_keep(name));
    }
    assert!(is_trash("rotten_flesh"));
    assert!(is_valuable("shulker_box"));
    assert!(is_valuable("red_shulker_box"));
    assert!(!is_trash("shulker_box"));
    assert!(!is_trash("bread"));
    assert!(!is_trash("diamond_chestplate"));
}

#[test]
fn hotbar_picks() {
    let slots = menu(&[(36, "stone_sword"), (37, "bread"), (38, "diamond_sword"), (39, "iron_axe"), (40, "diamond_sword"), (41, "iron_pickaxe")]);
    assert_eq!(food_slot(&slots), Some(1));
    assert_eq!(hotbar_slot(&slots, ItemClass::WaterBucket), None);
    // The first of equal ranks wins.
    assert_eq!(best_sword_slot(&slots), Some(2));
    assert_eq!(best_pickaxe_slot(&slots), Some(5));
    // Diamond sword (11) beats iron axe (8).
    assert_eq!(best_weapon_slot(&slots), Some(2));
    assert_eq!(ranked_hotbar_slot(&slots, Ranking::Shovel), None);
    let axe_wins = menu(&[(36, "wooden_sword"), (37, "diamond_axe")]);
    assert_eq!(best_weapon_slot(&axe_wins), Some(1));
}

#[test]
fn tool_for_a_block() {
    let slots = menu(&[(36, "iron_pickaxe"), (37, "stone_axe"), (38, "golden_shovel")]);
    assert_eq!(best_tool_slot_for(&slots, "oak_log"), Some(1));
    assert_eq!(best_tool_slot_for(&slots, "chest"), Some(1));
    assert_eq!(best_tool_slot_for(&slots, "gravel"), Some(2));
    assert_eq!(best_tool_slot_for(&slots, "stone"), Some(0));
    let only_pick = menu(&[(40, "wooden_pickaxe")]);
    assert_eq!(best_tool_slot_for(&only_pick, "oak_log"), Some(4));
    assert_eq!(best_tool_slot_for(&menu(&[]), "stone"), None);
}

#[test]
fn storage_offhand_and_armor() {
    let slots = menu(&[
        (5, "iron_helmet"),
        (12, "totem_of_undying"),
        (20, "diamond_helmet"),
        (21, "golden_helmet"),
        (30, "diamond_helmet"),
        (45, "shield"),
    ]);
    assert_eq!(find_storage_slot(&slots, ItemClass::Totem), Some(12));
    assert_eq!(find_storage_slot(&slots, ItemClass::Food), None);
    assert_eq!(offhand_item(&slots).as_deref(), Some("shield"));
    assert_eq!(equipped_armor(&slots, ArmorSlot::Helmet).as_deref(), Some("iron_helmet"));
    assert_eq!(best_armor_in_storage(&slots, ArmorSlot::Helmet), Some((20, 5)));
    assert_eq!(best_armor_in_storage(&slots, ArmorSlot::Boots), None);
    assert_eq!(armor_target_slot(ArmorSlot::Leggings), 7);
}
