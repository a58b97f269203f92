//! What the bot knows about items and mobs, by registry name ("diamond_sword",
//! "zombie"), and how it picks inventory slots: the best weapon or tool in the
//! hotbar, food, a totem or shield for the offhand, better armor in storage.
//!
//! A menu is a list of slots indexed as the player menu is (armor 5..=8,
//! storage 9..=44 with the hotbar at 36..=44, offhand 45); each slot holds the
//! registry name of its item, or nothing.
use crate::json::opt_text;
use crate::text::{
    ascii_lower, ascii_lower_char, contains_text, ends_with, is_uppercase, push_char, same_text,
    text_contains, text_ends_with, unicode_uppercase,
};
use vstd::prelude::*;

verus! {

/// One character of a debug name in snake case: an uppercase letter other than
/// the first becomes `_` and the letter lower-cased; every other character is
/// lower-cased (ASCII).
pub open spec fn snake_piece(c: char, first: bool) -> Seq<char> {
    if unicode_uppercase(c) && !first {
        seq!['_', ascii_lower(c)]
    } else {
        seq![ascii_lower(c)]
    }
}

/// The snake-case form of the first `n` characters of `s`.
pub open spec fn snake_prefix(s: Seq<char>, n: int) -> Seq<char>
    decreases n,
{
    if n <= 0 {
        Seq::empty()
    } else {
        snake_prefix(s, n - 1) + snake_piece(s[n - 1], n - 1 == 0)
    }
}

/// The registry name for a CamelCase debug name ("DiamondSword" gives
/// "diamond_sword").
pub open spec fn registry_name(debug: Seq<char>) -> Seq<char> {
    snake_prefix(debug, debug.len() as int)
}

/// The registry identifier (e.g. "diamond_sword") for an item or entity whose
/// debug name is `debug` (e.g. "DiamondSword").
pub fn item_name(debug: &str) -> (r: String)
    ensures
        r@ == registry_name(debug@),
{
    let n = debug.unicode_len();
    let mut out = String::new();
    let mut i: usize = 0;
    while i < n
        invariant
            n == debug@.len(),
            i <= n,
            out@ == snake_prefix(debug@, i as int),
        decreases n - i,
    {
        let c = debug.get_char(i);
        if is_uppercase(c) && i != 0 {
            push_char(&mut out, '_');
        }
        push_char(&mut out, ascii_lower_char(c));
        i = i + 1;
        assert(out@ =~= snake_prefix(debug@, i as int));
    }
    out
}

/// Which armor equipment slot an item belongs to.
#[derive(Debug, Clone, Copy, PartialEq, Eq, Structural)]
pub enum ArmorSlot {
    Helmet,
    Chestplate,
    Leggings,
    Boots,
}

/// The foods the bot eats.
pub open spec fn is_food_name(n: Seq<char>) -> bool {
    n == "apple"@
    || n == "bread"@
    || n == "carrot"@
    || n == "baked_potato"@
    || n == "beetroot_soup"@
    || n == "mushroom_stew"@
    || n == "rabbit_stew"@
    || n == "cooked_beef"@
    || n == "cooked_porkchop"@
    || n == "cooked_chicken"@
    || n == "cooked_mutton"@
    || n == "cooked_rabbit"@
    || n == "cooked_cod"@
    || n == "cooked_salmon"@
    || n == "melon_slice"@
    || n == "sweet_berries"@
    || n == "glow_berries"@
    || n == "cookie"@
    || n == "pumpkin_pie"@
    || n == "dried_kelp"@
    || n == "golden_carrot"@
    || n == "golden_apple"@
    || n == "enchanted_golden_apple"@
}

/// The edible items of the game the bot eats, listed one by one.
pub open spec fn edible_items() -> Seq<Seq<char>> {
    seq![
        "apple"@,
        "bread"@,
        "carrot"@,
        "baked_potato"@,
        "beetroot_soup"@,
        "mushroom_stew"@,
        "rabbit_stew"@,
        "cooked_beef"@,
        "cooked_porkchop"@,
        "cooked_chicken"@,
        "cooked_mutton"@,
        "cooked_rabbit"@,
        "cooked_cod"@,
        "cooked_salmon"@,
        "melon_slice"@,
        "sweet_berries"@,
        "glow_berries"@,
        "cookie"@,
        "pumpkin_pie"@,
        "dried_kelp"@,
        "golden_carrot"@,
        "golden_apple"@,
        "enchanted_golden_apple"@,
    ]
}

/// Law: the bot eats exactly the listed edible items: each of them counts as
/// food, and nothing else does.
pub proof fn lemma_food_is_the_edible_list(n: Seq<char>)
    ensures
        is_food_name(n) <==> edible_items().contains(n),
{
    assert(edible_items().len() == 23);
    if edible_items().contains(n) {
        let i = choose|i: int| 0 <= i < edible_items().len() && edible_items()[i] == n;
        assert(edible_items()[0] == "apple"@);
        assert(edible_items()[1] == "bread"@);
        assert(edible_items()[2] == "carrot"@);
        assert(edible_items()[3] == "baked_potato"@);
        assert(edible_items()[4] == "beetroot_soup"@);
        assert(edible_items()[5] == "mushroom_stew"@);
        assert(edible_items()[6] == "rabbit_stew"@);
        assert(edible_items()[7] == "cooked_beef"@);
        assert(edible_items()[8] == "cooked_porkchop"@);
        assert(edible_items()[9] == "cooked_chicken"@);
        assert(edible_items()[10] == "cooked_mutton"@);
        assert(edible_items()[11] == "cooked_rabbit"@);
        assert(edible_items()[12] == "cooked_cod"@);
        assert(edible_items()[13] == "cooked_salmon"@);
        assert(edible_items()[14] == "melon_slice"@);
        assert(edible_items()[15] == "sweet_berries"@);
        assert(edible_items()[16] == "glow_berries"@);
        assert(edible_items()[17] == "cookie"@);
        assert(edible_items()[18] == "pumpkin_pie"@);
        assert(edible_items()[19] == "dried_kelp"@);
        assert(edible_items()[20] == "golden_carrot"@);
        assert(edible_items()[21] == "golden_apple"@);
        assert(edible_items()[22] == "enchanted_golden_apple"@);
    }
    if is_food_name(n) {
        if n == "apple"@ { assert(edible_items()[0] == n); }
        if n == "bread"@ { assert(edible_items()[1] == n); }
        if n == "carrot"@ { assert(edible_items()[2] == n); }
        if n == "baked_potato"@ { assert(edible_items()[3] == n); }
        if n == "beetroot_soup"@ { assert(edible_items()[4] == n); }
        if n == "mushroom_stew"@ { assert(edible_items()[5] == n); }
        if n == "rabbit_stew"@ { assert(edible_items()[6] == n); }
        if n == "cooked_beef"@ { assert(edible_items()[7] == n); }
        if n == "cooked_porkchop"@ { assert(edible_items()[8] == n); }
        if n == "cooked_chicken"@ { assert(edible_items()[9] == n); }
        if n == "cooked_mutton"@ { assert(edible_items()[10] == n); }
        if n == "cooked_rabbit"@ { assert(edible_items()[11] == n); }
        if n == "cooked_cod"@ { assert(edible_items()[12] == n); }
        if n == "cooked_salmon"@ { assert(edible_items()[13] == n); }
        if n == "melon_slice"@ { assert(edible_items()[14] == n); }
        if n == "sweet_berries"@ { assert(edible_items()[15] == n); }
        if n == "glow_berries"@ { assert(edible_items()[16] == n); }
        if n == "cookie"@ { assert(edible_items()[17] == n); }
        if n == "pumpkin_pie"@ { assert(edible_items()[18] == n); }
        if n == "dried_kelp"@ { assert(edible_items()[19] == n); }
        if n == "golden_carrot"@ { assert(edible_items()[20] == n); }
        if n == "golden_apple"@ { assert(edible_items()[21] == n); }
        if n == "enchanted_golden_apple"@ { assert(edible_items()[22] == n); }
    }
}

/// Whether an item is a food the bot eats.
pub fn is_food(name: &str) -> (r: bool)
    ensures
        r == is_food_name(name@),
{
    same_text(name, "apple")
    || same_text(name, "bread")
    || same_text(name, "carrot")
    || same_text(name, "baked_potato")
    || same_text(name, "beetroot_soup")
    || same_text(name, "mushroom_stew")
    || same_text(name, "rabbit_stew")
    || same_text(name, "cooked_beef")
    || same_text(name, "cooked_porkchop")
    || same_text(name, "cooked_chicken")
    || same_text(name, "cooked_mutton")
    || same_text(name, "cooked_rabbit")
    || same_text(name, "cooked_cod")
    || same_text(name, "cooked_salmon")
    || same_text(name, "melon_slice")
    || same_text(name, "sweet_berries")
    || same_text(name, "glow_berries")
    || same_text(name, "cookie")
    || same_text(name, "pumpkin_pie")
    || same_text(name, "dried_kelp")
    || same_text(name, "golden_carrot")
    || same_text(name, "golden_apple")
    || same_text(name, "enchanted_golden_apple")
}

/// The quality of a sword: wooden 1, golden 2, stone 3, iron 4, diamond 5, netherite 6.
pub open spec fn sword_rank_of(n: Seq<char>) -> Option<u8> {
    if n == "wooden_sword"@ {
        Some(1u8)
    } else
    if n == "golden_sword"@ {
        Some(2u8)
    } else
    if n == "stone_sword"@ {
        Some(3u8)
    } else
    if n == "iron_sword"@ {
        Some(4u8)
    } else
    if n == "diamond_sword"@ {
        Some(5u8)
    } else
    if n == "netherite_sword"@ {
        Some(6u8)
    } else {
        None
    }
}

/// The quality rank of a sword, `None` for anything else.
pub fn sword_rank(name: &str) -> (r: Option<u8>)
    ensures
        r == sword_rank_of(name@),
{
    if same_text(name, "wooden_sword") {
        Some(1)
    } else
    if same_text(name, "golden_sword") {
        Some(2)
    } else
    if same_text(name, "stone_sword") {
        Some(3)
    } else
    if same_text(name, "iron_sword") {
        Some(4)
    } else
    if same_text(name, "diamond_sword") {
        Some(5)
    } else
    if same_text(name, "netherite_sword") {
        Some(6)
    } else {
        None
    }
}

/// The quality of a pickaxe, ranked as swords are.
pub open spec fn pickaxe_rank_of(n: Seq<char>) -> Option<u8> {
    if n == "wooden_pickaxe"@ {
        Some(1u8)
    } else
    if n == "golden_pickaxe"@ {
        Some(2u8)
    } else
    if n == "stone_pickaxe"@ {
        Some(3u8)
    } else
    if n == "iron_pickaxe"@ {
        Some(4u8)
    } else
    if n == "diamond_pickaxe"@ {
        Some(5u8)
    } else
    if n == "netherite_pickaxe"@ {
        Some(6u8)
    } else {
        None
    }
}

/// The quality rank of a pickaxe, `None` for anything else.
pub fn pickaxe_rank(name: &str) -> (r: Option<u8>)
    ensures
        r == pickaxe_rank_of(name@),
{
    if same_text(name, "wooden_pickaxe") {
        Some(1)
    } else
    if same_text(name, "golden_pickaxe") {
        Some(2)
    } else
    if same_text(name, "stone_pickaxe") {
        Some(3)
    } else
    if same_text(name, "iron_pickaxe") {
        Some(4)
    } else
    if same_text(name, "diamond_pickaxe") {
        Some(5)
    } else
    if same_text(name, "netherite_pickaxe") {
        Some(6)
    } else {
        None
    }
}

/// The quality of an axe, ranked as swords are.
pub open spec fn axe_rank_of(n: Seq<char>) -> Option<u8> {
    if n == "wooden_axe"@ {
        Some(1u8)
    } else
    if n == "golden_axe"@ {
        Some(2u8)
    } else
    if n == "stone_axe"@ {
        Some(3u8)
    } else
    if n == "iron_axe"@ {
        Some(4u8)
    } else
    if n == "diamond_axe"@ {
        Some(5u8)
    } else
    if n == "netherite_axe"@ {
        Some(6u8)
    } else {
        None
    }
}

/// The quality rank of an axe, `None` for anything else.
pub fn axe_rank(name: &str) -> (r: Option<u8>)
    ensures
        r == axe_rank_of(name@),
{
    if same_text(name, "wooden_axe") {
        Some(1)
    } else
    if same_text(name, "golden_axe") {
        Some(2)
    } else
    if same_text(name, "stone_axe") {
        Some(3)
    } else
    if same_text(name, "iron_axe") {
        Some(4)
    } else
    if same_text(name, "diamond_axe") {
        Some(5)
    } else
    if same_text(name, "netherite_axe") {
        Some(6)
    } else {
        None
    }
}

/// The quality of a shovel, ranked as swords are.
pub open spec fn shovel_rank_of(n: Seq<char>) -> Option<u8> {
    if n == "wooden_shovel"@ {
        Some(1u8)
    } else
    if n == "golden_shovel"@ {
        Some(2u8)
    } else
    if n == "stone_shovel"@ {
        Some(3u8)
    } else
    if n == "iron_shovel"@ {
        Some(4u8)
    } else
    if n == "diamond_shovel"@ {
        Some(5u8)
    } else
    if n == "netherite_shovel"@ {
        Some(6u8)
    } else {
        None
    }
}

/// The quality rank of a shovel, `None` for anything else.
pub fn shovel_rank(name: &str) -> (r: Option<u8>)
    ensures
        r == shovel_rank_of(name@),
{
    if same_text(name, "wooden_shovel") {
        Some(1)
    } else
    if same_text(name, "golden_shovel") {
        Some(2)
    } else
    if same_text(name, "stone_shovel") {
        Some(3)
    } else
    if same_text(name, "iron_shovel") {
        Some(4)
    } else
    if same_text(name, "diamond_shovel") {
        Some(5)
    } else
    if same_text(name, "netherite_shovel") {
        Some(6)
    } else {
        None
    }
}

/// The armor slot an item is worn in and its quality rank (higher is
/// better): leather 1, golden 2, chainmail 3, iron 4, diamond 5, netherite 6,
/// and the turtle shell counts as iron.
pub open spec fn armor_of(n: Seq<char>) -> Option<(ArmorSlot, u8)> {
    if n == "leather_helmet"@ {
        Some((ArmorSlot::Helmet, 1u8))
    } else
    if n == "leather_chestplate"@ {
        Some((ArmorSlot::Chestplate, 1u8))
    } else
    if n == "leather_leggings"@ {
        Some((ArmorSlot::Leggings, 1u8))
    } else
    if n == "leather_boots"@ {
        Some((ArmorSlot::Boots, 1u8))
    } else
    if n == "golden_helmet"@ {
        Some((ArmorSlot::Helmet, 2u8))
    } else
    if n == "golden_chestplate"@ {
        Some((ArmorSlot::Chestplate, 2u8))
    } else
    if n == "golden_leggings"@ {
        Some((ArmorSlot::Leggings, 2u8))
    } else
    if n == "golden_boots"@ {
        Some((ArmorSlot::Boots, 2u8))
    } else
    if n == "chainmail_helmet"@ {
        Some((ArmorSlot::Helmet, 3u8))
    } else
    if n == "chainmail_chestplate"@ {
        Some((ArmorSlot::Chestplate, 3u8))
    } else
    if n == "chainmail_leggings"@ {
        Some((ArmorSlot::Leggings, 3u8))
    } else
    if n == "chainmail_boots"@ {
        Some((ArmorSlot::Boots, 3u8))
    } else
    if n == "iron_helmet"@ {
        Some((ArmorSlot::Helmet, 4u8))
    } else
    if n == "iron_chestplate"@ {
        Some((ArmorSlot::Chestplate, 4u8))
    } else
    if n == "iron_leggings"@ {
        Some((ArmorSlot::Leggings, 4u8))
    } else
    if n == "iron_boots"@ {
        Some((ArmorSlot::Boots, 4u8))
    } else
    if n == "diamond_helmet"@ {
        Some((ArmorSlot::Helmet, 5u8))
    } else
    if n == "diamond_chestplate"@ {
        Some((ArmorSlot::Chestplate, 5u8))
    } else
    if n == "diamond_leggings"@ {
        Some((ArmorSlot::Leggings, 5u8))
    } else
    if n == "diamond_boots"@ {
        Some((ArmorSlot::Boots, 5u8))
    } else
    if n == "netherite_helmet"@ {
        Some((ArmorSlot::Helmet, 6u8))
    } else
    if n == "netherite_chestplate"@ {
        Some((ArmorSlot::Chestplate, 6u8))
    } else
    if n == "netherite_leggings"@ {
        Some((ArmorSlot::Leggings, 6u8))
    } else
    if n == "netherite_boots"@ {
        Some((ArmorSlot::Boots, 6u8))
    } else
    if n == "turtle_helmet"@ {
        Some((ArmorSlot::Helmet, 4u8))
    } else {
        None
    }
}

/// Returns the armor slot and a quality rank (higher = better) for an item.
pub fn armor_info(name: &str) -> (r: Option<(ArmorSlot, u8)>)
    ensures
        r == armor_of(name@),
{
    if same_text(name, "leather_helmet") {
        Some((ArmorSlot::Helmet, 1))
    } else
    if same_text(name, "leather_chestplate") {
        Some((ArmorSlot::Chestplate, 1))
    } else
    if same_text(name, "leather_leggings") {
        Some((ArmorSlot::Leggings, 1))
    } else
    if same_text(name, "leather_boots") {
        Some((ArmorSlot::Boots, 1))
    } else
    if same_text(name, "golden_helmet") {
        Some((ArmorSlot::Helmet, 2))
    } else
    if same_text(name, "golden_chestplate") {
        Some((ArmorSlot::Chestplate, 2))
    } else
    if same_text(name, "golden_leggings") {
        Some((ArmorSlot::Leggings, 2))
    } else
    if same_text(name, "golden_boots") {
        Some((ArmorSlot::Boots, 2))
    } else
    if same_text(name, "chainmail_helmet") {
        Some((ArmorSlot::Helmet, 3))
    } else
    if same_text(name, "chainmail_chestplate") {
        Some((ArmorSlot::Chestplate, 3))
    } else
    if same_text(name, "chainmail_leggings") {
        Some((ArmorSlot::Leggings, 3))
    } else
    if same_text(name, "chainmail_boots") {
        Some((ArmorSlot::Boots, 3))
    } else
    if same_text(name, "iron_helmet") {
        Some((ArmorSlot::Helmet, 4))
    } else
    if same_text(name, "iron_chestplate") {
        Some((ArmorSlot::Chestplate, 4))
    } else
    if same_text(name, "iron_leggings") {
        Some((ArmorSlot::Leggings, 4))
    } else
    if same_text(name, "iron_boots") {
        Some((ArmorSlot::Boots, 4))
    } else
    if same_text(name, "diamond_helmet") {
        Some((ArmorSlot::Helmet, 5))
    } else
    if same_text(name, "diamond_chestplate") {
        Some((ArmorSlot::Chestplate, 5))
    } else
    if same_text(name, "diamond_leggings") {
        Some((ArmorSlot::Leggings, 5))
    } else
    if same_text(name, "diamond_boots") {
        Some((ArmorSlot::Boots, 5))
    } else
    if same_text(name, "netherite_helmet") {
        Some((ArmorSlot::Helmet, 6))
    } else
    if same_text(name, "netherite_chestplate") {
        Some((ArmorSlot::Chestplate, 6))
    } else
    if same_text(name, "netherite_leggings") {
        Some((ArmorSlot::Leggings, 6))
    } else
    if same_text(name, "netherite_boots") {
        Some((ArmorSlot::Boots, 6))
    } else
    if same_text(name, "turtle_helmet") {
        Some((ArmorSlot::Helmet, 4))
    } else {
        None
    }
}

/// Gear a player never throws away besides the tool families.
pub open spec fn is_special_gear_name(n: Seq<char>) -> bool {
    n == "bow"@
    || n == "crossbow"@
    || n == "trident"@
    || n == "mace"@
    || n == "shield"@
    || n == "elytra"@
    || n == "fishing_rod"@
    || n == "shears"@
    || n == "flint_and_steel"@
    || n == "brush"@
    || n == "spyglass"@
    || n == "bucket"@
    || n == "water_bucket"@
    || n == "lava_bucket"@
    || n == "compass"@
    || n == "clock"@
    || n == "name_tag"@
    || n == "lead"@
}

/// Any held tool or weapon (sword, axe, pickaxe, shovel, hoe) plus the special
/// gear a player never throws away.
pub open spec fn is_tool_name(n: Seq<char>) -> bool {
    ends_with(n, "_sword"@)
    || ends_with(n, "_axe"@)
    || ends_with(n, "_pickaxe"@)
    || ends_with(n, "_shovel"@)
    || ends_with(n, "_hoe"@)
    || is_special_gear_name(n)
}

fn is_special_gear(name: &str) -> (r: bool)
    ensures
        r == is_special_gear_name(name@),
{
    same_text(name, "bow")
    || same_text(name, "crossbow")
    || same_text(name, "trident")
    || same_text(name, "mace")
    || same_text(name, "shield")
    || same_text(name, "elytra")
    || same_text(name, "fishing_rod")
    || same_text(name, "shears")
    || same_text(name, "flint_and_steel")
    || same_text(name, "brush")
    || same_text(name, "spyglass")
    || same_text(name, "bucket")
    || same_text(name, "water_bucket")
    || same_text(name, "lava_bucket")
    || same_text(name, "compass")
    || same_text(name, "clock")
    || same_text(name, "name_tag")
    || same_text(name, "lead")
}

/// Any held tool or weapon (sword, axe, pickaxe, shovel, hoe) plus the special
/// gear a player never throws away (bow, crossbow, trident, mace, shield,
/// elytra, fishing rod, shears, flint and steel, brush, spyglass, buckets,
/// compass, clock, name tag, lead).
pub fn is_tool(name: &str) -> (r: bool)
    ensures
        r == is_tool_name(name@),
{
    text_ends_with(name, "_sword")
    || text_ends_with(name, "_axe")
    || text_ends_with(name, "_pickaxe")
    || text_ends_with(name, "_shovel")
    || text_ends_with(name, "_hoe")
    || is_special_gear(name)
}

/// Rare materials named one by one.
pub open spec fn is_rare_name(n: Seq<char>) -> bool {
    n == "diamond"@
    || n == "emerald"@
    || n == "lapis_lazuli"@
    || n == "amethyst_shard"@
    || n == "netherite_scrap"@
    || n == "ancient_debris"@
    || n == "raw_iron"@
    || n == "raw_gold"@
    || n == "raw_copper"@
    || n == "enchanted_book"@
    || n == "experience_bottle"@
    || n == "ender_pearl"@
    || n == "ender_eye"@
    || n == "nether_star"@
    || n == "beacon"@
    || n == "totem_of_undying"@
    || n == "golden_apple"@
    || n == "enchanted_golden_apple"@
    || n == "elytra"@
    || n == "heart_of_the_sea"@
    || n == "nautilus_shell"@
    || n == "echo_shard"@
    || n == "dragon_egg"@
    || n == "shulker_box"@
}

/// Materials and rares the bot must never throw away or deposit.
pub open spec fn is_valuable_name(n: Seq<char>) -> bool {
    ends_with(n, "_ingot"@)
    || ends_with(n, "_shulker_box"@)
    || ends_with(n, "_smithing_template"@)
    || ends_with(n, "_upgrade_smithing_template"@)
    || is_rare_name(n)
}

fn is_rare(name: &str) -> (r: bool)
    ensures
        r == is_rare_name(name@),
{
    same_text(name, "diamond")
    || same_text(name, "emerald")
    || same_text(name, "lapis_lazuli")
    || same_text(name, "amethyst_shard")
    || same_text(name, "netherite_scrap")
    || same_text(name, "ancient_debris")
    || same_text(name, "raw_iron")
    || same_text(name, "raw_gold")
    || same_text(name, "raw_copper")
    || same_text(name, "enchanted_book")
    || same_text(name, "experience_bottle")
    || same_text(name, "ender_pearl")
    || same_text(name, "ender_eye")
    || same_text(name, "nether_star")
    || same_text(name, "beacon")
    || same_text(name, "totem_of_undying")
    || same_text(name, "golden_apple")
    || same_text(name, "enchanted_golden_apple")
    || same_text(name, "elytra")
    || same_text(name, "heart_of_the_sea")
    || same_text(name, "nautilus_shell")
    || same_text(name, "echo_shard")
    || same_text(name, "dragon_egg")
    || same_text(name, "shulker_box")
}

/// Materials and rares the bot must never throw away or deposit as "trash":
/// ingots and gems, netherite, enchanted books and smithing templates, pearls,
/// shulker boxes (plain and dyed), beacons, nether stars, XP bottles, golden/enchanted apples.
pub fn is_valuable(name: &str) -> (r: bool)
    ensures
        r == is_valuable_name(name@),
{
    text_ends_with(name, "_ingot")
    || text_ends_with(name, "_shulker_box")
    || text_ends_with(name, "_smithing_template")
    || text_ends_with(name, "_upgrade_smithing_template")
    || is_rare(name)
}

/// Blocks named one by one.
pub open spec fn is_plain_block_name(n: Seq<char>) -> bool {
    n == "stone"@
    || n == "cobblestone"@
    || n == "dirt"@
    || n == "grass_block"@
    || n == "sand"@
    || n == "gravel"@
    || n == "netherrack"@
    || n == "obsidian"@
    || n == "deepslate"@
    || n == "bricks"@
    || n == "glass"@
    || n == "torch"@
}

/// Heuristic block detection by registry name.
pub open spec fn is_block_name(n: Seq<char>) -> bool {
    ends_with(n, "_block"@)
    || ends_with(n, "_planks"@)
    || ends_with(n, "_log"@)
    || ends_with(n, "_stairs"@)
    || ends_with(n, "_slab"@)
    || ends_with(n, "_wall"@)
    || ends_with(n, "_fence"@)
    || ends_with(n, "_concrete"@)
    || ends_with(n, "_terracotta"@)
    || ends_with(n, "_wool"@)
    || ends_with(n, "_glass"@)
    || is_plain_block_name(n)
}

fn is_plain_block(name: &str) -> (r: bool)
    ensures
        r == is_plain_block_name(name@),
{
    same_text(name, "stone")
    || same_text(name, "cobblestone")
    || same_text(name, "dirt")
    || same_text(name, "grass_block")
    || same_text(name, "sand")
    || same_text(name, "gravel")
    || same_text(name, "netherrack")
    || same_text(name, "obsidian")
    || same_text(name, "deepslate")
    || same_text(name, "bricks")
    || same_text(name, "glass")
    || same_text(name, "torch")
}

/// Heuristic block detection: any item whose registry name ends in a common
/// block suffix, plus a handful of bare-name blocks.
pub fn is_block(name: &str) -> (r: bool)
    ensures
        r == is_block_name(name@),
{
    text_ends_with(name, "_block")
    || text_ends_with(name, "_planks")
    || text_ends_with(name, "_log")
    || text_ends_with(name, "_stairs")
    || text_ends_with(name, "_slab")
    || text_ends_with(name, "_wall")
    || text_ends_with(name, "_fence")
    || text_ends_with(name, "_concrete")
    || text_ends_with(name, "_terracotta")
    || text_ends_with(name, "_wool")
    || text_ends_with(name, "_glass")
    || is_plain_block(name)
}

/// The hostile mobs the bot fights.
pub open spec fn is_hostile_name(n: Seq<char>) -> bool {
    n == "zombie"@
    || n == "zombie_villager"@
    || n == "husk"@
    || n == "drowned"@
    || n == "skeleton"@
    || n == "stray"@
    || n == "bogged"@
    || n == "wither_skeleton"@
    || n == "creeper"@
    || n == "spider"@
    || n == "cave_spider"@
    || n == "slime"@
    || n == "magma_cube"@
    || n == "witch"@
    || n == "pillager"@
    || n == "vindicator"@
    || n == "ravager"@
    || n == "evoker"@
    || n == "vex"@
    || n == "blaze"@
    || n == "phantom"@
    || n == "silverfish"@
    || n == "endermite"@
    || n == "hoglin"@
    || n == "zoglin"@
    || n == "piglin_brute"@
    || n == "guardian"@
    || n == "elder_guardian"@
    || n == "shulker"@
    || n == "breeze"@
}

/// Whether an entity (by its registry name) is a hostile mob.
pub fn is_hostile(name: &str) -> (r: bool)
    ensures
        r == is_hostile_name(name@),
{
    same_text(name, "zombie")
    || same_text(name, "zombie_villager")
    || same_text(name, "husk")
    || same_text(name, "drowned")
    || same_text(name, "skeleton")
    || same_text(name, "stray")
    || same_text(name, "bogged")
    || same_text(name, "wither_skeleton")
    || same_text(name, "creeper")
    || same_text(name, "spider")
    || same_text(name, "cave_spider")
    || same_text(name, "slime")
    || same_text(name, "magma_cube")
    || same_text(name, "witch")
    || same_text(name, "pillager")
    || same_text(name, "vindicator")
    || same_text(name, "ravager")
    || same_text(name, "evoker")
    || same_text(name, "vex")
    || same_text(name, "blaze")
    || same_text(name, "phantom")
    || same_text(name, "silverfish")
    || same_text(name, "endermite")
    || same_text(name, "hoglin")
    || same_text(name, "zoglin")
    || same_text(name, "piglin_brute")
    || same_text(name, "guardian")
    || same_text(name, "elder_guardian")
    || same_text(name, "shulker")
    || same_text(name, "breeze")
}

/// Blocks best broken with an axe.
pub open spec fn wants_axe(block: Seq<char>) -> bool {
    ends_with(block, "_log"@)
    || ends_with(block, "_wood"@)
    || ends_with(block, "_planks"@)
    || ends_with(block, "_stem"@)
    || ends_with(block, "_hyphae"@)
    || contains_text(block, "chest"@)
    || block == "crafting_table"@
    || block == "bookshelf"@
    || block == "pumpkin"@
    || block == "melon"@
}

/// Blocks best broken with a shovel.
pub open spec fn wants_shovel(block: Seq<char>) -> bool {
    block == "dirt"@
    || block == "grass_block"@
    || block == "podzol"@
    || block == "mycelium"@
    || block == "coarse_dirt"@
    || block == "rooted_dirt"@
    || block == "sand"@
    || block == "red_sand"@
    || block == "gravel"@
    || block == "clay"@
    || block == "soul_sand"@
    || block == "soul_soil"@
    || block == "snow"@
    || block == "snow_block"@
    || ends_with(block, "_snow"@)
}

fn axe_block(block: &str) -> (r: bool)
    ensures
        r == wants_axe(block@),
{
    text_ends_with(block, "_log")
    || text_ends_with(block, "_wood")
    || text_ends_with(block, "_planks")
    || text_ends_with(block, "_stem")
    || text_ends_with(block, "_hyphae")
    || text_contains(block, "chest")
    || same_text(block, "crafting_table")
    || same_text(block, "bookshelf")
    || same_text(block, "pumpkin")
    || same_text(block, "melon")
}

fn shovel_block(block: &str) -> (r: bool)
    ensures
        r == wants_shovel(block@),
{
    same_text(block, "dirt")
    || same_text(block, "grass_block")
    || same_text(block, "podzol")
    || same_text(block, "mycelium")
    || same_text(block, "coarse_dirt")
    || same_text(block, "rooted_dirt")
    || same_text(block, "sand")
    || same_text(block, "red_sand")
    || same_text(block, "gravel")
    || same_text(block, "clay")
    || same_text(block, "soul_sand")
    || same_text(block, "soul_soil")
    || same_text(block, "snow")
    || same_text(block, "snow_block")
    || text_ends_with(block, "_snow")
}

/// Whether an item is the shield.
pub fn is_shield(name: &str) -> (r: bool)
    ensures
        r == (name@ == "shield"@),
{
    same_text(name, "shield")
}

/// Whether an item is a Totem of Undying.
pub fn is_totem(name: &str) -> (r: bool)
    ensures
        r == (name@ == "totem_of_undying"@),
{
    same_text(name, "totem_of_undying")
}

/// Whether an item is a water bucket.
pub fn is_water_bucket(name: &str) -> (r: bool)
    ensures
        r == (name@ == "water_bucket"@),
{
    same_text(name, "water_bucket")
}

/// Whether an item is an empty bucket.
pub fn is_empty_bucket(name: &str) -> (r: bool)
    ensures
        r == (name@ == "bucket"@),
{
    same_text(name, "bucket")
}

/// Something the bot must never drop or deposit: food, every tool and weapon,
/// armor, totems, placeable blocks, and valuables.
pub open spec fn is_keep_name(n: Seq<char>) -> bool {
    is_food_name(n) || is_tool_name(n) || armor_of(n) is Some || n == "totem_of_undying"@
        || is_block_name(n) || is_valuable_name(n)
}

/// A "keep" item is something the bot must never drop or deposit: food, every
/// tool/weapon, armor, totems, placeable blocks, and valuables. Anything not
/// covered here is treated as trash.
pub fn is_keep(name: &str) -> (r: bool)
    ensures
        r == is_keep_name(name@),
{
    is_food(name) || is_tool(name) || armor_info(name).is_some() || is_totem(name) || is_block(
        name,
    ) || is_valuable(name)
}

/// The inverse of `is_keep`: trash that can be dropped or deposited.
pub fn is_trash(name: &str) -> (r: bool)
    ensures
        r == !is_keep_name(name@),
{
    !is_keep(name)
}

// --- Player menu absolute slot indices (Player menu layout) ---
pub const PLAYER_ARMOR_HELMET: usize = 5;
pub const PLAYER_ARMOR_CHESTPLATE: usize = 6;
pub const PLAYER_ARMOR_LEGGINGS: usize = 7;
pub const PLAYER_ARMOR_BOOTS: usize = 8;
pub const PLAYER_OFFHAND: usize = 45;
/// Inclusive range of the player's main inventory + hotbar storage slots.
pub const PLAYER_STORAGE_START: usize = 9;
pub const PLAYER_STORAGE_END: usize = 44;
/// The first hotbar slot; hotbar slot `h` (0..9) is menu slot `HOTBAR_START + h`.
pub const HOTBAR_START: usize = 36;

/// The menu slot an armor piece is worn in.
pub open spec fn armor_slot_index(slot: ArmorSlot) -> usize {
    match slot {
        ArmorSlot::Helmet => PLAYER_ARMOR_HELMET,
        ArmorSlot::Chestplate => PLAYER_ARMOR_CHESTPLATE,
        ArmorSlot::Leggings => PLAYER_ARMOR_LEGGINGS,
        ArmorSlot::Boots => PLAYER_ARMOR_BOOTS,
    }
}

/// The menu slot an armor piece is worn in.
pub fn armor_target_slot(slot: ArmorSlot) -> (r: usize)
    ensures
        r == armor_slot_index(slot),
{
    match slot {
        ArmorSlot::Helmet => PLAYER_ARMOR_HELMET,
        ArmorSlot::Chestplate => PLAYER_ARMOR_CHESTPLATE,
        ArmorSlot::Leggings => PLAYER_ARMOR_LEGGINGS,
        ArmorSlot::Boots => PLAYER_ARMOR_BOOTS,
    }
}

/// The item in slot `i` of a menu: nothing when the slot is empty or the menu
/// has no such slot.
pub open spec fn slot_item(slots: Seq<Option<String>>, i: int) -> Option<Seq<char>> {
    if 0 <= i < slots.len() {
        opt_text(slots[i])
    } else {
        None
    }
}

/// The item in slot `i` of a menu.
pub fn item_at(slots: &Vec<Option<String>>, i: usize) -> (r: Option<&str>)
    ensures
        match r {
            Some(s) => slot_item(slots@, i as int) == Some(s@),
            None => slot_item(slots@, i as int) is None,
        },
{
    if i < slots.len() {
        match &slots[i] {
            Some(s) => Some(s.as_str()),
            None => None,
        }
    } else {
        None
    }
}

/// The kinds of items the bot looks for in its inventory.
#[derive(Debug, Clone, Copy, PartialEq, Eq, Structural)]
pub enum ItemClass {
    Food,
    Totem,
    Shield,
    WaterBucket,
    EmptyBucket,
}

/// Whether the item `n` is of the kind `c`.
pub open spec fn in_class(c: ItemClass, n: Seq<char>) -> bool {
    match c {
        ItemClass::Food => is_food_name(n),
        ItemClass::Totem => n == "totem_of_undying"@,
        ItemClass::Shield => n == "shield"@,
        ItemClass::WaterBucket => n == "water_bucket"@,
        ItemClass::EmptyBucket => n == "bucket"@,
    }
}

/// Whether slot `i` holds an item of the kind `c`.
pub open spec fn slot_in_class(slots: Seq<Option<String>>, i: int, c: ItemClass) -> bool {
    match slot_item(slots, i) {
        Some(n) => in_class(c, n),
        None => false,
    }
}

/// Whether hotbar slot `h` holds an item of the kind `c`.
pub open spec fn hotbar_in_class(slots: Seq<Option<String>>, h: int, c: ItemClass) -> bool {
    slot_in_class(slots, HOTBAR_START + h, c)
}

fn is_in_class(c: ItemClass, name: &str) -> (r: bool)
    ensures
        r == in_class(c, name@),
{
    match c {
        ItemClass::Food => is_food(name),
        ItemClass::Totem => is_totem(name),
        ItemClass::Shield => is_shield(name),
        ItemClass::WaterBucket => is_water_bucket(name),
        ItemClass::EmptyBucket => is_empty_bucket(name),
    }
}

fn slot_matches(slots: &Vec<Option<String>>, i: usize, c: ItemClass) -> (r: bool)
    ensures
        r == slot_in_class(slots@, i as int, c),
{
    match item_at(slots, i) {
        Some(name) => is_in_class(c, name),
        None => false,
    }
}

/// Hotbar slot `h` is the first whose item is of the kind `c`.
pub open spec fn is_first_hotbar(slots: Seq<Option<String>>, c: ItemClass, h: int) -> bool {
    0 <= h < 9 && hotbar_in_class(slots, h, c) && forall|j: int|
        0 <= j < h ==> !hotbar_in_class(slots, j, c)
}

/// The first hotbar slot whose item is of the kind `c`, if any.
pub open spec fn first_hotbar_slot(slots: Seq<Option<String>>, c: ItemClass) -> Option<u8> {
    if exists|h: int| is_first_hotbar(slots, c, h) {
        Some((choose|h: int| is_first_hotbar(slots, c, h)) as u8)
    } else {
        None
    }
}

/// Storage slot `i` is the first whose item is of the kind `c`.
pub open spec fn is_first_storage(slots: Seq<Option<String>>, c: ItemClass, i: int) -> bool {
    PLAYER_STORAGE_START <= i <= PLAYER_STORAGE_END && slot_in_class(slots, i, c) && forall|j: int|
        PLAYER_STORAGE_START <= j < i ==> !slot_in_class(slots, j, c)
}

/// The first storage slot whose item is of the kind `c`, if any.
pub open spec fn first_storage_slot(slots: Seq<Option<String>>, c: ItemClass) -> Option<usize> {
    if exists|i: int| is_first_storage(slots, c, i) {
        Some((choose|i: int| is_first_storage(slots, c, i)) as usize)
    } else {
        None
    }
}

/// The first hotbar slot (0..9) whose item is of the kind `c`, if any.
pub fn hotbar_slot(slots: &Vec<Option<String>>, c: ItemClass) -> (r: Option<u8>)
    ensures
        r == first_hotbar_slot(slots@, c),
        match r {
            Some(h) => h < 9 && hotbar_in_class(slots@, h as int, c) && forall|j: int|
                0 <= j < h ==> !hotbar_in_class(slots@, j, c),
            None => forall|j: int| 0 <= j < 9 ==> !hotbar_in_class(slots@, j, c),
        },
{
    let mut h: u8 = 0;
    while h < 9
        invariant
            h <= 9,
            forall|j: int| 0 <= j < h ==> !hotbar_in_class(slots@, j, c),
        decreases 9 - h,
    {
        if slot_matches(slots, HOTBAR_START + h as usize, c) {
            proof {
                let x = choose|x: int| is_first_hotbar(slots@, c, x);
                assert(is_first_hotbar(slots@, c, h as int));
                if x < h {
                    assert(!hotbar_in_class(slots@, x, c));
                }
                if x > h {
                    assert(!hotbar_in_class(slots@, h as int, c));
                }
            }
            return Some(h);
        }
        h = h + 1;
    }
    None
}

/// The first hotbar slot holding food.
pub fn food_slot(slots: &Vec<Option<String>>) -> (r: Option<u8>)
    ensures
        r == first_hotbar_slot(slots@, ItemClass::Food),
        match r {
            Some(h) => h < 9 && hotbar_in_class(slots@, h as int, ItemClass::Food) && forall|
                j: int,
            | 0 <= j < h ==> !hotbar_in_class(slots@, j, ItemClass::Food),
            None => forall|j: int|
                0 <= j < 9 ==> !hotbar_in_class(slots@, j, ItemClass::Food),
        },
{
    hotbar_slot(slots, ItemClass::Food)
}

/// The first storage slot (9..=44) whose item is of the kind `c`, if any.
pub fn find_storage_slot(slots: &Vec<Option<String>>, c: ItemClass) -> (r: Option<usize>)
    ensures
        r == first_storage_slot(slots@, c),
        match r {
            Some(i) => PLAYER_STORAGE_START <= i <= PLAYER_STORAGE_END && slot_in_class(
                slots@,
                i as int,
                c,
            ) && forall|j: int| PLAYER_STORAGE_START <= j < i ==> !slot_in_class(slots@, j, c),
            None => forall|j: int|
                PLAYER_STORAGE_START <= j <= PLAYER_STORAGE_END ==> !slot_in_class(slots@, j, c),
        },
{
    let mut i: usize = PLAYER_STORAGE_START;
    while i <= PLAYER_STORAGE_END
        invariant
            PLAYER_STORAGE_START <= i <= PLAYER_STORAGE_END + 1,
            forall|j: int| PLAYER_STORAGE_START <= j < i ==> !slot_in_class(slots@, j, c),
        decreases PLAYER_STORAGE_END + 1 - i,
    {
        if slot_matches(slots, i, c) {
            proof {
                let x = choose|x: int| is_first_storage(slots@, c, x);
                assert(is_first_storage(slots@, c, i as int));
                if x < i {
                    assert(!slot_in_class(slots@, x, c));
                }
                if x > i {
                    assert(!slot_in_class(slots@, i as int, c));
                }
            }
            return Some(i);
        }
        i = i + 1;
    }
    None
}

/// The item in the offhand, if any.
pub fn offhand_item(slots: &Vec<Option<String>>) -> (r: Option<String>)
    ensures
        opt_text(r) == slot_item(slots@, PLAYER_OFFHAND as int),
{
    match item_at(slots, PLAYER_OFFHAND) {
        Some(s) => Some(String::from_str(s)),
        None => None,
    }
}

/// The armor currently worn in `slot`, if any.
pub fn equipped_armor(slots: &Vec<Option<String>>, slot: ArmorSlot) -> (r: Option<String>)
    ensures
        opt_text(r) == slot_item(slots@, armor_slot_index(slot) as int),
{
    match item_at(slots, armor_target_slot(slot)) {
        Some(s) => Some(String::from_str(s)),
        None => None,
    }
}

/// How the bot ranks items when it picks the best one in its hotbar.
#[derive(Debug, Clone, Copy, PartialEq, Eq, Structural)]
pub enum Ranking {
    Sword,
    Pickaxe,
    Axe,
    Shovel,
    /// Swords and axes: for the same material a sword wins (faster), but a
    /// higher-tier axe beats a lower sword.
    Weapon,
}

/// The rank of the item `n` under `k`, `None` when `k` does not rank it.
pub open spec fn rank_in(k: Ranking, n: Seq<char>) -> Option<u8> {
    match k {
        Ranking::Sword => sword_rank_of(n),
        Ranking::Pickaxe => pickaxe_rank_of(n),
        Ranking::Axe => axe_rank_of(n),
        Ranking::Shovel => shovel_rank_of(n),
        Ranking::Weapon => match sword_rank_of(n) {
            Some(r) => Some((r * 2 + 1) as u8),
            None => match axe_rank_of(n) {
                Some(r) => Some((r * 2) as u8),
                None => None,
            },
        },
    }
}

fn rank_of(k: Ranking, name: &str) -> (r: Option<u8>)
    ensures
        r == rank_in(k, name@),
{
    match k {
        Ranking::Sword => sword_rank(name),
        Ranking::Pickaxe => pickaxe_rank(name),
        Ranking::Axe => axe_rank(name),
        Ranking::Shovel => shovel_rank(name),
        Ranking::Weapon => match sword_rank(name) {
            Some(r) => Some(r * 2 + 1),
            None => match axe_rank(name) {
                Some(r) => Some(r * 2),
                None => None,
            },
        },
    }
}

/// The rank of the item in hotbar slot `h` under `k`.
pub open spec fn hotbar_rank(slots: Seq<Option<String>>, k: Ranking, h: int) -> Option<u8> {
    match slot_item(slots, HOTBAR_START + h) {
        Some(n) => rank_in(k, n),
        None => None,
    }
}

/// Hotbar slot `h` holds the best item under `k`: no slot ranks higher, and
/// every earlier slot ranks lower (the first of equals wins).
pub open spec fn is_best_ranked(slots: Seq<Option<String>>, k: Ranking, h: int) -> bool {
    &&& 0 <= h < 9
    &&& hotbar_rank(slots, k, h) is Some
    &&& forall|j: int|
        #![trigger hotbar_rank(slots, k, j)]
        0 <= j < 9 && hotbar_rank(slots, k, j) is Some ==> hotbar_rank(slots, k, j)->0
            <= hotbar_rank(slots, k, h)->0
    &&& forall|j: int|
        #![trigger hotbar_rank(slots, k, j)]
        0 <= j < h && hotbar_rank(slots, k, j) is Some ==> hotbar_rank(slots, k, j)->0
            < hotbar_rank(slots, k, h)->0
}

/// The best hotbar slot under `k`, if any slot ranks at all.
pub open spec fn best_ranked(slots: Seq<Option<String>>, k: Ranking) -> Option<u8> {
    if exists|h: int| is_best_ranked(slots, k, h) {
        Some((choose|h: int| is_best_ranked(slots, k, h)) as u8)
    } else {
        None
    }
}

/// Only one slot is the best.
pub proof fn lemma_best_ranked_unique(slots: Seq<Option<String>>, k: Ranking, a: int, b: int)
    requires
        is_best_ranked(slots, k, a),
        is_best_ranked(slots, k, b),
    ensures
        a == b,
{
    if a < b {
        assert(hotbar_rank(slots, k, a) is Some);
    }
    if b < a {
        assert(hotbar_rank(slots, k, b) is Some);
    }
}

fn hotbar_rank_at(slots: &Vec<Option<String>>, k: Ranking, h: u8) -> (r: Option<u8>)
    requires
        h < 9,
    ensures
        r == hotbar_rank(slots@, k, h as int),
{
    match item_at(slots, HOTBAR_START + h as usize) {
        Some(name) => rank_of(k, name),
        None => None,
    }
}

/// The best hotbar slot under `k`: the highest rank, the first of equals.
pub fn ranked_hotbar_slot(slots: &Vec<Option<String>>, k: Ranking) -> (r: Option<u8>)
    ensures
        r == best_ranked(slots@, k),
        r is None <==> forall|j: int| 0 <= j < 9 ==> hotbar_rank(slots@, k, j) is None,
{
    let mut best: Option<(u8, u8)> = None;
    let mut h: u8 = 0;
    while h < 9
        invariant
            h <= 9,
            match best {
                None => forall|j: int| 0 <= j < h ==> hotbar_rank(slots@, k, j) is None,
                Some((v, b)) => b < h && hotbar_rank(slots@, k, b as int) == Some(v) && (forall|
                    j: int,
                |
                    #![trigger hotbar_rank(slots@, k, j)]
                    0 <= j < h && hotbar_rank(slots@, k, j) is Some ==> hotbar_rank(slots@, k, j)->0
                        <= v) && (forall|j: int|
                    #![trigger hotbar_rank(slots@, k, j)]
                    0 <= j < b && hotbar_rank(slots@, k, j) is Some ==> hotbar_rank(slots@, k, j)->0
                        < v),
            },
        decreases 9 - h,
    {
        if let Some(value) = hotbar_rank_at(slots, k, h) {
            let better = match best {
                None => true,
                Some((bv, _)) => value > bv,
            };
            if better {
                best = Some((value, h));
            }
        }
        h = h + 1;
    }
    match best {
        None => {
            assert(!exists|x: int| is_best_ranked(slots@, k, x));
            None
        },
        Some((_, b)) => {
            proof {
                assert(is_best_ranked(slots@, k, b as int));
                lemma_best_ranked_unique(
                    slots@,
                    k,
                    b as int,
                    choose|x: int| is_best_ranked(slots@, k, x),
                );
            }
            Some(b)
        },
    }
}

/// The best sword in the hotbar.
pub fn best_sword_slot(slots: &Vec<Option<String>>) -> (r: Option<u8>)
    ensures
        r == best_ranked(slots@, Ranking::Sword),
{
    ranked_hotbar_slot(slots, Ranking::Sword)
}

/// The best pickaxe in the hotbar.
pub fn best_pickaxe_slot(slots: &Vec<Option<String>>) -> (r: Option<u8>)
    ensures
        r == best_ranked(slots@, Ranking::Pickaxe),
{
    ranked_hotbar_slot(slots, Ranking::Pickaxe)
}

/// Best melee weapon in the hotbar: swords and axes both count. For the same
/// material a sword wins (faster), but a higher-tier axe beats a lower sword.
pub fn best_weapon_slot(slots: &Vec<Option<String>>) -> (r: Option<u8>)
    ensures
        r == best_ranked(slots@, Ranking::Weapon),
{
    ranked_hotbar_slot(slots, Ranking::Weapon)
}

/// `a`, or `b` when `a` is `None`.
pub open spec fn or_else(a: Option<u8>, b: Option<u8>) -> Option<u8> {
    match a {
        Some(x) => Some(x),
        None => b,
    }
}

/// The hotbar slot the bot mines the block `block` with.
pub open spec fn tool_slot_for(slots: Seq<Option<String>>, block: Seq<char>) -> Option<u8> {
    if wants_axe(block) {
        or_else(best_ranked(slots, Ranking::Axe), best_ranked(slots, Ranking::Pickaxe))
    } else if wants_shovel(block) {
        or_else(best_ranked(slots, Ranking::Shovel), best_ranked(slots, Ranking::Pickaxe))
    } else {
        best_ranked(slots, Ranking::Pickaxe)
    }
}

/// Best tool in the hotbar for the block whose registry id is `block_id`:
/// axe for wood-like blocks, shovel for dirt/sand/gravel/snow, otherwise the
/// best pickaxe (with a pickaxe fallback so the bot always holds something).
pub fn best_tool_slot_for(slots: &Vec<Option<String>>, block_id: &str) -> (r: Option<u8>)
    ensures
        r == tool_slot_for(slots@, block_id@),
{
    if axe_block(block_id) {
        match ranked_hotbar_slot(slots, Ranking::Axe) {
            Some(h) => Some(h),
            None => best_pickaxe_slot(slots),
        }
    } else if shovel_block(block_id) {
        match ranked_hotbar_slot(slots, Ranking::Shovel) {
            Some(h) => Some(h),
            None => best_pickaxe_slot(slots),
        }
    } else {
        best_pickaxe_slot(slots)
    }
}

/// The rank of the armor for `want` in storage slot `i`, if it is such armor.
pub open spec fn storage_armor_rank(slots: Seq<Option<String>>, want: ArmorSlot, i: int) -> Option<u8> {
    match slot_item(slots, i) {
        Some(n) => match armor_of(n) {
            Some((s, r)) => if s == want {
                Some(r)
            } else {
                None
            },
            None => None,
        },
        None => None,
    }
}

/// Storage slot `i` holds the best armor for `want`: no storage slot ranks
/// higher, and every earlier one ranks lower.
pub open spec fn is_best_armor(slots: Seq<Option<String>>, want: ArmorSlot, i: int) -> bool {
    &&& PLAYER_STORAGE_START <= i <= PLAYER_STORAGE_END
    &&& storage_armor_rank(slots, want, i) is Some
    &&& forall|j: int|
        #![trigger storage_armor_rank(slots, want, j)]
        PLAYER_STORAGE_START <= j <= PLAYER_STORAGE_END && storage_armor_rank(slots, want, j) is Some
            ==> storage_armor_rank(slots, want, j)->0 <= storage_armor_rank(slots, want, i)->0
    &&& forall|j: int|
        #![trigger storage_armor_rank(slots, want, j)]
        PLAYER_STORAGE_START <= j < i && storage_armor_rank(slots, want, j) is Some
            ==> storage_armor_rank(slots, want, j)->0 < storage_armor_rank(slots, want, i)->0
}

/// The best armor for `want` in storage, as (slot, rank), if there is any.
pub open spec fn best_armor(slots: Seq<Option<String>>, want: ArmorSlot) -> Option<(usize, u8)> {
    if exists|i: int| is_best_armor(slots, want, i) {
        let i = choose|i: int| is_best_armor(slots, want, i);
        Some((i as usize, storage_armor_rank(slots, want, i)->0))
    } else {
        None
    }
}

/// Only one slot holds the best armor.
pub proof fn lemma_best_armor_unique(slots: Seq<Option<String>>, want: ArmorSlot, a: int, b: int)
    requires
        is_best_armor(slots, want, a),
        is_best_armor(slots, want, b),
    ensures
        a == b,
{
    if a < b {
        assert(storage_armor_rank(slots, want, a) is Some);
    }
    if b < a {
        assert(storage_armor_rank(slots, want, b) is Some);
    }
}

fn storage_armor_rank_at(slots: &Vec<Option<String>>, want: ArmorSlot, i: usize) -> (r: Option<u8>)
    ensures
        r == storage_armor_rank(slots@, want, i as int),
{
    match item_at(slots, i) {
        Some(name) => match armor_info(name) {
            Some((s, r)) => if s == want {
                Some(r)
            } else {
                None
            },
            None => None,
        },
        None => None,
    }
}

/// Find the best (highest-ranked) armor piece for `want` sitting in storage.
/// Returns (absolute_slot_index, rank).
pub fn best_armor_in_storage(slots: &Vec<Option<String>>, want: ArmorSlot) -> (r: Option<(usize, u8)>)
    ensures
        r == best_armor(slots@, want),
        r is None <==> forall|j: int|
            PLAYER_STORAGE_START <= j <= PLAYER_STORAGE_END ==> storage_armor_rank(slots@, want, j) is None,
{
    let mut best: Option<(usize, u8)> = None;
    let mut i: usize = PLAYER_STORAGE_START;
    while i <= PLAYER_STORAGE_END
        invariant
            PLAYER_STORAGE_START <= i <= PLAYER_STORAGE_END + 1,
            match best {
                None => forall|j: int|
                    PLAYER_STORAGE_START <= j < i ==> storage_armor_rank(slots@, want, j) is None,
                Some((b, v)) => PLAYER_STORAGE_START <= b < i && storage_armor_rank(slots@, want, b as int)
                    == Some(v) && (forall|j: int|
                    #![trigger storage_armor_rank(slots@, want, j)]
                    PLAYER_STORAGE_START <= j < i && storage_armor_rank(slots@, want, j) is Some
                        ==> storage_armor_rank(slots@, want, j)->0 <= v) && (forall|j: int|
                    #![trigger storage_armor_rank(slots@, want, j)]
                    PLAYER_STORAGE_START <= j < b && storage_armor_rank(slots@, want, j) is Some
                        ==> storage_armor_rank(slots@, want, j)->0 < v),
            },
        decreases PLAYER_STORAGE_END + 1 - i,
    {
        if let Some(rank) = storage_armor_rank_at(slots, want, i) {
            let better = match best {
                None => true,
                Some((_, bv)) => rank > bv,
            };
            if better {
                best = Some((i, rank));
            }
        }
        i = i + 1;
    }
    match best {
        None => {
            assert(!exists|x: int| is_best_armor(slots@, want, x));
            None
        },
        Some((b, v)) => {
            proof {
                assert(is_best_armor(slots@, want, b as int));
                lemma_best_armor_unique(
                    slots@,
                    want,
                    b as int,
                    choose|x: int| is_best_armor(slots@, want, x),
                );
            }
            Some((b, v))
        },
    }
}

} // verus!
