use gacha::Gacha;
use gacha::GachaError;
use gacha::Item;
use gacha::ItemType;

fn item(name: &str, item_type: ItemType) -> Item {
    Item {
        name: name.to_string(),
        item_type,
        description: format!("about {}", name),
        image_url: format!("https://example.invalid/{}.png", name),
    }
}

fn full_catalog() -> Vec<Item> {
    vec![
        item("limited", ItemType::FiveStarCharacterLimited),
        item("standard", ItemType::FiveStarCharacterStandard),
        item("greatsword", ItemType::FiveStarWeapon),
        item("adventurer", ItemType::FourStarCharacter),
        item("spear", ItemType::FourStarWeapon),
        item("dull blade", ItemType::ThreeStarItem),
    ]
}

fn session(items: Vec<Item>) -> Gacha {
    Gacha {
        items,
        five_star_pity_counter: 0,
        four_star_pity_counter: 0,
        is_last_five_star_item_limited: false,
    }
}

#[test]
fn boundary_five_star_hit_resets_pity_and_skips_four_star_check() {
    let mut g = session(full_catalog());
    // the draw equals the table's chance at pity 0 exactly: a boundary hit
    let result = g.roll_with_draws(6, 0, true, 0);
    let drawn = result.unwrap();
    assert_eq!(drawn.item_type, ItemType::FiveStarCharacterLimited);
    assert_eq!(drawn.name, "limited");
    assert_eq!(g.five_star_pity_counter, 0);
    // the four-star check was skipped entirely: its pity is untouched
    assert_eq!(g.four_star_pity_counter, 0);
    assert!(g.is_last_five_star_item_limited);
}

#[test]
fn missing_both_checks_yields_three_star_and_raises_both_counters() {
    let mut g = session(full_catalog());
    let result = g.roll_with_draws(7, 52, true, 0);
    let drawn = result.unwrap();
    assert_eq!(drawn.item_type, ItemType::ThreeStarItem);
    assert_eq!(drawn.name, "dull blade");
    assert_eq!(g.five_star_pity_counter, 1);
    assert_eq!(g.four_star_pity_counter, 1);
    assert!(!g.is_last_five_star_item_limited);
}

#[test]
fn four_star_hit_after_five_star_miss() {
    let mut g = session(full_catalog());
    let result = g.roll_with_draws(1000, 51, true, 0);
    let drawn = result.unwrap();
    // the four-star resolver's limited slot carries the character tag
    assert_eq!(drawn.item_type, ItemType::FourStarCharacter);
    assert_eq!(drawn.name, "adventurer");
    assert_eq!(g.five_star_pity_counter, 1);
    assert_eq!(g.four_star_pity_counter, 0);
    assert!(g.is_last_five_star_item_limited);
}

#[test]
fn four_star_weapon_slot_and_limited_slot_share_the_character_tag() {
    let mut g = session(full_catalog());
    // weapon branch of a four-star hit: the weapon slot also carries the
    // character tag, so the drawn item is a character either way
    let result = g.roll_with_draws(1000, 51, false, 0);
    let drawn = result.unwrap();
    assert_eq!(drawn.item_type, ItemType::FourStarCharacter);
    assert!(!g.is_last_five_star_item_limited);
    assert_eq!(g.four_star_pity_counter, 0);
}

#[test]
fn four_star_character_branch_alternates_to_weapon_tag() {
    let mut g = session(full_catalog());
    g.is_last_five_star_item_limited = true;
    let result = g.roll_with_draws(1000, 51, true, 0);
    let drawn = result.unwrap();
    assert_eq!(drawn.item_type, ItemType::FourStarWeapon);
    assert!(!g.is_last_five_star_item_limited);
}

#[test]
fn hard_four_star_guarantee_at_pity_ten() {
    let mut g = session(full_catalog());
    g.four_star_pity_counter = 10;
    // even the largest draws cannot make both checks miss at pity 10
    let result = g.roll_with_draws(1000, 1000, false, 0);
    let drawn = result.unwrap();
    assert_eq!(drawn.item_type, ItemType::FourStarCharacter);
    assert_eq!(g.five_star_pity_counter, 1);
    assert_eq!(g.four_star_pity_counter, 0);
}

#[test]
fn character_branch_alternation_across_resolutions() {
    let mut g = session(full_catalog());
    // first character-branch resolution from an unset flag: limited
    let first = g
        .pity_roll_with_draw(
            ItemType::FiveStarCharacterLimited,
            ItemType::FiveStarCharacterStandard,
            ItemType::FiveStarWeapon,
            true,
            0,
        )
        .unwrap();
    assert_eq!(first.item_type, ItemType::FiveStarCharacterLimited);
    assert!(g.is_last_five_star_item_limited);
    // a weapon-branch resolution in between does not disturb the flag
    let between = g
        .pity_roll_with_draw(
            ItemType::FiveStarCharacterLimited,
            ItemType::FiveStarCharacterStandard,
            ItemType::FiveStarWeapon,
            false,
            0,
        )
        .unwrap();
    assert_eq!(between.item_type, ItemType::FiveStarWeapon);
    assert!(g.is_last_five_star_item_limited);
    // second character-branch resolution: standard
    let second = g
        .pity_roll_with_draw(
            ItemType::FiveStarCharacterLimited,
            ItemType::FiveStarCharacterStandard,
            ItemType::FiveStarWeapon,
            true,
            0,
        )
        .unwrap();
    assert_eq!(second.item_type, ItemType::FiveStarCharacterStandard);
    assert!(!g.is_last_five_star_item_limited);
    // third: limited again, never two of a kind in a row
    let third = g
        .pity_roll_with_draw(
            ItemType::FiveStarCharacterLimited,
            ItemType::FiveStarCharacterStandard,
            ItemType::FiveStarWeapon,
            true,
            0,
        )
        .unwrap();
    assert_eq!(third.item_type, ItemType::FiveStarCharacterLimited);
    assert!(g.is_last_five_star_item_limited);
}

#[test]
fn selection_returns_the_item_at_the_drawn_ordinal() {
    let catalog = vec![
        item("first", ItemType::ThreeStarItem),
        item("shiny", ItemType::FiveStarWeapon),
        item("second", ItemType::ThreeStarItem),
        item("third", ItemType::ThreeStarItem),
    ];
    let g = session(catalog);
    assert_eq!(g.item_of_type_at(ItemType::ThreeStarItem, 0).name, "first");
    assert_eq!(g.item_of_type_at(ItemType::ThreeStarItem, 1).name, "second");
    assert_eq!(g.item_of_type_at(ItemType::ThreeStarItem, 2).name, "third");
}

#[test]
fn empty_tier_is_an_explicit_failure() {
    let g = session(vec![item("limited", ItemType::FiveStarCharacterLimited)]);
    let result = g.random_item_of_type(ItemType::ThreeStarItem);
    assert!(matches!(result, Err(GachaError::EmptyTier(ItemType::ThreeStarItem))));
}

#[test]
fn three_failed_checks_on_a_catalog_without_three_stars() {
    let mut g = session(vec![item("limited", ItemType::FiveStarCharacterLimited)]);
    for _ in 0..3 {
        let result = g.roll_with_draws(1000, 1000, false, 0);
        assert!(matches!(result, Err(GachaError::EmptyTier(ItemType::ThreeStarItem))));
    }
    assert_eq!(g.five_star_pity_counter, 3);
    assert_eq!(g.four_star_pity_counter, 3);
}

#[test]
fn multi_roll_of_zero_draws_is_rejected() {
    let mut g = session(full_catalog());
    let result = g.multi_roll(0);
    assert!(matches!(result, Err(GachaError::InvalidRollCount)));
}

#[test]
fn multi_roll_returns_one_item_per_draw() {
    let mut g = session(full_catalog());
    let items = g.multi_roll(40).unwrap();
    assert_eq!(items.len(), 40);
    for drawn in &items {
        assert!(!drawn.name.is_empty());
    }
    assert!(g.five_star_pity_counter >= 0 && g.five_star_pity_counter <= 40);
    assert!(g.four_star_pity_counter >= 0 && g.four_star_pity_counter <= 40);
}

#[test]
fn roll_with_live_draws_on_a_complete_catalog_succeeds() {
    let mut g = session(full_catalog());
    for _ in 0..50 {
        let drawn = g.roll().unwrap();
        assert!(!drawn.name.is_empty());
    }
}

#[test]
fn default_session_starts_from_zero() {
    let g = Gacha::default();
    assert!(g.items.is_empty());
    assert_eq!(g.five_star_pity_counter, 0);
    assert_eq!(g.four_star_pity_counter, 0);
    assert!(!g.is_last_five_star_item_limited);
}
