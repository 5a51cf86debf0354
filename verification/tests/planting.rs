use gaf::cooldown::PlantCooldown;
use gaf::models::{ItemType, Player, Storage};
use gaf::resolver::{resolve_plant, seed_player_defaults, PlantOutcome, StoreWrite};
use gaf::rules::{RuleSetting, Rules};
use gaf::server::{RuleKind, Server};
use gaf::trigger::TriggerDecision;

fn community(cooldown: i16) -> Server {
    Server::from_row(
        1,
        1,
        "f-".to_string(),
        "en".to_string(),
        cooldown,
        Rules::new(true),
        Rules::new(true),
    )
}

fn member_with(server: &mut Server, user_id: u64, coins: i32, rows: &[(i16, i32)]) {
    let mut storage = Storage::new();
    for (species_id, amount) in rows {
        storage.set_amount(ItemType::Seedling, *species_id, *amount);
    }
    let player = Player::new(7, user_id, 1, coins, storage, false);
    server.player_cache.insert(user_id, player);
}

fn seedlings(server: &Server, user_id: u64, species_id: i16) -> Option<i32> {
    server
        .player_cache
        .get(&user_id)
        .unwrap()
        .storage
        .get_amount(ItemType::Seedling, species_id)
}

#[test]
fn scenario_cooldown_gates_the_second_of_three_triggers() {
    let mut server = community(10);
    member_with(&mut server, 42, 0, &[(2, 50)]);
    let mut cd = PlantCooldown::new();

    let (o1, w1) = resolve_plant(&mut server, &mut cd, 42, 100, 2, 0);
    assert_eq!(o1, PlantOutcome::Success { species_id: 2, reward: 1 });
    assert_eq!(w1.len(), 3);
    assert_eq!(seedlings(&server, 42, 2), Some(49));

    let (o2, w2) = resolve_plant(&mut server, &mut cd, 42, 100, 2, 5);
    assert_eq!(o2, PlantOutcome::CooldownActive);
    assert!(w2.is_empty());
    assert_eq!(seedlings(&server, 42, 2), Some(49));

    let (o3, _) = resolve_plant(&mut server, &mut cd, 42, 100, 2, 11);
    assert_eq!(o3, PlantOutcome::Success { species_id: 2, reward: 1 });
    assert_eq!(seedlings(&server, 42, 2), Some(48));
}

#[test]
fn scenario_missing_material_and_unlimited_supply() {
    let mut server = community(0);
    // no units of the deciduous tree, an unlimited supply of the evergreen
    member_with(&mut server, 42, 5, &[(2, 0), (1, -1)]);
    let mut cd = PlantCooldown::new();

    let (ox, wx) = resolve_plant(&mut server, &mut cd, 42, 100, 2, 0);
    assert_eq!(ox, PlantOutcome::MissingMaterial);
    assert!(wx.is_empty());
    assert_eq!(seedlings(&server, 42, 2), Some(0));
    assert_eq!(server.player_cache.get(&42).unwrap().coins, 5);

    for t in 0..3u64 {
        let (oy, _) = resolve_plant(&mut server, &mut cd, 42, 100, 1, t);
        assert_eq!(oy, PlantOutcome::Success { species_id: 1, reward: 1 });
        assert_eq!(seedlings(&server, 42, 1), Some(-1));
    }
    assert_eq!(server.player_cache.get(&42).unwrap().coins, 8);
}

#[test]
fn denied_channel_resolves_to_a_silent_no_op() {
    let mut server = community(0);
    member_with(&mut server, 42, 0, &[(2, 50)]);
    server.set_rule(RuleKind::Forest, 100, RuleSetting::Deny);
    let mut cd = PlantCooldown::new();

    let (o, w) = resolve_plant(&mut server, &mut cd, 42, 100, 2, 0);
    assert_eq!(o, PlantOutcome::Denied);
    assert!(w.is_empty());
    assert_eq!(seedlings(&server, 42, 2), Some(50));

    // another channel is still open
    let (o, _) = resolve_plant(&mut server, &mut cd, 42, 101, 2, 0);
    assert_eq!(o, PlantOutcome::Success { species_id: 2, reward: 1 });
}

#[test]
fn success_owes_exactly_the_described_writes() {
    let mut server = community(0);
    member_with(&mut server, 42, 0, &[(4, 3)]);
    let mut cd = PlantCooldown::new();

    // the cactus rewards 2 coins
    let (o, w) = resolve_plant(&mut server, &mut cd, 42, 100, 4, 0);
    assert_eq!(o, PlantOutcome::Success { species_id: 4, reward: 2 });
    assert_eq!(
        w,
        vec![
            StoreWrite::AdjustStorage {
                player_id: 7,
                item_type: ItemType::Seedling,
                item_id: 4,
                delta: -1,
                guard_nonnegative: true,
            },
            StoreWrite::UpsertActionCount {
                species_id: 4,
                user_id: 42,
                channel_id: 100,
                guild_id: 1,
            },
            StoreWrite::AdjustBalance { player_id: 7, delta: 2 },
        ]
    );
    assert_eq!(server.player_cache.get(&42).unwrap().coins, 2);
}

#[test]
fn seeding_grants_every_default_and_skips_nothing_else() {
    let mut player = Player::new(7, 42, 1, 0, Storage::new(), true);
    assert!(player.is_new());
    let catalog = Server::default_catalog();
    let writes = seed_player_defaults(&mut player, &catalog);
    assert_eq!(writes.len(), 5);
    assert_eq!(player.storage.get_amount(ItemType::Seedling, 1), Some(-1));
    assert_eq!(player.storage.get_amount(ItemType::Seedling, 2), Some(50));
    assert_eq!(player.storage.get_amount(ItemType::Seedling, 3), Some(30));
    assert_eq!(player.storage.get_amount(ItemType::Seedling, 4), Some(20));
    assert_eq!(player.storage.get_amount(ItemType::Seedling, 5), Some(10));
    assert_eq!(player.coins, 0);
    assert_eq!(
        writes[1],
        StoreWrite::AdjustStorage {
            player_id: 7,
            item_type: ItemType::Seedling,
            item_id: 2,
            delta: 50,
            guard_nonnegative: false,
        }
    );
}

#[test]
fn default_catalog_holds_the_five_species() {
    let catalog = Server::default_catalog();
    assert_eq!(catalog.len(), 5);
    assert_eq!(catalog[0].emoji, "🌲");
    assert_eq!(catalog[0].name, "Evergreen Tree");
    assert_eq!((catalog[0].pallet_cost, catalog[0].default_qty, catalog[0].coins), (0, -1, 1));
    assert_eq!(catalog[1].emoji, "🌳");
    assert_eq!((catalog[1].pallet_cost, catalog[1].default_qty, catalog[1].coins), (12, 50, 1));
    assert_eq!(catalog[4].name, "Bamboo");
    assert_eq!((catalog[4].pallet_cost, catalog[4].default_qty, catalog[4].coins), (50, 10, 3));
}

#[test]
fn buyable_species_excludes_the_free_evergreen() {
    let server = community(0);
    let buyable = server.buyable_species();
    let ids: Vec<i16> = buyable.iter().map(|s| s.id).collect();
    assert_eq!(ids, vec![2, 3, 4, 5]);
}

#[test]
fn glyph_messages_classify_against_catalog_and_rules() {
    let mut server = community(0);
    assert_eq!(server.classify_trigger("🌲", 100), TriggerDecision::Plant { species_id: 1 });
    assert_eq!(server.classify_trigger("🌳", 100), TriggerDecision::Plant { species_id: 2 });
    // the repeated token group keeps its last match
    assert_eq!(server.classify_trigger("🌳 🌲", 100), TriggerDecision::Plant { species_id: 1 });
    assert_eq!(server.classify_trigger("hello", 100), TriggerDecision::NotATrigger);
    assert_eq!(server.classify_trigger("plant a 🌲", 100), TriggerDecision::NotATrigger);
    assert_eq!(server.classify_trigger("", 100), TriggerDecision::NotATrigger);
    // a custom-emoji tag is a glyph message but matches no catalog entry
    assert_eq!(
        server.classify_trigger("<:sapling:750012121475186760>", 100),
        TriggerDecision::NotATrigger
    );

    server.set_rule(RuleKind::Forest, 100, RuleSetting::Deny);
    assert_eq!(server.classify_trigger("🌲", 100), TriggerDecision::Denied);
    assert_eq!(server.classify_trigger("hello", 100), TriggerDecision::NotATrigger);
    assert_eq!(server.classify_trigger("🌲", 101), TriggerDecision::Plant { species_id: 1 });
}

#[test]
fn species_lookup_by_id_and_emoji_agree() {
    let server = community(0);
    let palm = server.species_by_id(3).unwrap();
    assert_eq!(palm.name, "Palm Tree");
    assert!(server.species_by_id(99).is_none());
    assert_eq!(server.species_by_emoji(&"🌴".to_string()), Some(3));
    assert_eq!(server.species_by_emoji(&"🌿".to_string()), None);
}
