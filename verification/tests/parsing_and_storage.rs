use gaf::models::{ItemType, Player, Storage};
use gaf::parse::{parse_allowance, parse_rule_kind, parse_scope_token, shop_choice_index};
use gaf::rules::RuleSetting;
use gaf::server::RuleKind;

#[test]
fn rule_kind_keywords() {
    assert_eq!(parse_rule_kind("forest"), Some(RuleKind::Forest));
    assert_eq!(parse_rule_kind("grow"), Some(RuleKind::Forest));
    assert_eq!(parse_rule_kind("commands"), Some(RuleKind::Commands));
    assert_eq!(parse_rule_kind("command"), Some(RuleKind::Commands));
    assert_eq!(parse_rule_kind("Forest"), None);
    assert_eq!(parse_rule_kind(""), None);
}

#[test]
fn allowance_keywords() {
    assert_eq!(parse_allowance("allow"), Some(RuleSetting::Allow));
    assert_eq!(parse_allowance("true"), Some(RuleSetting::Allow));
    assert_eq!(parse_allowance("1"), Some(RuleSetting::Allow));
    assert_eq!(parse_allowance("deny"), Some(RuleSetting::Deny));
    assert_eq!(parse_allowance("false"), Some(RuleSetting::Deny));
    assert_eq!(parse_allowance("-1"), Some(RuleSetting::Deny));
    assert_eq!(parse_allowance("inherit"), Some(RuleSetting::Inherit));
    assert_eq!(parse_allowance("0"), Some(RuleSetting::Inherit));
    assert_eq!(parse_allowance("maybe"), None);
}

#[test]
fn scope_tokens_name_the_community_or_a_channel() {
    assert_eq!(parse_scope_token("server"), Some(0));
    assert_eq!(parse_scope_token("guild"), Some(0));
    assert_eq!(parse_scope_token("0"), Some(0));
    assert_eq!(parse_scope_token("123456789012345678"), Some(123456789012345678));
    assert_eq!(parse_scope_token("<#123456789012345678>"), Some(123456789012345678));
    assert_eq!(parse_scope_token("#42"), Some(42));
    assert_eq!(parse_scope_token(""), None);
    assert_eq!(parse_scope_token("<#>"), None);
    assert_eq!(parse_scope_token("12ab"), None);
    assert_eq!(parse_scope_token("channel"), None);
    // too large for a channel id
    assert_eq!(parse_scope_token("99999999999999999999999"), None);
    // the largest id that still fits
    assert_eq!(parse_scope_token("18446744073709551615"), Some(u64::MAX));
    assert_eq!(parse_scope_token("18446744073709551616"), None);
}

#[test]
fn numbered_reactions_pick_buyable_entries() {
    assert_eq!(shop_choice_index("1\u{20e3}"), Some(0));
    assert_eq!(shop_choice_index("5\u{20e3}"), Some(4));
    assert_eq!(shop_choice_index("9\u{20e3}"), Some(8));
    assert_eq!(shop_choice_index("0\u{20e3}"), None);
    assert_eq!(shop_choice_index(""), None);
    assert_eq!(shop_choice_index("x"), None);
}

#[test]
fn item_type_codes_round_trip() {
    assert_eq!(ItemType::from_i16(1), ItemType::Pallet);
    assert_eq!(ItemType::from_i16(2), ItemType::Seedling);
    assert_eq!(ItemType::Pallet.to_i16(), 1);
    assert_eq!(ItemType::Seedling.to_i16(), 2);
}

#[test]
fn storage_rows_rebuild_the_map_and_refuse_corrupt_codes() {
    let rows = vec![(1i16, 2i16, 3i32), (2, 4, -1), (2, 4, 7)];
    let storage = Storage::from_rows(&rows).unwrap();
    assert_eq!(storage.get_amount(ItemType::Pallet, 2), Some(3));
    // the later row for the same key wins
    assert_eq!(storage.get_amount(ItemType::Seedling, 4), Some(7));
    assert_eq!(storage.get_amount(ItemType::Seedling, 2), None);

    assert!(Storage::from_rows(&vec![(3i16, 1i16, 1i32)]).is_none());
    assert!(Storage::from_rows(&vec![(1, 1, 1), (0, 2, 2)]).is_none());
    assert!(Storage::from_rows(&Vec::new()).is_some());
}

#[test]
fn give_item_accumulates_per_key() {
    let mut player = Player::new(7, 42, 1, 0, Storage::new(), false);
    assert_eq!(player.give_item(ItemType::Pallet, 3, 2), 2);
    assert_eq!(player.give_item(ItemType::Pallet, 3, 5), 7);
    assert_eq!(player.give_item(ItemType::Seedling, 3, 4), 4);
    assert_eq!(player.give_item(ItemType::Pallet, 3, -1), 6);
    assert_eq!(player.storage.get_amount(ItemType::Pallet, 3), Some(6));
    assert_eq!(player.storage.get_amount(ItemType::Seedling, 3), Some(4));
}

#[test]
fn storage_listing_is_filtered_and_sorted() {
    let mut storage = Storage::new();
    storage.set_amount(ItemType::Seedling, 9, 10);
    storage.set_amount(ItemType::Seedling, 2, -1);
    storage.set_amount(ItemType::Seedling, 5, 0);
    storage.set_amount(ItemType::Seedling, 3, 4);
    storage.set_amount(ItemType::Pallet, 1, 8);
    let lines = storage.rows_of_type_sorted(ItemType::Seedling);
    assert_eq!(lines, vec![(2, -1), (3, 4), (9, 10)]);
    let pallets = storage.rows_of_type_sorted(ItemType::Pallet);
    assert_eq!(pallets, vec![(1, 8)]);
}

#[test]
fn player_keeps_its_identity_fields() {
    let player = Player::new(7, 42, 9, 100, Storage::new(), true);
    assert_eq!(player.id, 7);
    assert_eq!(player.user_id, 42);
    assert_eq!(player.guild_id, 9);
    assert_eq!(player.coins, 100);
    assert!(player.is_new());
    let old = Player::new(7, 42, 9, 100, Storage::new(), false);
    assert!(!old.is_new());
}
