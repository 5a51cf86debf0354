use gaf::rules::{RuleSetting, RuleWrite, Rules};
use gaf::server::{RuleKind, Server, ServerWrite};

fn blank_server(cooldown: i16) -> Server {
    Server::from_row(
        1,
        1,
        "f-".to_string(),
        "en".to_string(),
        cooldown,
        Rules::new(true),
        Rules::new(true),
    )
}

#[test]
fn check_prefers_channel_override_over_global() {
    let mut rules = Rules::new(true);
    assert!(rules.check(&5));
    let w = rules.set(5, RuleSetting::Deny);
    assert_eq!(w, RuleWrite::Upsert { scope: 5, allowed: false });
    assert!(!rules.check(&5));
    assert!(rules.check(&6));
    let w = rules.set(5, RuleSetting::Allow);
    assert_eq!(w, RuleWrite::Upsert { scope: 5, allowed: true });
    assert!(rules.check(&5));
}

#[test]
fn inherit_removes_the_override_row() {
    let mut rules = Rules::new(false);
    rules.set(5, RuleSetting::Allow);
    assert!(rules.check(&5));
    let w = rules.set(5, RuleSetting::Inherit);
    assert_eq!(w, RuleWrite::Delete { scope: 5 });
    assert!(!rules.check(&5));
    assert!(!rules.channels.contains_key(&5));
}

#[test]
fn global_scope_moves_the_default_without_touching_overrides() {
    let mut rules = Rules::new(true);
    rules.set(5, RuleSetting::Allow);
    let w = rules.set(0, RuleSetting::Deny);
    assert_eq!(w, RuleWrite::Upsert { scope: 0, allowed: false });
    assert!(!rules.global);
    assert!(rules.check(&5));
    assert!(!rules.check(&6));
    let w = rules.set(0, RuleSetting::Inherit);
    assert_eq!(w, RuleWrite::Delete { scope: 0 });
    assert!(rules.global);
}

#[test]
fn from_rows_reads_global_and_overrides() {
    let rows = vec![(0u64, false), (5u64, true), (9u64, false)];
    let rules = Rules::from_rows(&rows);
    assert!(!rules.global);
    assert!(rules.check(&5));
    assert!(!rules.check(&9));
    assert!(!rules.check(&7));

    let empty = Rules::from_rows(&Vec::new());
    assert!(empty.global);
    assert!(empty.check(&1));
}

#[test]
fn set_sequences_end_in_the_described_state() {
    let mut rules = Rules::new(true);
    rules.set(3, RuleSetting::Deny);
    rules.set(4, RuleSetting::Deny);
    rules.set(3, RuleSetting::Allow);
    rules.set(4, RuleSetting::Inherit);
    assert!(rules.check(&3));
    assert!(rules.check(&4));
    assert!(rules.channels.contains_key(&3));
    assert!(!rules.channels.contains_key(&4));
}

#[test]
fn cooldown_setting_is_validated() {
    let mut server = blank_server(0);
    assert!(server.set_cooldown(-1).is_none());
    assert_eq!(server.plant_cooldown, 0);
    assert!(server.set_cooldown(28801).is_none());
    assert_eq!(server.plant_cooldown, 0);
    let w = server.set_cooldown(28800);
    assert!(matches!(w, Some(ServerWrite::UpdateCooldown { server_id: 1, cooldown: 28800 })));
    assert_eq!(server.plant_cooldown, 28800);
    assert!(server.set_cooldown(10).is_some());
    assert_eq!(server.plant_cooldown, 10);
}

#[test]
fn prefix_setting_reports_its_write() {
    let mut server = blank_server(0);
    let w = server.set_prefix("!".to_string());
    assert_eq!(server.prefix, "!");
    match w {
        ServerWrite::UpdatePrefix { server_id, prefix } => {
            assert_eq!(server_id, 1);
            assert_eq!(prefix, "!");
        }
        other => panic!("unexpected write: {:?}", other),
    }
}

#[test]
fn rule_edits_address_one_capability() {
    let mut server = blank_server(0);
    let w = server.set_rule(RuleKind::Forest, 7, RuleSetting::Deny);
    assert_eq!(w.server_id, 1);
    assert_eq!(w.kind, RuleKind::Forest);
    assert_eq!(w.write, RuleWrite::Upsert { scope: 7, allowed: false });
    assert!(!server.forest_rules.check(&7));
    assert!(server.commands_rules.check(&7));

    let w = server.set_rule(RuleKind::Commands, 0, RuleSetting::Deny);
    assert_eq!(w.write, RuleWrite::Upsert { scope: 0, allowed: false });
    assert!(!server.commands_rules.check(&7));
    assert!(server.forest_rules.check(&8));
}

#[test]
fn exception_channels_lists_only_differing_overrides() {
    let mut rules = Rules::new(true);
    rules.set(5, RuleSetting::Deny);
    // an override equal to the default is no exception
    rules.set(6, RuleSetting::Allow);
    rules.set(7, RuleSetting::Deny);
    let mut exceptions = rules.exception_channels();
    exceptions.sort();
    assert_eq!(exceptions, vec![5, 7]);

    // flipping the default flips which overrides stand out
    rules.set(0, RuleSetting::Deny);
    let mut exceptions = rules.exception_channels();
    exceptions.sort();
    assert_eq!(exceptions, vec![6]);

    assert!(Rules::new(false).exception_channels().is_empty());
}
