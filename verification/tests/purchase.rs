use gaf::models::{ItemType, Player, Storage};
use gaf::resolver::StoreWrite;
use gaf::server::Server;
use gaf::workflow::{
    PurchaseSignal, ShopTransaction, SignalOutcome, WorkflowState, PURCHASE_TIMEOUT_SECS,
};

fn buyer(coins: i32) -> Player {
    Player::new(7, 42, 1, coins, Storage::new(), false)
}

fn palm_purchase(created_at: u64) -> ShopTransaction {
    let catalog = Server::default_catalog();
    // the palm tree costs 15
    ShopTransaction::new(42, &catalog[2], created_at)
}

#[test]
fn accept_with_insufficient_funds_mutates_nothing() {
    let mut tx = palm_purchase(0);
    let mut player = buyer(10);
    let (outcome, writes) = tx.handle_signal(&mut player, 42, PurchaseSignal::Accept);
    assert_eq!(outcome, SignalOutcome::InsufficientFunds);
    assert!(writes.is_empty());
    assert_eq!(player.coins, 10);
    assert_eq!(player.storage.get_amount(ItemType::Pallet, 3), None);
    assert_eq!(tx.state, WorkflowState::Cancelled);
}

#[test]
fn accept_with_sufficient_funds_debits_and_credits() {
    let mut tx = palm_purchase(0);
    let mut player = buyer(20);
    let (outcome, writes) = tx.handle_signal(&mut player, 42, PurchaseSignal::Accept);
    assert_eq!(outcome, SignalOutcome::Confirmed);
    assert_eq!(player.coins, 5);
    assert_eq!(player.storage.get_amount(ItemType::Pallet, 3), Some(1));
    assert_eq!(tx.state, WorkflowState::Confirmed);
    assert_eq!(
        writes,
        vec![
            StoreWrite::AdjustBalance { player_id: 7, delta: -15 },
            StoreWrite::AdjustStorage {
                player_id: 7,
                item_type: ItemType::Pallet,
                item_id: 3,
                delta: 1,
                guard_nonnegative: false,
            },
        ]
    );
}

#[test]
fn decline_cancels_without_mutation() {
    let mut tx = palm_purchase(0);
    let mut player = buyer(20);
    let (outcome, writes) = tx.handle_signal(&mut player, 42, PurchaseSignal::Decline);
    assert_eq!(outcome, SignalOutcome::Cancelled);
    assert!(writes.is_empty());
    assert_eq!(player.coins, 20);
    assert_eq!(tx.state, WorkflowState::Cancelled);
}

#[test]
fn any_other_buyer_signal_cancels() {
    let mut tx = palm_purchase(0);
    let mut player = buyer(20);
    let (outcome, _) = tx.handle_signal(&mut player, 42, PurchaseSignal::Other);
    assert_eq!(outcome, SignalOutcome::Cancelled);
    assert_eq!(tx.state, WorkflowState::Cancelled);
}

#[test]
fn signals_from_other_actors_are_ignored() {
    let mut tx = palm_purchase(0);
    let mut player = buyer(20);
    let (outcome, writes) = tx.handle_signal(&mut player, 999, PurchaseSignal::Accept);
    assert_eq!(outcome, SignalOutcome::Ignored);
    assert!(writes.is_empty());
    assert_eq!(tx.state, WorkflowState::Pending);
    assert_eq!(player.coins, 20);
}

#[test]
fn exactly_one_terminal_transition_fires() {
    let mut tx = palm_purchase(0);
    let mut player = buyer(20);
    let (outcome, _) = tx.handle_signal(&mut player, 42, PurchaseSignal::Decline);
    assert_eq!(outcome, SignalOutcome::Cancelled);

    // re-sending accept after the decline has no further effect
    let (outcome, writes) = tx.handle_signal(&mut player, 42, PurchaseSignal::Accept);
    assert_eq!(outcome, SignalOutcome::Ignored);
    assert!(writes.is_empty());
    assert_eq!(tx.state, WorkflowState::Cancelled);
    assert_eq!(player.coins, 20);
    assert_eq!(player.storage.get_amount(ItemType::Pallet, 3), None);

    // nor does a late timeout check
    assert!(!tx.handle_timeout(1000));
    assert_eq!(tx.state, WorkflowState::Cancelled);
}

#[test]
fn decline_after_accept_is_ignored_too() {
    let mut tx = palm_purchase(0);
    let mut player = buyer(20);
    tx.handle_signal(&mut player, 42, PurchaseSignal::Accept);
    assert_eq!(tx.state, WorkflowState::Confirmed);
    let (outcome, _) = tx.handle_signal(&mut player, 42, PurchaseSignal::Decline);
    assert_eq!(outcome, SignalOutcome::Ignored);
    assert_eq!(tx.state, WorkflowState::Confirmed);
    assert_eq!(player.coins, 5);
}

#[test]
fn scenario_no_signal_for_the_wait_window_times_out() {
    let mut tx = palm_purchase(0);
    assert_eq!(PURCHASE_TIMEOUT_SECS, 45);
    assert!(!tx.handle_timeout(44));
    assert_eq!(tx.state, WorkflowState::Pending);
    assert!(tx.handle_timeout(45));
    assert_eq!(tx.state, WorkflowState::TimedOut);

    // a signal arriving after the timeout mutates nothing
    let mut player = buyer(20);
    let (outcome, writes) = tx.handle_signal(&mut player, 42, PurchaseSignal::Accept);
    assert_eq!(outcome, SignalOutcome::Ignored);
    assert!(writes.is_empty());
    assert_eq!(player.coins, 20);
}
