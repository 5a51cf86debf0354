//! The interactive purchase workflow: a short-lived state machine driven
//! by the buyer's accept/decline signals or a timeout, delegating the
//! final economic mutation to the member aggregate.

use vstd::prelude::*;
use crate::models::stored_amount;
use crate::models::ItemType;
use crate::models::Player;
use crate::models::Species;
use crate::resolver::StoreWrite;

verus! {

/// How long a pending purchase waits for a confirmation signal.
pub const PURCHASE_TIMEOUT_SECS: u64 = 45;

/// The states of a purchase workflow; all but Pending are terminal.
#[derive(Debug, Clone, Copy, PartialEq, Eq, Structural)]
pub enum WorkflowState {
    Pending,
    Confirmed,
    Cancelled,
    TimedOut,
}

/// A confirmation affordance as the transport reports it: accept,
/// decline, or anything else the buyer sent.
#[derive(Debug, Clone, Copy, PartialEq, Eq, Structural)]
pub enum PurchaseSignal {
    Accept,
    Decline,
    Other,
}

/// What one delivered signal did to the workflow.
#[derive(Debug, Clone, Copy, PartialEq, Eq, Structural)]
pub enum SignalOutcome {
    /// The workflow was already terminal, or the signal came from
    /// someone other than the buyer: nothing happened.
    Ignored,
    /// The purchase went through.
    Confirmed,
    /// The buyer's fresh balance cannot cover the cost: terminal, no
    /// mutation.
    InsufficientFunds,
    /// The buyer declined (or sent something else): terminal, no
    /// mutation.
    Cancelled,
}

/// An ephemeral purchase in flight: buyer, target item, creation time
/// and current state. Never persisted; dropped once resolved.
#[derive(Debug)]
pub struct ShopTransaction {
    /// The only actor whose signals count.
    pub buyer_id: u64,
    /// The catalog item being bought.
    pub species_id: i16,
    /// The acquisition cost captured at creation; always positive.
    pub cost: i32,
    /// When the workflow was opened, in seconds on the caller's clock.
    pub created_at: u64,
    pub state: WorkflowState,
}

/// The state a delivered signal moves a workflow to: signals on a
/// terminal workflow or from a non-buyer change nothing; the buyer's
/// accept confirms when the fresh balance covers the cost and otherwise
/// cancels (insufficient funds); any other buyer signal cancels.
pub open spec fn spec_state_after_signal(
    t: ShopTransaction,
    buyer_coins: int,
    actor_id: u64,
    signal: PurchaseSignal,
) -> WorkflowState {
    if !(t.state is Pending) || actor_id != t.buyer_id {
        t.state
    } else {
        match signal {
            PurchaseSignal::Accept => if buyer_coins >= t.cost {
                WorkflowState::Confirmed
            } else {
                WorkflowState::Cancelled
            },
            _ => WorkflowState::Cancelled,
        }
    }
}

/// The state a timeout check at `now` moves a workflow to: TimedOut
/// exactly when it is still pending and the wait window has elapsed.
pub open spec fn spec_state_after_timeout(t: ShopTransaction, now: u64) -> WorkflowState {
    if t.state is Pending && now - t.created_at >= PURCHASE_TIMEOUT_SECS {
        WorkflowState::TimedOut
    } else {
        t.state
    }
}

/// The two writes a confirmed purchase owes the store: the balance debit
/// and the storage credit of one pallet.
pub open spec fn spec_purchase_writes(player_id: i32, species_id: i16, cost: i32) -> Seq<
    StoreWrite,
> {
    seq![
        (StoreWrite::AdjustBalance { player_id, delta: (0 - cost) as i32 }),
        (StoreWrite::AdjustStorage {
            player_id,
            item_type: ItemType::Pallet,
            item_id: species_id,
            delta: 1i32,
            guard_nonnegative: false,
        }),
    ]
}

impl ShopTransaction {
    /// Open a purchase of `species` for `buyer_id`. Only items with a
    /// positive cost are purchasable.
    pub fn new(buyer_id: u64, species: &Species, created_at: u64) -> (t: ShopTransaction)
        requires
            species.pallet_cost > 0,
        ensures
            t.buyer_id == buyer_id,
            t.species_id == species.id,
            t.cost == species.pallet_cost,
            t.created_at == created_at,
            t.state is Pending,
    {
        ShopTransaction {
            buyer_id,
            species_id: species.id,
            cost: species.pallet_cost,
            created_at,
            state: WorkflowState::Pending,
        }
    }

    /// Deliver one confirmation signal. The buyer's balance is read
    /// fresh from the passed-in member record, not from any value
    /// captured at creation. Exactly the confirmed purchase mutates the
    /// member — debiting the cost (never below zero) and crediting one
    /// pallet — and owes the store the writes of `spec_purchase_writes`;
    /// every other delivery leaves the member untouched and owes
    /// nothing. A terminal workflow absorbs all further signals.
    pub fn handle_signal(&mut self, player: &mut Player, actor_id: u64, signal: PurchaseSignal)
        -> (r: (SignalOutcome, Vec<StoreWrite>))
        requires
            old(player).wf(),
            old(self).cost > 0,
            stored_amount(old(player).storage@, ItemType::Pallet, old(self).species_id) + 1
                <= i32::MAX,
        ensures
            final(player).wf(),
            final(self).buyer_id == old(self).buyer_id,
            final(self).species_id == old(self).species_id,
            final(self).cost == old(self).cost,
            final(self).created_at == old(self).created_at,
            final(self).state == spec_state_after_signal(
                *old(self),
                old(player).coins as int,
                actor_id,
                signal,
            ),
            !(old(self).state is Pending) || actor_id != old(self).buyer_id ==> *final(player)
                == *old(player) && r.0 == SignalOutcome::Ignored && r.1@ == Seq::<
                StoreWrite,
            >::empty(),
            old(self).state is Pending && actor_id == old(self).buyer_id ==> match signal {
                PurchaseSignal::Accept => if old(player).coins >= old(self).cost {
                    &&& r.0 == SignalOutcome::Confirmed
                    &&& final(player).coins == old(player).coins - old(self).cost
                    &&& final(player).coins >= 0
                    &&& final(player).storage@ == old(player).storage@.insert(
                        (ItemType::Pallet, old(self).species_id),
                        (stored_amount(
                            old(player).storage@,
                            ItemType::Pallet,
                            old(self).species_id,
                        ) + 1) as i32,
                    )
                    &&& final(player).id == old(player).id
                    &&& final(player).user_id == old(player).user_id
                    &&& final(player).guild_id == old(player).guild_id
                    &&& r.1@ == spec_purchase_writes(
                        old(player).id,
                        old(self).species_id,
                        old(self).cost,
                    )
                } else {
                    &&& r.0 == SignalOutcome::InsufficientFunds
                    &&& *final(player) == *old(player)
                    &&& r.1@ == Seq::<StoreWrite>::empty()
                },
                _ => {
                    &&& r.0 == SignalOutcome::Cancelled
                    &&& *final(player) == *old(player)
                    &&& r.1@ == Seq::<StoreWrite>::empty()
                },
            },
    {
        if !matches!(self.state, WorkflowState::Pending) || actor_id != self.buyer_id {
            return (SignalOutcome::Ignored, Vec::new());
        }
        match signal {
            PurchaseSignal::Accept => {
                if player.coins >= self.cost {
                    player.coins = player.coins - self.cost;
                    player.give_item(ItemType::Pallet, self.species_id, 1);
                    self.state = WorkflowState::Confirmed;
                    let mut writes: Vec<StoreWrite> = Vec::new();
                    writes.push(
                        StoreWrite::AdjustBalance { player_id: player.id, delta: 0 - self.cost },
                    );
                    writes.push(
                        StoreWrite::AdjustStorage {
                            player_id: player.id,
                            item_type: ItemType::Pallet,
                            item_id: self.species_id,
                            delta: 1,
                            guard_nonnegative: false,
                        },
                    );
                    proof {
                        assert(writes@ =~= spec_purchase_writes(
                            old(player).id,
                            old(self).species_id,
                            old(self).cost,
                        ));
                    }
                    (SignalOutcome::Confirmed, writes)
                } else {
                    self.state = WorkflowState::Cancelled;
                    (SignalOutcome::InsufficientFunds, Vec::new())
                }
            },
            _ => {
                self.state = WorkflowState::Cancelled;
                (SignalOutcome::Cancelled, Vec::new())
            },
        }
    }

    /// Observe the clock: a workflow still pending after the wait window
    /// times out; anything else is left alone. No mutation ever follows
    /// a timeout.
    pub fn handle_timeout(&mut self, now: u64) -> (timed_out: bool)
        ensures
            final(self).buyer_id == old(self).buyer_id,
            final(self).species_id == old(self).species_id,
            final(self).cost == old(self).cost,
            final(self).created_at == old(self).created_at,
            final(self).state == spec_state_after_timeout(*old(self), now),
            timed_out == (old(self).state is Pending && now - old(self).created_at
                >= PURCHASE_TIMEOUT_SECS),
            !timed_out ==> *final(self) == *old(self),
    {
        if matches!(self.state, WorkflowState::Pending) && now >= self.created_at && now
            - self.created_at >= PURCHASE_TIMEOUT_SECS {
            self.state = WorkflowState::TimedOut;
            true
        } else {
            false
        }
    }
}

/// Exactly one terminal transition fires per workflow instance: once a
/// first signal has left Pending, every later signal — re-sending accept
/// after a decline, or the reverse — and every later timeout check
/// leaves the state exactly where the first transition put it.
pub proof fn lemma_one_terminal_transition(
    t: ShopTransaction,
    coins1: int,
    a1: u64,
    s1: PurchaseSignal,
    coins2: int,
    a2: u64,
    s2: PurchaseSignal,
    now: u64,
)
    requires
        t.state is Pending,
        spec_state_after_signal(t, coins1, a1, s1) != WorkflowState::Pending,
    ensures
        ({
            let t1 = ShopTransaction { state: spec_state_after_signal(t, coins1, a1, s1), ..t };
            &&& spec_state_after_signal(t1, coins2, a2, s2) == t1.state
            &&& spec_state_after_timeout(t1, now) == t1.state
        }),
{
}

} // verus!
