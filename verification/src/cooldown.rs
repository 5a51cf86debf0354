//! The planting rate limiter: last-action instants per actor,
//! process-local and non-persistent.

use vstd::prelude::*;
use std::collections::HashMap;

verus! {

/// Per-actor cooldown tracking for the planting action. Instants are
/// whole seconds on the caller's monotonic clock.
#[derive(Debug)]
pub struct PlantCooldown {
    /// When each actor last got through the limiter. Actors under a zero
    /// cooldown are never recorded, so disabling the limiter costs no
    /// memory.
    pub last_action: HashMap<u64, u64>,
}

impl PlantCooldown {
    /// Whether the limiter lets an actor through at `now`: always under
    /// a zero cooldown, otherwise only with no prior record or one at
    /// least `cooldown_seconds` old.
    pub open spec fn spec_allows(m: Map<u64, u64>, actor_id: u64, now: u64, cooldown_seconds: u64) -> bool {
        cooldown_seconds == 0 || !m.contains_key(actor_id) || now - m[actor_id]
            >= cooldown_seconds
    }

    /// The tracker contents after one gate decision: touched to `now`
    /// exactly when a non-zero cooldown let the actor through.
    pub open spec fn spec_after(m: Map<u64, u64>, actor_id: u64, now: u64, cooldown_seconds: u64) -> Map<u64, u64> {
        if cooldown_seconds > 0 && Self::spec_allows(m, actor_id, now, cooldown_seconds) {
            m.insert(actor_id, now)
        } else {
            m
        }
    }

    /// An empty tracker.
    pub fn new() -> (t: PlantCooldown)
        ensures
            t.last_action@ == Map::<u64, u64>::empty(),
    {
        PlantCooldown { last_action: HashMap::new() }
    }

    /// Decide whether a rate-limited action may run at `now` and, if so,
    /// record the instant before the gated work is attempted — never
    /// after — so that near-simultaneous triggers cannot all pass against
    /// a stale record. A zero cooldown always allows and never records.
    pub fn check_and_touch(&mut self, actor_id: u64, now: u64, cooldown_seconds: u64) -> (allowed:
        bool)
        ensures
            allowed == Self::spec_allows(old(self).last_action@, actor_id, now, cooldown_seconds),
            final(self).last_action@ == Self::spec_after(
                old(self).last_action@,
                actor_id,
                now,
                cooldown_seconds,
            ),
    {
        if cooldown_seconds == 0 {
            return true;
        }
        let allowed = match self.last_action.get(&actor_id) {
            Some(prior) => now >= *prior && now - *prior >= cooldown_seconds,
            None => true,
        };
        if allowed {
            self.last_action.insert(actor_id, now);
        }
        allowed
    }
}

/// Under a cooldown `c > 0`, once the limiter lets an actor through at
/// `t0`, a second trigger is rejected while less than `c` seconds have
/// elapsed and accepted once at least `c` seconds have.
pub proof fn lemma_cooldown_gate(m: Map<u64, u64>, actor_id: u64, t0: u64, t1: u64, c: u64)
    requires
        c > 0,
        PlantCooldown::spec_allows(m, actor_id, t0, c),
    ensures
        t1 - t0 < c ==> !PlantCooldown::spec_allows(
            PlantCooldown::spec_after(m, actor_id, t0, c),
            actor_id,
            t1,
            c,
        ),
        t1 - t0 >= c ==> PlantCooldown::spec_allows(
            PlantCooldown::spec_after(m, actor_id, t0, c),
            actor_id,
            t1,
            c,
        ),
{
}

} // verus!
