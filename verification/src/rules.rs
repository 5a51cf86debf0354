//! Per-capability channel rules: a global default plus per-channel
//! overrides, with the durable-write instruction each mutation requires.

use vstd::prelude::*;
use std::collections::HashMap;

verus! {

/// What an operator may set a rule scope to.
#[derive(Debug, Clone, Copy, PartialEq, Eq, Structural)]
pub enum RuleSetting {
    Allow,
    Deny,
    /// Drop a channel's override (fall back to the global default); on the
    /// whole-community scope, reset the default to allowed.
    Inherit,
}

/// The durable write that must accompany one rule mutation.
#[derive(Debug, Clone, Copy, PartialEq, Eq, Structural)]
pub enum RuleWrite {
    Upsert { scope: u64, allowed: bool },
    Delete { scope: u64 },
}

/// Per-channel boolean rules for one capability. Scope 0 stands for the
/// whole community; any other scope is a channel id.
#[derive(Debug)]
pub struct Rules {
    /// The community-wide default.
    pub global: bool,
    /// Per-channel overrides; a channel with no entry inherits the default.
    pub channels: HashMap<u64, bool>,
}

/// The channel overrides described by a sequence of (scope, allowance)
/// store rows: every row with a non-zero scope, later rows winning.
pub open spec fn spec_channels_of(rows: Seq<(u64, bool)>) -> Map<u64, bool>
    decreases rows.len(),
{
    if rows.len() == 0 {
        Map::empty()
    } else {
        let prev = spec_channels_of(rows.drop_last());
        if rows.last().0 == 0 {
            prev
        } else {
            prev.insert(rows.last().0, rows.last().1)
        }
    }
}

/// The global default described by store rows ordered by ascending scope:
/// a leading scope-0 row, or allowed when there is none.
pub open spec fn spec_global_of(rows: Seq<(u64, bool)>) -> bool {
    if rows.len() > 0 && rows[0].0 == 0 {
        rows[0].1
    } else {
        true
    }
}

/// How one `set` call moves a rule table from `r0` to `r1`.
pub open spec fn spec_set_post(r0: Rules, r1: Rules, scope: u64, setting: RuleSetting) -> bool {
    &&& r1.global == (if scope == 0 {
        setting != RuleSetting::Deny
    } else {
        r0.global
    })
    &&& r1.channels@ == (if scope == 0 {
        r0.channels@
    } else {
        match setting {
            RuleSetting::Allow => r0.channels@.insert(scope, true),
            RuleSetting::Deny => r0.channels@.insert(scope, false),
            RuleSetting::Inherit => r0.channels@.remove(scope),
        }
    })
}

/// The durable write one `set` call requires: allow/deny upserts the
/// row, inherit deletes it.
pub open spec fn spec_set_write(scope: u64, setting: RuleSetting) -> RuleWrite {
    match setting {
        RuleSetting::Allow => RuleWrite::Upsert { scope, allowed: true },
        RuleSetting::Deny => RuleWrite::Upsert { scope, allowed: false },
        RuleSetting::Inherit => RuleWrite::Delete { scope },
    }
}

impl Rules {
    /// What `check` answers for a channel: its override if present, else
    /// the global default.
    pub open spec fn spec_check(self, channel_id: u64) -> bool {
        if self.channels@.contains_key(channel_id) {
            self.channels@[channel_id]
        } else {
            self.global
        }
    }

    /// A rule table with no overrides.
    pub fn new(global: bool) -> (r: Rules)
        ensures
            r.global == global,
            r.channels@ == Map::<u64, bool>::empty(),
    {
        Rules { global, channels: HashMap::new() }
    }

    /// Rebuild a rule table from its store rows, ordered by ascending
    /// scope (so a whole-community row comes first).
    pub fn from_rows(rows: &Vec<(u64, bool)>) -> (r: Rules)
        ensures
            r.global == spec_global_of(rows@),
            r.channels@ == spec_channels_of(rows@),
    {
        let mut channels: HashMap<u64, bool> = HashMap::new();
        let n = rows.len();
        let mut i: usize = 0;
        while i < n
            invariant
                n == rows@.len(),
                i <= n,
                channels@ == spec_channels_of(rows@.take(i as int)),
            decreases n - i,
        {
            let (scope, allowance) = rows[i];
            if scope != 0 {
                channels.insert(scope, allowance);
            }
            proof {
                assert(rows@.take(i + 1int).drop_last() =~= rows@.take(i as int));
                assert(rows@.take(i + 1int).last() == rows@[i as int]);
            }
            i += 1;
        }
        proof {
            assert(rows@.take(n as int) =~= rows@);
        }
        let global = if n > 0 && rows[0].0 == 0 {
            rows[0].1
        } else {
            true
        };
        Rules { global, channels }
    }

    /// The channel's override if one exists, else the global default.
    /// Total: there is no error path.
    pub fn check(&self, channel_id: &u64) -> (allowed: bool)
        ensures
            allowed == self.spec_check(*channel_id),
    {
        if let Some(flag) = self.channels.get(channel_id) {
            *flag
        } else {
            self.global
        }
    }

    /// Apply one operator setting and report the durable write it needs:
    /// allow/deny upserts a row, inherit deletes one. On scope 0 the
    /// global default is set directly (inherit resets it to allowed) and
    /// no override is touched; on a channel scope, allow/deny installs an
    /// override and inherit removes it.
    pub fn set(&mut self, scope: u64, setting: RuleSetting) -> (write: RuleWrite)
        ensures
            spec_set_post(*old(self), *final(self), scope, setting),
            write == spec_set_write(scope, setting),
    {
        match setting {
            RuleSetting::Inherit => {
                if scope == 0 {
                    self.global = true;
                } else {
                    self.channels.remove(&scope);
                }
                RuleWrite::Delete { scope }
            },
            _ => {
                let allowed = matches!(setting, RuleSetting::Allow);
                if scope == 0 {
                    self.global = allowed;
                } else {
                    self.channels.insert(scope, allowed);
                }
                RuleWrite::Upsert { scope, allowed }
            },
        }
    }
}

/// Whether a list holds a channel id.
fn vec_contains_channel(v: &Vec<u64>, x: u64) -> (found: bool)
    ensures
        found == v@.contains(x),
{
    let n = v.len();
    let mut i: usize = 0;
    while i < n
        invariant
            n == v@.len(),
            i <= n,
            forall|j: int| 0 <= j < i ==> v@[j] != x,
        decreases n - i,
    {
        if v[i] == x {
            return true;
        }
        i += 1;
    }
    false
}

impl Rules {
    /// The channels whose override differs from the global default: the
    /// exceptions an overview of this rule table must call out. Every
    /// such channel appears exactly once, in no promised order.
    pub fn exception_channels(&self) -> (r: Vec<u64>)
        ensures
            forall|i: int|
                0 <= i < r@.len() ==> self.channels@.contains_key(#[trigger] r@[i])
                    && self.channels@[r@[i]] != self.global,
            forall|c: u64|
                #[trigger] self.channels@.contains_key(c) && self.channels@[c] != self.global
                    ==> r@.contains(c),
            r@.no_duplicates(),
    {
        let mut r: Vec<u64> = Vec::new();
        for pair in it: self.channels.iter()
            invariant
                forall|i: int|
                    0 <= i < r@.len() ==> self.channels@.contains_key(#[trigger] r@[i])
                        && self.channels@[r@[i]] != self.global,
                forall|j: int|
                    0 <= j < it.index() ==> ((*(#[trigger] it.seq()[j]).1 != self.global)
                        ==> r@.contains(*it.seq()[j].0)),
                r@.no_duplicates(),
        {
            let (channel, allowed) = pair;
            let ghost r_before = r@;
            if *allowed != self.global && !vec_contains_channel(&r, *channel) {
                r.push(*channel);
            }
            proof {
                let idx = it.index();
                assert forall|j: int|
                    0 <= j < idx + 1 && (*(#[trigger] it.seq()[j]).1 != self.global) implies
                    r@.contains(*it.seq()[j].0) by {
                    if j < idx {
                        if r_before.contains(*it.seq()[j].0) {
                            let w = choose|w: int|
                                0 <= w < r_before.len() && r_before[w] == *it.seq()[j].0;
                            assert(r@[w] == *it.seq()[j].0);
                        }
                    } else {
                        if r_before.contains(*channel) {
                            let w = choose|w: int|
                                0 <= w < r_before.len() && r_before[w] == *channel;
                            assert(r@[w] == *channel);
                        } else {
                            assert(r@[r@.len() - 1] == *channel);
                        }
                    }
                }
            }
        }
        r
    }
}

/// A setting is observable through `check` exactly as stored: after
/// allow/deny on a channel, that channel's check answers the setting; after
/// inherit, the channel falls back to the global default; a whole-community
/// setting moves the default without touching other channels' overrides.
pub proof fn lemma_set_then_check(r0: Rules, r1: Rules, scope: u64, setting: RuleSetting)
    requires
        spec_set_post(r0, r1, scope, setting),
    ensures
        scope != 0 && setting == RuleSetting::Allow ==> r1.spec_check(scope),
        scope != 0 && setting == RuleSetting::Deny ==> !r1.spec_check(scope),
        scope != 0 && setting == RuleSetting::Inherit ==> r1.spec_check(scope) == r1.global
            && !r1.channels@.contains_key(scope),
        scope == 0 ==> forall|c: u64|
            r0.channels@.contains_key(c) ==> #[trigger] r1.spec_check(c) == r0.spec_check(c),
{
}

} // verus!
