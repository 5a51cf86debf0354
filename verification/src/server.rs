//! The community ("server") aggregate: configuration, capability rules,
//! the species catalog and the nested member cache.

use vstd::prelude::*;
use crate::cache::OneDatabaseCache;
use crate::cache::ParentedOneDatabaseCache;
use crate::models::Player;
use crate::models::Species;
use crate::rules::RuleSetting;
use crate::rules::RuleWrite;
use crate::rules::Rules;
use crate::MAX_PLANT_COOLDOWN;

verus! {

/// The two gateable capabilities a rule table can govern.
#[derive(Debug, Clone, Copy, PartialEq, Eq, Structural)]
pub enum RuleKind {
    /// Planting ("growth").
    Forest,
    /// Command execution.
    Commands,
}

impl RuleKind {
    /// The integer code the store uses for this capability.
    pub fn to_i16(self) -> (v: i16)
        ensures
            v == (if self is Forest { 1int } else { 2int }),
    {
        match self {
            RuleKind::Forest => 1,
            RuleKind::Commands => 2,
        }
    }
}

/// The durable write one community-settings edit requires.
#[derive(Debug)]
pub enum ServerWrite {
    UpdatePrefix { server_id: i64, prefix: String },
    UpdateCooldown { server_id: i64, cooldown: i16 },
}

/// A rule edit's durable write, tagged with the community and capability
/// whose rule row it touches.
#[derive(Debug, Clone, Copy, PartialEq, Eq, Structural)]
pub struct RuleEditWrite {
    pub server_id: i64,
    pub kind: RuleKind,
    pub write: RuleWrite,
}

/// The built-in five-species catalog, field by field.
pub open spec fn spec_is_default_catalog(c: Seq<Species>) -> bool {
    &&& c.len() == 5
    &&& c[0].id == 1 && c[0].emoji@ == "\u{1F332}"@ && c[0].name@ == "Evergreen Tree"@ && c[0].pallet_cost
        == 0 && c[0].default_qty == -1 && c[0].coins == 1
    &&& c[1].id == 2 && c[1].emoji@ == "\u{1F333}"@ && c[1].name@ == "Deciduous Tree"@ && c[1].pallet_cost
        == 12 && c[1].default_qty == 50 && c[1].coins == 1
    &&& c[2].id == 3 && c[2].emoji@ == "\u{1F334}"@ && c[2].name@ == "Palm Tree"@ && c[2].pallet_cost
        == 15 && c[2].default_qty == 30 && c[2].coins == 1
    &&& c[3].id == 4 && c[3].emoji@ == "\u{1F335}"@ && c[3].name@ == "Cactus"@ && c[3].pallet_cost
        == 25 && c[3].default_qty == 20 && c[3].coins == 2
    &&& c[4].id == 5 && c[4].emoji@ == "\u{1F38D}"@ && c[4].name@ == "Bamboo"@ && c[4].pallet_cost
        == 50 && c[4].default_qty == 10 && c[4].coins == 3
}

/// A catalog is well-formed when no two species share an id or a glyph.
pub open spec fn spec_catalog_wf(s: Seq<Species>) -> bool {
    forall|i: int, j: int|
        0 <= i < j < s.len() ==> (#[trigger] s[i]).id != (#[trigger] s[j]).id && s[i].emoji@
            != s[j].emoji@
}

/// A community with all its linked data cached.
#[derive(Debug)]
pub struct Server {
    /// Chat-network community id, as the store records it.
    pub id: i64,
    /// Command prefix.
    pub prefix: String,
    /// Language the community uses (only English is supported).
    pub lang: String,
    /// Channel rules for where trees can be planted.
    pub forest_rules: Rules,
    /// Cooldown in seconds between two plantings by one member.
    pub plant_cooldown: i16,
    /// Channel rules for where commands can be executed.
    pub commands_rules: Rules,
    /// The species catalog.
    pub species: Vec<Species>,
    /// The community's members, loaded lazily.
    pub player_cache: ParentedOneDatabaseCache<Player>,
}

/// The community cache: tier one of the entity cache.
#[derive(Debug)]
pub struct ServerCache(pub OneDatabaseCache<Server>);

impl Server {
    /// A well-formed community has a well-formed catalog.
    pub open spec fn wf(self) -> bool {
        spec_catalog_wf(self.species@)
    }

    /// The catalog entry with a given id, if any.
    pub open spec fn spec_species_by_id(self, id: i16) -> Option<Species> {
        if exists|i: int| 0 <= i < self.species@.len() && (#[trigger] self.species@[i]).id == id {
            Some(
                self.species@[
                    choose|i: int|
                        0 <= i < self.species@.len() && (#[trigger] self.species@[i]).id == id
                ],
            )
        } else {
            None
        }
    }

    /// The id of the catalog entry with a given glyph, if any.
    pub open spec fn spec_species_by_emoji(self, emoji: Seq<char>) -> Option<i16> {
        if exists|i: int|
            0 <= i < self.species@.len() && (#[trigger] self.species@[i]).emoji@ == emoji {
            Some(
                self.species@[
                    choose|i: int|
                        0 <= i < self.species@.len() && (#[trigger] self.species@[i]).emoji@
                            == emoji
                ].id,
            )
        } else {
            None
        }
    }

    /// The catalog entry with a given id.
    pub fn species_by_id(&self, id: i16) -> (r: Option<&Species>)
        requires
            self.wf(),
        ensures
            match r {
                Some(sp) => self.spec_species_by_id(id) == Some(*sp),
                None => self.spec_species_by_id(id) is None,
            },
    {
        let n = self.species.len();
        let mut i: usize = 0;
        while i < n
            invariant
                n == self.species@.len(),
                i <= n,
                self.wf(),
                forall|j: int| 0 <= j < i ==> (#[trigger] self.species@[j]).id != id,
            decreases n - i,
        {
            let sp = &self.species[i];
            if sp.id == id {
                proof {
                    let w = choose|w: int|
                        0 <= w < self.species@.len() && (#[trigger] self.species@[w]).id == id;
                    if w != i {
                        assert(self.species@[w].id != self.species@[i as int].id);
                    }
                }
                return Some(sp);
            }
            i += 1;
        }
        None
    }

    /// The id of the catalog entry whose glyph matches a trigger token.
    pub fn species_by_emoji(&self, emoji: &String) -> (r: Option<i16>)
        requires
            self.wf(),
        ensures
            r == self.spec_species_by_emoji(emoji@),
    {
        let n = self.species.len();
        let mut i: usize = 0;
        while i < n
            invariant
                n == self.species@.len(),
                i <= n,
                self.wf(),
                forall|j: int| 0 <= j < i ==> (#[trigger] self.species@[j]).emoji@ != emoji@,
            decreases n - i,
        {
            let sp = &self.species[i];
            if sp.emoji == *emoji {
                proof {
                    let w = choose|w: int|
                        0 <= w < self.species@.len() && (#[trigger] self.species@[w]).emoji@
                            == emoji@;
                    if w != i {
                        assert(self.species@[w].emoji@ != self.species@[i as int].emoji@);
                    }
                }
                return Some(sp.id);
            }
            i += 1;
        }
        None
    }

    /// The catalog entries open for purchase (non-zero cost), in catalog
    /// order.
    pub fn buyable_species(&self) -> (r: Vec<Species>)
        ensures
            r@ == self.species@.filter(|sp: Species| sp.pallet_cost > 0),
    {
        let mut r: Vec<Species> = Vec::new();
        let n = self.species.len();
        let mut i: usize = 0;
        while i < n
            invariant
                n == self.species@.len(),
                i <= n,
                r@ == self.species@.take(i as int).filter(|sp: Species| sp.pallet_cost > 0),
            decreases n - i,
        {
            let sp = &self.species[i];
            if sp.pallet_cost > 0 {
                r.push(sp.clone());
            }
            proof {
                reveal(Seq::filter);
                assert(self.species@.take(i + 1int).drop_last() =~= self.species@.take(i as int));
                assert(self.species@.take(i + 1int).last() == self.species@[i as int]);
                assert(self.species@.take(i + 1int).filter(|sp: Species| sp.pallet_cost > 0)
                    =~= if self.species@[i as int].pallet_cost > 0 {
                    self.species@.take(i as int).filter(|sp: Species| sp.pallet_cost > 0).push(
                        self.species@[i as int],
                    )
                } else {
                    self.species@.take(i as int).filter(|sp: Species| sp.pallet_cost > 0)
                });
            }
            i += 1;
        }
        proof {
            assert(self.species@.take(n as int) =~= self.species@);
        }
        r
    }

    /// The built-in species catalog every community starts with.
    pub fn default_catalog() -> (catalog: Vec<Species>)
        ensures
            spec_catalog_wf(catalog@),
            spec_is_default_catalog(catalog@),
    {
        let mut catalog: Vec<Species> = Vec::new();
        catalog.push(
            Species {
                id: 1,
                emoji: "\u{1F332}".to_owned(),
                name: "Evergreen Tree".to_owned(),
                pallet_cost: 0,
                default_qty: -1,
                coins: 1,
            },
        );
        catalog.push(
            Species {
                id: 2,
                emoji: "\u{1F333}".to_owned(),
                name: "Deciduous Tree".to_owned(),
                pallet_cost: 12,
                default_qty: 50,
                coins: 1,
            },
        );
        catalog.push(
            Species {
                id: 3,
                emoji: "\u{1F334}".to_owned(),
                name: "Palm Tree".to_owned(),
                pallet_cost: 15,
                default_qty: 30,
                coins: 1,
            },
        );
        catalog.push(
            Species {
                id: 4,
                emoji: "\u{1F335}".to_owned(),
                name: "Cactus".to_owned(),
                pallet_cost: 25,
                default_qty: 20,
                coins: 2,
            },
        );
        catalog.push(
            Species {
                id: 5,
                emoji: "\u{1F38D}".to_owned(),
                name: "Bamboo".to_owned(),
                pallet_cost: 50,
                default_qty: 10,
                coins: 3,
            },
        );
        proof {
            reveal_strlit("\u{1F332}");
            reveal_strlit("\u{1F333}");
            reveal_strlit("\u{1F334}");
            reveal_strlit("\u{1F335}");
            reveal_strlit("\u{1F38D}");
            assert forall|i: int, j: int| 0 <= i < j < catalog@.len() implies (
            #[trigger] catalog@[i]).id != (#[trigger] catalog@[j]).id && catalog@[i].emoji@ != (
            catalog@[j]).emoji@ by {
                assert(catalog@[i].emoji@[0] != catalog@[j].emoji@[0]);
            }
        }
        catalog
    }

    /// Assemble a community aggregate from its store row, rule rows and
    /// the built-in catalog, with an empty member cache. The compute part
    /// of the first-use load; the store round trips around it happen
    /// outside this crate.
    pub fn from_row(
        id: i64,
        guild_id: u64,
        prefix: String,
        lang: String,
        plant_cooldown: i16,
        forest_rules: Rules,
        commands_rules: Rules,
    ) -> (s: Server)
        ensures
            s.wf(),
            s.id == id,
            s.prefix == prefix,
            s.lang == lang,
            s.plant_cooldown == plant_cooldown,
            s.forest_rules == forest_rules,
            s.commands_rules == commands_rules,
            spec_is_default_catalog(s.species@),
            s.player_cache@ == Map::<u64, Player>::empty(),
            s.player_cache.parent == guild_id,
    {
        Server {
            id,
            prefix,
            lang,
            forest_rules,
            plant_cooldown,
            commands_rules,
            species: Server::default_catalog(),
            player_cache: ParentedOneDatabaseCache::new(guild_id),
        }
    }

    /// Change the command prefix and report the durable write that makes
    /// it stick.
    pub fn set_prefix(&mut self, prefix: String) -> (w: ServerWrite)
        ensures
            *final(self) == (Server { prefix: prefix, ..*old(self) }),
            w == (ServerWrite::UpdatePrefix { server_id: old(self).id, prefix: prefix }),
    {
        self.prefix = prefix.clone();
        ServerWrite::UpdatePrefix { server_id: self.id, prefix }
    }

    /// Change the planting cooldown, refusing anything outside 0 to
    /// MAX_PLANT_COOLDOWN seconds; on success report the durable write.
    /// Nothing changes on a refused value.
    pub fn set_cooldown(&mut self, cooldown: i16) -> (w: Option<ServerWrite>)
        ensures
            0 <= cooldown <= MAX_PLANT_COOLDOWN ==> *final(self) == (Server {
                plant_cooldown: cooldown,
                ..*old(self)
            }) && w == Some(
                ServerWrite::UpdateCooldown { server_id: old(self).id, cooldown: cooldown },
            ),
            !(0 <= cooldown <= MAX_PLANT_COOLDOWN) ==> *final(self) == *old(self) && w is None,
    {
        if 0 <= cooldown && cooldown <= MAX_PLANT_COOLDOWN {
            self.plant_cooldown = cooldown;
            Some(ServerWrite::UpdateCooldown { server_id: self.id, cooldown })
        } else {
            None
        }
    }

    /// Edit one capability's rule for a scope (0 for the whole community,
    /// a channel id otherwise) and report the durable write, tagged with
    /// this community and the capability. Only the addressed rule table
    /// changes.
    pub fn set_rule(&mut self, kind: RuleKind, scope: u64, setting: RuleSetting) -> (w:
        RuleEditWrite)
        ensures
            kind is Forest ==> crate::rules::spec_set_post(
                old(self).forest_rules,
                final(self).forest_rules,
                scope,
                setting,
            ) && final(self).commands_rules == old(self).commands_rules,
            kind is Commands ==> crate::rules::spec_set_post(
                old(self).commands_rules,
                final(self).commands_rules,
                scope,
                setting,
            ) && final(self).forest_rules == old(self).forest_rules,
            final(self).id == old(self).id,
            final(self).prefix == old(self).prefix,
            final(self).lang == old(self).lang,
            final(self).plant_cooldown == old(self).plant_cooldown,
            final(self).species == old(self).species,
            final(self).player_cache == old(self).player_cache,
            w == (RuleEditWrite {
                server_id: old(self).id,
                kind,
                write: crate::rules::spec_set_write(scope, setting),
            }),
    {
        let write = match kind {
            RuleKind::Forest => self.forest_rules.set(scope, setting),
            RuleKind::Commands => self.commands_rules.set(scope, setting),
        };
        RuleEditWrite { server_id: self.id, kind, write }
    }
}

} // verus!
