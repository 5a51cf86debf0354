//! The action resolver for the planting trigger: given a classified
//! trigger it consults the rules, the cooldown gate and the member's
//! storage, mutates the cached aggregates and emits the durable writes
//! that make the outcome stick.

use vstd::prelude::*;
use crate::cooldown::PlantCooldown;
use crate::models::spec_has_material;
use crate::models::spec_storage_after_plant;
use crate::models::ItemType;
use crate::models::Player;
use crate::models::Species;
use crate::server::Server;

verus! {

/// One durable-write instruction for the persistent store. The resolver
/// only emits these; running them is the surrounding process's job.
#[derive(Debug, Clone, Copy, PartialEq, Eq, Structural)]
pub enum StoreWrite {
    /// Add `delta` to a member's storage row, inserting it if missing;
    /// with `guard_nonnegative`, the store applies a decrement only while
    /// the stored amount is still positive, so concurrent decrements
    /// cannot drive a finite row negative and never touch an unlimited
    /// (-1) row.
    AdjustStorage {
        player_id: i32,
        item_type: ItemType,
        item_id: i16,
        delta: i32,
        guard_nonnegative: bool,
    },
    /// Add `delta` to a member's coin balance.
    AdjustBalance { player_id: i32, delta: i32 },
    /// Count one planting of a species by an actor in a channel.
    UpsertActionCount { species_id: i16, user_id: u64, channel_id: u64, guild_id: u64 },
}

/// How a planting trigger resolved.
#[derive(Debug, Clone, Copy, PartialEq, Eq, Structural)]
pub enum PlantOutcome {
    /// The growth rules deny this channel; nothing happened (silent).
    Denied,
    /// The actor is still cooling down; nothing happened (silent).
    CooldownActive,
    /// No seedling of this species on hand; nothing economic happened.
    MissingMaterial,
    /// One seedling consumed (unless unlimited) and the reward credited.
    Success { species_id: i16, reward: i32 },
}

/// The three writes a successful planting owes the store (two when the
/// species carries no reward): the guarded storage decrement, the
/// planting count upsert, and the balance credit.
pub open spec fn spec_plant_writes(
    player_id: i32,
    species_id: i16,
    user_id: u64,
    channel_id: u64,
    guild_id: u64,
    reward: i32,
) -> Seq<StoreWrite> {
    let base = seq![
        (StoreWrite::AdjustStorage {
            player_id,
            item_type: ItemType::Seedling,
            item_id: species_id,
            delta: -1i32,
            guard_nonnegative: true,
        }),
        (StoreWrite::UpsertActionCount { species_id, user_id, channel_id, guild_id }),
    ];
    if reward > 0 {
        base.push(StoreWrite::AdjustBalance { player_id, delta: reward })
    } else {
        base
    }
}

/// The storage upserts owed to the store for seeding a brand-new member:
/// one per catalog species with a non-zero default grant, in catalog
/// order.
pub open spec fn spec_seed_writes(c: Seq<Species>, player_id: i32) -> Seq<StoreWrite>
    decreases c.len(),
{
    if c.len() == 0 {
        Seq::empty()
    } else {
        let rest = spec_seed_writes(c.drop_last(), player_id);
        let sp = c.last();
        if sp.default_qty == -1 || sp.default_qty > 0 {
            rest.push(
                StoreWrite::AdjustStorage {
                    player_id,
                    item_type: ItemType::Seedling,
                    item_id: sp.id,
                    delta: sp.default_qty,
                    guard_nonnegative: false,
                },
            )
        } else {
            rest
        }
    }
}

/// The storage a brand-new member ends up with: each catalog species'
/// default grant, skipping zero defaults.
pub open spec fn spec_seeded_storage(c: Seq<Species>) -> Map<(ItemType, i16), i32>
    decreases c.len(),
{
    if c.len() == 0 {
        Map::empty()
    } else {
        let prev = spec_seeded_storage(c.drop_last());
        let sp = c.last();
        if sp.default_qty == -1 || sp.default_qty > 0 {
            prev.insert((ItemType::Seedling, sp.id), sp.default_qty)
        } else {
            prev
        }
    }
}

/// Every key of a seeded storage carries some catalog species' id.
proof fn lemma_seeded_storage_keys(c: Seq<Species>, k: (ItemType, i16))
    requires
        spec_seeded_storage(c).contains_key(k),
    ensures
        exists|j: int| 0 <= j < c.len() && (#[trigger] c[j]).id == k.1,
    decreases c.len(),
{
    if c.len() > 0 {
        let sp = c.last();
        if (sp.default_qty == -1 || sp.default_qty > 0) && k == (ItemType::Seedling, sp.id) {
            assert(c[c.len() - 1].id == k.1);
        } else {
            lemma_seeded_storage_keys(c.drop_last(), k);
            let j = choose|j: int|
                0 <= j < c.drop_last().len() && (#[trigger] c.drop_last()[j]).id == k.1;
            assert(c[j].id == k.1);
        }
    }
}

/// Grant a brand-new member each catalog species' default seedlings
/// (skipping zero defaults, keeping -1 as an unlimited grant) and report
/// the storage upserts owed to the store. The member must still have the
/// fresh, empty storage its default store row was created with.
pub fn seed_player_defaults(player: &mut Player, catalog: &Vec<Species>) -> (writes: Vec<
    StoreWrite,
>)
    requires
        old(player).wf(),
        old(player).storage@ == Map::<(ItemType, i16), i32>::empty(),
        crate::server::spec_catalog_wf(catalog@),
    ensures
        final(player).wf(),
        final(player).storage@ == spec_seeded_storage(catalog@),
        final(player).coins == old(player).coins,
        final(player).id == old(player).id,
        final(player).user_id == old(player).user_id,
        final(player).guild_id == old(player).guild_id,
        final(player).newly_created == old(player).newly_created,
        writes@ == spec_seed_writes(catalog@, old(player).id),
{
    let mut writes: Vec<StoreWrite> = Vec::new();
    let n = catalog.len();
    let mut i: usize = 0;
    while i < n
        invariant
            n == catalog@.len(),
            i <= n,
            player.wf(),
            crate::server::spec_catalog_wf(catalog@),
            player.storage@ == spec_seeded_storage(catalog@.take(i as int)),
            player.coins == old(player).coins,
            player.id == old(player).id,
            player.user_id == old(player).user_id,
            player.guild_id == old(player).guild_id,
            player.newly_created == old(player).newly_created,
            writes@ == spec_seed_writes(catalog@.take(i as int), old(player).id),
        decreases n - i,
    {
        let sp = &catalog[i];
        proof {
            assert(catalog@.take(i + 1int).drop_last() =~= catalog@.take(i as int));
            assert(catalog@.take(i + 1int).last() == catalog@[i as int]);
            if player.storage@.contains_key((ItemType::Seedling, sp.id)) {
                lemma_seeded_storage_keys(catalog@.take(i as int), (ItemType::Seedling, sp.id));
                let j = choose|j: int|
                    0 <= j < catalog@.take(i as int).len() && (#[trigger] catalog@.take(
                        i as int,
                    )[j]).id == sp.id;
                assert(catalog@[j].id != catalog@[i as int].id);
            }
        }
        if sp.default_qty == -1 || sp.default_qty > 0 {
            player.give_item(ItemType::Seedling, sp.id, sp.default_qty);
            writes.push(
                StoreWrite::AdjustStorage {
                    player_id: player.id,
                    item_type: ItemType::Seedling,
                    item_id: sp.id,
                    delta: sp.default_qty,
                    guard_nonnegative: false,
                },
            );
        }
        i += 1;
    }
    proof {
        assert(catalog@.take(n as int) =~= catalog@);
    }
    writes
}

/// Resolve one classified planting trigger against the community's
/// state, as one atomic in-memory step.
///
/// The channel must pass the growth rules and the actor the cooldown
/// gate; the cooldown record is touched before the gated work, never
/// after. On success one seedling is consumed (finite supplies only) and
/// the species' reward credited, and the durable writes of
/// `spec_plant_writes` are owed. On every other outcome no economic
/// state changes and no write is owed.
pub fn resolve_plant(
    server: &mut Server,
    cooldown: &mut PlantCooldown,
    user_id: u64,
    channel_id: u64,
    species_id: i16,
    now: u64,
) -> (r: (PlantOutcome, Vec<StoreWrite>))
    requires
        old(server).wf(),
        old(server).player_cache@.contains_key(user_id),
        old(server).player_cache@[user_id].wf(),
        old(server).spec_species_by_id(species_id) is Some,
        i32::MIN <= old(server).player_cache@[user_id].coins + old(server).spec_species_by_id(
            species_id,
        )->Some_0.coins <= i32::MAX,
    ensures
        final(server).wf(),
        final(server).id == old(server).id,
        final(server).prefix == old(server).prefix,
        final(server).lang == old(server).lang,
        final(server).plant_cooldown == old(server).plant_cooldown,
        final(server).forest_rules == old(server).forest_rules,
        final(server).commands_rules == old(server).commands_rules,
        final(server).species == old(server).species,
        final(server).player_cache.parent == old(server).player_cache.parent,
        ({
            let s0 = *old(server);
            let p0 = s0.player_cache@[user_id];
            let sp = s0.spec_species_by_id(species_id)->Some_0;
            let c = s0.plant_cooldown;
            let gate_open = !(c > 0) || PlantCooldown::spec_allows(
                old(cooldown).last_action@,
                user_id,
                now,
                c as u64,
            );
            if !s0.forest_rules.spec_check(channel_id) {
                &&& r.0 == PlantOutcome::Denied
                &&& r.1@ == Seq::<StoreWrite>::empty()
                &&& final(server).player_cache@ == s0.player_cache@
                &&& final(cooldown).last_action@ == old(cooldown).last_action@
            } else if !gate_open {
                &&& r.0 == PlantOutcome::CooldownActive
                &&& r.1@ == Seq::<StoreWrite>::empty()
                &&& final(server).player_cache@ == s0.player_cache@
                &&& final(cooldown).last_action@ == old(cooldown).last_action@
            } else {
                &&& final(cooldown).last_action@ == (if c > 0 {
                    old(cooldown).last_action@.insert(user_id, now)
                } else {
                    old(cooldown).last_action@
                })
                &&& if spec_has_material(p0, species_id) {
                    &&& r.0 == (PlantOutcome::Success { species_id, reward: sp.coins })
                    &&& final(server).player_cache@ == s0.player_cache@.insert(
                        user_id,
                        final(server).player_cache@[user_id],
                    )
                    &&& final(server).player_cache@[user_id].storage@ == spec_storage_after_plant(
                        p0.storage@,
                        species_id,
                    )
                    &&& final(server).player_cache@[user_id].coins == p0.coins + sp.coins
                    &&& final(server).player_cache@[user_id].id == p0.id
                    &&& final(server).player_cache@[user_id].user_id == p0.user_id
                    &&& final(server).player_cache@[user_id].guild_id == p0.guild_id
                    &&& final(server).player_cache@[user_id].wf()
                    &&& r.1@ == spec_plant_writes(
                        p0.id,
                        species_id,
                        user_id,
                        channel_id,
                        s0.player_cache.parent,
                        sp.coins,
                    )
                } else {
                    &&& r.0 == PlantOutcome::MissingMaterial
                    &&& r.1@ == Seq::<StoreWrite>::empty()
                    &&& final(server).player_cache@ == s0.player_cache@
                }
            }
        }),
{
    if !server.forest_rules.check(&channel_id) {
        return (PlantOutcome::Denied, Vec::new());
    }
    let c = server.plant_cooldown;
    if c > 0 {
        if !cooldown.check_and_touch(user_id, now, c as u64) {
            return (PlantOutcome::CooldownActive, Vec::new());
        }
    }
    let (reward, guild_id) = {
        let sp = server.species_by_id(species_id).unwrap();
        (sp.coins, server.player_cache.parent)
    };
    let mut player = server.player_cache.take(&user_id).unwrap();
    let player_id = player.id;
    let planted = player.plant_one(species_id, reward);
    server.player_cache.insert(user_id, player);
    if planted {
        let mut writes: Vec<StoreWrite> = Vec::new();
        writes.push(
            StoreWrite::AdjustStorage {
                player_id,
                item_type: ItemType::Seedling,
                item_id: species_id,
                delta: -1,
                guard_nonnegative: true,
            },
        );
        writes.push(StoreWrite::UpsertActionCount { species_id, user_id, channel_id, guild_id });
        if reward > 0 {
            writes.push(StoreWrite::AdjustBalance { player_id, delta: reward });
        }
        proof {
            assert(server.player_cache@ =~= old(server).player_cache@.insert(
                user_id,
                server.player_cache@[user_id],
            ));
            assert(writes@ =~= spec_plant_writes(
                player_id,
                species_id,
                user_id,
                channel_id,
                guild_id,
                reward,
            ));
        }
        (PlantOutcome::Success { species_id, reward }, writes)
    } else {
        proof {
            assert(server.player_cache@ =~= old(server).player_cache@);
        }
        (PlantOutcome::MissingMaterial, Vec::new())
    }
}

} // verus!
