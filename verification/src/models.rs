//! Core data model: item kinds, catalog species, member storage and the
//! member ("player") aggregate.

use vstd::prelude::*;
use vstd::pervasive::VecAdditionalExecFns;

verus! {

/// The two classes of items a member can hold in storage.
#[derive(Debug, Hash, PartialEq, Eq, Clone, Copy, Structural)]
pub enum ItemType {
    Pallet,
    Seedling,
}

impl ItemType {
    /// The store encodes item classes as small integers: 1 for pallets,
    /// 2 for seedlings. Any other code is a corrupt row and is refused
    /// by the precondition.
    pub fn from_i16(value: i16) -> (t: ItemType)
        requires
            1 <= value <= 2,
        ensures
            t == (if value == 1 { ItemType::Pallet } else { ItemType::Seedling }),
    {
        match value {
            1 => ItemType::Pallet,
            _ => ItemType::Seedling,
        }
    }

    /// The item class a store code denotes (spec mirror of `from_i16`).
    pub open spec fn spec_from_i16(value: i16) -> ItemType {
        if value == 1 {
            ItemType::Pallet
        } else {
            ItemType::Seedling
        }
    }

    /// The integer code the store uses for this item class.
    pub fn to_i16(self) -> (value: i16)
        ensures
            value == (if self is Pallet { 1int } else { 2int }),
    {
        match self {
            ItemType::Pallet => 1,
            ItemType::Seedling => 2,
        }
    }
}

/// A tree species of the community catalog: a plantable/purchasable item
/// kind with its glyph, acquisition cost, default grant and reward value.
#[derive(Debug)]
pub struct Species {
    /// Catalog identity (a small serial number in the store).
    pub id: i16,
    /// Chat glyph that triggers planting this species.
    pub emoji: String,
    /// Displayable name.
    pub name: String,
    /// Cost per pallet; 0 disables purchase.
    pub pallet_cost: i32,
    /// Seedlings granted to a brand-new member; -1 grants an unlimited
    /// supply, 0 grants nothing.
    pub default_qty: i32,
    /// Coins credited for each tree planted.
    pub coins: i32,
}

/// One storage row: how many units of one item a member holds.
/// An amount of -1 denotes an unlimited supply.
#[derive(Debug, Clone, Copy)]
pub struct StorageEntry {
    pub item_type: ItemType,
    pub item_id: i16,
    pub amount: i32,
}

impl Clone for Species {
    fn clone(&self) -> (r: Species)
        ensures
            r == *self,
    {
        Species {
            id: self.id,
            emoji: self.emoji.clone(),
            name: self.name.clone(),
            pallet_cost: self.pallet_cost,
            default_qty: self.default_qty,
            coins: self.coins,
        }
    }
}

impl StorageEntry {
    /// The (item class, item identity) key of this row.
    pub open spec fn key(self) -> (ItemType, i16) {
        (self.item_type, self.item_id)
    }
}

/// A member's item storage: a mapping from (item class, item identity)
/// to an amount, where -1 denotes an unlimited supply.
#[derive(Debug)]
pub struct Storage {
    entries: Vec<StorageEntry>,
}

/// The stored seedling amount a player holds for a species, if any row
/// exists.
pub open spec fn spec_seedling_qty(p: Player, species_id: i16) -> Option<i32> {
    if p.storage@.contains_key((ItemType::Seedling, species_id)) {
        Some(p.storage@[(ItemType::Seedling, species_id)])
    } else {
        None
    }
}

/// Whether a member has material to plant a species: a stored row that is
/// unlimited (-1) or still positive.
pub open spec fn spec_has_material(p: Player, species_id: i16) -> bool {
    match spec_seedling_qty(p, species_id) {
        Some(q) => q == -1 || q > 0,
        None => false,
    }
}

/// Storage after one planting of a species: an unlimited supply is left
/// untouched, a finite one loses one unit.
pub open spec fn spec_storage_after_plant(
    m: Map<(ItemType, i16), i32>,
    species_id: i16,
) -> Map<(ItemType, i16), i32> {
    let k = (ItemType::Seedling, species_id);
    if m.contains_key(k) && m[k] != -1 {
        m.insert(k, (m[k] - 1) as i32)
    } else {
        m
    }
}

/// Whether every store row carries a known item class code.
pub open spec fn spec_rows_valid(rows: Seq<(i16, i16, i32)>) -> bool {
    forall|i: int| 0 <= i < rows.len() ==> 1 <= (#[trigger] rows[i]).0 <= 2
}

/// The storage map a sequence of store rows describes, later rows
/// winning.
pub open spec fn spec_rows_storage(rows: Seq<(i16, i16, i32)>) -> Map<(ItemType, i16), i32>
    decreases rows.len(),
{
    if rows.len() == 0 {
        Map::empty()
    } else {
        spec_rows_storage(rows.drop_last()).insert(
            (ItemType::spec_from_i16(rows.last().0), rows.last().1),
            rows.last().2,
        )
    }
}

/// The amount a storage map holds under a key, with 0 for an absent row.
pub open spec fn stored_amount(m: Map<(ItemType, i16), i32>, t: ItemType, id: i16) -> int {
    if m.contains_key((t, id)) {
        m[(t, id)] as int
    } else {
        0
    }
}

impl View for Storage {
    type V = Map<(ItemType, i16), i32>;

    closed spec fn view(&self) -> Map<(ItemType, i16), i32> {
        Map::new(
            |k: (ItemType, i16)|
                exists|i: int| 0 <= i < self.entries@.len() && (#[trigger] self.entries@[i]).key() == k,
            |k: (ItemType, i16)|
                {
                    let i = choose|i: int|
                        0 <= i < self.entries@.len() && (#[trigger] self.entries@[i]).key() == k;
                    self.entries@[i].amount
                },
        )
    }
}

impl Storage {
    /// Well-formed storage holds at most one row per key.
    pub closed spec fn wf(self) -> bool {
        forall|i: int, j: int|
            0 <= i < j < self.entries@.len() ==> (#[trigger] self.entries@[i]).key() != (
            #[trigger] self.entries@[j]).key()
    }

    proof fn lemma_key_unique(self, i: int, j: int)
        requires
            self.wf(),
            0 <= i < self.entries@.len(),
            0 <= j < self.entries@.len(),
            self.entries@[i].key() == self.entries@[j].key(),
        ensures
            i == j,
    {
        if i < j {
            assert((self.entries@[i]).key() != (self.entries@[j]).key());
        }
        if j < i {
            assert((self.entries@[j]).key() != (self.entries@[i]).key());
        }
    }

    /// Row `i` is what the map view reports for its key.
    proof fn lemma_at(self, i: int)
        requires
            self.wf(),
            0 <= i < self.entries@.len(),
        ensures
            self@.contains_key(self.entries@[i].key()),
            self@[self.entries@[i].key()] == self.entries@[i].amount,
    {
        let k = self.entries@[i].key();
        assert(0 <= i < self.entries@.len() && (#[trigger] self.entries@[i]).key() == k);
        let w = choose|i: int|
            0 <= i < self.entries@.len() && (#[trigger] self.entries@[i]).key() == k;
        self.lemma_key_unique(i, w);
    }

    /// An empty storage.
    pub fn new() -> (s: Storage)
        ensures
            s.wf(),
            s@ == Map::<(ItemType, i16), i32>::empty(),
    {
        let s = Storage { entries: Vec::new() };
        proof {
            assert(s@ =~= Map::<(ItemType, i16), i32>::empty());
        }
        s
    }

    /// The amount stored under a key, or None for an absent row.
    pub fn get_amount(&self, item_type: ItemType, item_id: i16) -> (r: Option<i32>)
        requires
            self.wf(),
        ensures
            match r {
                Some(a) => self@.contains_key((item_type, item_id)) && self@[(item_type, item_id)]
                    == a,
                None => !self@.contains_key((item_type, item_id)),
            },
    {
        let n = self.entries.len();
        let mut i: usize = 0;
        while i < n
            invariant
                n == self.entries@.len(),
                i <= n,
                self.wf(),
                forall|j: int| 0 <= j < i ==> (#[trigger] self.entries@[j]).key() != (item_type, item_id),
            decreases n - i,
        {
            let e = self.entries[i];
            if e.item_type == item_type && e.item_id == item_id {
                proof {
                    self.lemma_at(i as int);
                }
                return Some(e.amount);
            }
            i += 1;
        }
        None
    }

    /// Insert or replace the row under a key.
    pub fn set_amount(&mut self, item_type: ItemType, item_id: i16, amount: i32)
        requires
            old(self).wf(),
        ensures
            final(self).wf(),
            final(self)@ == old(self)@.insert((item_type, item_id), amount),
    {
        let ghost k = (item_type, item_id);
        let n = self.entries.len();
        let mut found: Option<usize> = None;
        let mut i: usize = 0;
        while i < n && found.is_none()
            invariant
                k == (item_type, item_id),
                n == self.entries@.len(),
                i <= n,
                self.wf(),
                match found {
                    Some(f) => f < n && self.entries@[f as int].key() == k,
                    None => forall|j: int|
                        0 <= j < i ==> (#[trigger] self.entries@[j]).key() != k,
                },
            decreases n - i + (if found.is_none() { 1int } else { 0int }),
        {
            let e = self.entries[i];
            if e.item_type == item_type && e.item_id == item_id {
                found = Some(i);
            } else {
                i += 1;
            }
        }
        match found {
            Some(f) => {
                self.entries.set(f, StorageEntry { item_type, item_id, amount });
                proof {
                    self.lemma_view_after_update(*old(self), f as int, k, amount);
                }
            },
            None => {
                self.entries.push(StorageEntry { item_type, item_id, amount });
                proof {
                    let m = self.entries@.len() - 1;
                    assert forall|p: int, q: int| 0 <= p < q < self.entries@.len() implies (
                    #[trigger] self.entries@[p]).key() != (#[trigger] self.entries@[q]).key() by {
                        if q < m {
                            assert(old(self).entries@[p].key() != old(self).entries@[q].key());
                        } else {
                            assert(self.entries@[q].key() == k);
                            assert(self.entries@[p] == old(self).entries@[p]);
                        }
                    }
                    self.lemma_view_after_update(*old(self), m, k, amount);
                }
            },
        }
    }

    /// Shared ending for `set_amount`: entries equal `prev`'s everywhere but
    /// at `i`, where the row now carries key `k` and `amount`; `k` occurs in
    /// no other row of `prev`. Then the view is `prev`'s with `k` updated.
    proof fn lemma_view_after_update(self, prev: Storage, i: int, k: (ItemType, i16), amount: i32)
        requires
            self.wf(),
            prev.wf(),
            0 <= i < self.entries@.len(),
            prev.entries@.len() == self.entries@.len() || prev.entries@.len() + 1
                == self.entries@.len(),
            prev.entries@.len() + 1 == self.entries@.len() ==> i == self.entries@.len() - 1,
            forall|j: int|
                0 <= j < self.entries@.len() && j != i ==> #[trigger] self.entries@[j]
                    == prev.entries@[j],
            self.entries@[i].key() == k,
            self.entries@[i].amount == amount,
            i < prev.entries@.len() ==> prev.entries@[i].key() == k,
            forall|j: int|
                0 <= j < prev.entries@.len() && j != i ==> (#[trigger] prev.entries@[j]).key() != k,
        ensures
            self@ == prev@.insert(k, amount),
    {
        let target = prev@.insert(k, amount);
        assert forall|k2: (ItemType, i16)| #[trigger] self@.contains_key(k2) implies
            target.contains_key(k2) && self@[k2] == target[k2] by {
            let j = choose|j: int|
                0 <= j < self.entries@.len() && (#[trigger] self.entries@[j]).key() == k2;
            self.lemma_at(j);
            if k2 == k {
                self.lemma_key_unique(i, j);
            } else {
                assert(j != i);
                assert(prev.entries@[j].key() == k2);
                prev.lemma_at(j);
            }
        }
        assert forall|k2: (ItemType, i16)| #[trigger] target.contains_key(k2) implies
            self@.contains_key(k2) by {
            if k2 == k {
                self.lemma_at(i);
            } else {
                assert(prev@.contains_key(k2));
                let j = choose|j: int|
                    0 <= j < prev.entries@.len() && (#[trigger] prev.entries@[j]).key() == k2;
                assert(j != i);
                assert(self.entries@[j].key() == k2);
                self.lemma_at(j);
            }
        }
        assert(self@ =~= target);
    }

    /// Rebuild a member's storage from its store rows, each
    /// (item class code, item id, amount), later rows winning. A row
    /// whose class code is not a known item class is corrupt, and the
    /// whole load is refused.
    pub fn from_rows(rows: &Vec<(i16, i16, i32)>) -> (r: Option<Storage>)
        ensures
            r is Some <==> spec_rows_valid(rows@),
            r is Some ==> r->Some_0.wf() && r->Some_0@ == spec_rows_storage(rows@),
    {
        let mut s = Storage::new();
        let n = rows.len();
        let mut i: usize = 0;
        while i < n
            invariant
                n == rows@.len(),
                i <= n,
                s.wf(),
                forall|j: int| 0 <= j < i ==> 1 <= (#[trigger] rows@[j]).0 <= 2,
                s@ == spec_rows_storage(rows@.take(i as int)),
            decreases n - i,
        {
            let (type_code, item_id, amount) = rows[i];
            if type_code < 1 || type_code > 2 {
                return None;
            }
            let item_type = ItemType::from_i16(type_code);
            s.set_amount(item_type, item_id, amount);
            proof {
                assert(rows@.take(i + 1int).drop_last() =~= rows@.take(i as int));
                assert(rows@.take(i + 1int).last() == rows@[i as int]);
            }
            i += 1;
        }
        proof {
            assert(rows@.take(n as int) =~= rows@);
        }
        Some(s)
    }

    /// The rows of one item class still holding a non-zero amount, as
    /// (item id, amount) pairs sorted by ascending item id.
    pub fn rows_of_type_sorted(&self, item_type: ItemType) -> (r: Vec<(i16, i32)>)
        requires
            self.wf(),
        ensures
            forall|a: int, b: int| 0 <= a < b < r@.len() ==> r@[a].0 < r@[b].0,
            forall|x: (i16, i32)|
                #[trigger] r@.contains(x) <==> (self@.contains_key((item_type, x.0)) && self@[
                    (item_type, x.0)
                ] == x.1 && x.1 != 0),
    {
        let mut r: Vec<(i16, i32)> = Vec::new();
        let n = self.entries.len();
        let mut i: usize = 0;
        while i < n
            invariant
                n == self.entries@.len(),
                i <= n,
                self.wf(),
                forall|a: int, b: int| 0 <= a < b < r@.len() ==> r@[a].0 < r@[b].0,
                forall|x: (i16, i32)|
                    #[trigger] r@.contains(x) ==> exists|j: int|
                        0 <= j < i && (#[trigger] self.entries@[j]).key() == (item_type, x.0)
                            && self.entries@[j].amount == x.1 && x.1 != 0,
                forall|j: int|
                    0 <= j < i && (#[trigger] self.entries@[j]).item_type == item_type
                        && self.entries@[j].amount != 0 ==> r@.contains(
                        (self.entries@[j].item_id, self.entries@[j].amount),
                    ),
            decreases n - i,
        {
            let e = self.entries[i];
            if e.item_type == item_type && e.amount != 0 {
                proof {
                    assert forall|q: int| 0 <= q < r@.len() implies (#[trigger] r@[q]).0
                        != e.item_id by {
                        if r@[q].0 == e.item_id {
                            assert(r@.contains(r@[q]));
                            let j = choose|j: int|
                                0 <= j < i && (#[trigger] self.entries@[j]).key() == (
                                item_type,
                                r@[q].0,
                                ) && self.entries@[j].amount == r@[q].1 && r@[q].1 != 0;
                            assert(self.entries@[j].key() == self.entries@[i as int].key());
                        }
                    }
                }
                insert_sorted(&mut r, e.item_id, e.amount);
            }
            i += 1;
        }
        proof {
            assert forall|x: (i16, i32)|
                self@.contains_key((item_type, x.0)) && self@[(item_type, x.0)] == x.1 && x.1
                    != 0 implies #[trigger] r@.contains(x) by {
                let j = choose|j: int|
                    0 <= j < self.entries@.len() && (#[trigger] self.entries@[j]).key() == (
                    item_type,
                    x.0,
                    );
                self.lemma_at(j);
            }
            assert forall|x: (i16, i32)| #[trigger] r@.contains(x) implies self@.contains_key(
                (item_type, x.0),
            ) && self@[(item_type, x.0)] == x.1 && x.1 != 0 by {
                let j = choose|j: int|
                    0 <= j < n && (#[trigger] self.entries@[j]).key() == (item_type, x.0)
                        && self.entries@[j].amount == x.1 && x.1 != 0;
                self.lemma_at(j);
            }
        }
        r
    }
}

/// Insert a pair into a list strictly sorted by ascending first
/// component, keeping it sorted; the id must not be present yet.
fn insert_sorted(r: &mut Vec<(i16, i32)>, id: i16, amount: i32)
    requires
        forall|a: int, b: int| 0 <= a < b < old(r)@.len() ==> old(r)@[a].0 < old(r)@[b].0,
        forall|q: int| 0 <= q < old(r)@.len() ==> (#[trigger] old(r)@[q]).0 != id,
    ensures
        forall|a: int, b: int| 0 <= a < b < final(r)@.len() ==> final(r)@[a].0 < final(r)@[b].0,
        forall|x: (i16, i32)|
            #[trigger] final(r)@.contains(x) <==> (old(r)@.contains(x) || x == (id, amount)),
{
    let m = r.len();
    let mut p: usize = 0;
    while p < m && r[p].0 < id
        invariant
            m == r@.len(),
            p <= m,
            forall|q: int| 0 <= q < p ==> (#[trigger] r@[q]).0 < id,
        decreases m - p,
    {
        p += 1;
    }
    let ghost r0 = r@;
    r.insert(p, (id, amount));
    proof {
        assert forall|a: int, b: int| 0 <= a < b < r@.len() implies r@[a].0 < r@[b].0 by {
            if b < p {
                assert(r@[a] == r0[a] && r@[b] == r0[b]);
            } else if a < p && b == p {
                assert(r@[a] == r0[a]);
            } else if a < p {
                assert(r@[a] == r0[a] && r@[b] == r0[b - 1]);
            } else if a == p {
                assert(r@[b] == r0[b - 1]);
                assert(r0[b - 1].0 != id);
            } else {
                assert(r@[a] == r0[a - 1] && r@[b] == r0[b - 1]);
            }
        }
        assert forall|x: (i16, i32)| #[trigger] r@.contains(x) implies (r0.contains(x) || x == (
            id,
            amount,
        )) by {
            let q = choose|q: int| 0 <= q < r@.len() && r@[q] == x;
            if q < p {
                assert(r0[q] == x);
                assert(r0.contains(x));
            } else if q > p {
                assert(r0[q - 1] == x);
                assert(r0.contains(x));
            }
        }
        assert forall|x: (i16, i32)| (r0.contains(x) || x == (id, amount)) implies
            #[trigger] r@.contains(x) by {
            if r0.contains(x) {
                let q = choose|q: int| 0 <= q < r0.len() && r0[q] == x;
                if q < p {
                    assert(r@[q] == x);
                } else {
                    assert(r@[q + 1] == x);
                }
            } else {
                assert(r@[p as int] == x);
            }
        }
    }
}

/// A community-scoped record of one actor's economic state: coin balance
/// and item storage.
#[derive(Debug)]
pub struct Player {
    /// Internal numeric identity, unique per (community, actor) pair.
    pub id: i32,
    /// Chat-network actor id.
    pub user_id: u64,
    /// Chat-network community id.
    pub guild_id: u64,
    /// Coin balance.
    pub coins: i32,
    /// All items held, by (item class, item identity); -1 denotes an
    /// unlimited supply.
    pub storage: Storage,
    /// Whether this record was first inserted into the store by the load
    /// that produced it (and so still needs its default seeding).
    pub newly_created: bool,
}

impl Player {
    /// A player is well-formed when its storage is.
    pub open spec fn wf(self) -> bool {
        self.storage.wf()
    }

    /// Whether this record still needs its default seeding.
    pub open spec fn spec_is_new(&self) -> bool {
        self.newly_created
    }

    pub fn new(id: i32, user_id: u64, guild_id: u64, coins: i32, storage: Storage, new: bool) -> (p:
        Player)
        ensures
            p.id == id,
            p.user_id == user_id,
            p.guild_id == guild_id,
            p.coins == coins,
            p.storage == storage,
            p.is_new() == new,
    {
        Player { id, user_id, guild_id, coins, storage, newly_created: new }
    }

    #[verifier::when_used_as_spec(spec_is_new)]
    pub fn is_new(&self) -> (r: bool)
        ensures
            r == self.spec_is_new(),
    {
        self.newly_created
    }

    /// Add `qty` units of an item to storage (a negative `qty` removes
    /// units) and report the amount now stored.
    pub fn give_item(&mut self, item_type: ItemType, item_id: i16, qty: i32) -> (new_qty: i32)
        requires
            old(self).wf(),
            i32::MIN <= stored_amount(old(self).storage@, item_type, item_id) + qty <= i32::MAX,
        ensures
            final(self).wf(),
            new_qty == stored_amount(old(self).storage@, item_type, item_id) + qty,
            final(self).storage@ == old(self).storage@.insert((item_type, item_id), new_qty),
            final(self).id == old(self).id,
            final(self).user_id == old(self).user_id,
            final(self).guild_id == old(self).guild_id,
            final(self).coins == old(self).coins,
            final(self).is_new() == old(self).is_new(),
    {
        let prior = match self.storage.get_amount(item_type, item_id) {
            Some(a) => a,
            None => 0,
        };
        let new_qty = prior + qty;
        self.storage.set_amount(item_type, item_id, new_qty);
        new_qty
    }


    /// Consume one seedling of a species and credit the planting reward.
    /// Succeeds exactly when material is on hand; then a finite supply
    /// loses one unit and never drops below zero, while an unlimited
    /// supply (-1) is never mutated. On failure nothing changes.
    pub fn plant_one(&mut self, species_id: i16, reward: i32) -> (ok: bool)
        requires
            old(self).wf(),
            i32::MIN <= old(self).coins + reward <= i32::MAX,
        ensures
            final(self).wf(),
            ok == spec_has_material(*old(self), species_id),
            !ok ==> *final(self) == *old(self),
            ok ==> final(self).storage@ == spec_storage_after_plant(
                old(self).storage@,
                species_id,
            ),
            ok ==> final(self).coins == old(self).coins + reward,
            ok && old(self).storage@[(ItemType::Seedling, species_id)] == -1
                ==> final(self).storage@ == old(self).storage@,
            ok && old(self).storage@[(ItemType::Seedling, species_id)] != -1 ==> {
                &&& final(self).storage@[(ItemType::Seedling, species_id)]
                    == old(self).storage@[(ItemType::Seedling, species_id)] - 1
                &&& final(self).storage@[(ItemType::Seedling, species_id)] >= 0
            },
            final(self).id == old(self).id,
            final(self).user_id == old(self).user_id,
            final(self).guild_id == old(self).guild_id,
            final(self).newly_created == old(self).newly_created,
    {
        match self.storage.get_amount(ItemType::Seedling, species_id) {
            Some(amt) => {
                if amt == -1 || amt > 0 {
                    if amt != -1 {
                        self.storage.set_amount(ItemType::Seedling, species_id, amt - 1);
                    }
                    self.coins = self.coins + reward;
                    true
                } else {
                    false
                }
            },
            None => false,
        }
    }
}

} // verus!
