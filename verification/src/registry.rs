use vstd::prelude::*;
use vstd::map::*;
use crate::accounts::AddLiquidity;
use crate::accounts::RemoveLiquidity;
use crate::error::ErrorCode;
use crate::manager::AddOutcome;
use crate::manager::RemoveOutcome;
use crate::manager::add_liquidity;
use crate::manager::add_liquidity_spec;
use crate::manager::remove_liquidity;
use crate::manager::remove_liquidity_spec;
use crate::pool::AssetId;
use crate::pool::Exchange;
use crate::pool::create;

verus! {

/// One registered pool: its identifier and its record.
#[derive(Clone, Copy, PartialEq, Eq, Structural, Debug)]
pub struct PoolEntry {
    /// Identifier the pool is looked up under.
    pub pool_id: AssetId,
    /// The pool's record.
    pub exchange: Exchange,
}

/// A keyed store of pool records: one record per pool identifier.
///
/// The hosting environment is assumed to serialize all mutating operations
/// against the same registry; the registry itself does no locking.
pub struct Registry {
    entries: Vec<PoolEntry>,
}

impl Registry {
    /// Some entry holds this identifier.
    pub closed spec fn has_id(self, pool_id: AssetId) -> bool {
        exists|i: int|
            0 <= i < self.entries@.len() && self.entries@[i].pool_id == pool_id
    }

    /// The record registered under this identifier (meaningful only when
    /// [`Registry::has_id`] holds).
    pub closed spec fn at_id(self, pool_id: AssetId) -> Exchange {
        self.entries@[choose|i: int|
            0 <= i < self.entries@.len() && self.entries@[i].pool_id == pool_id].exchange
    }

    /// The registry viewed as a finite map from pool identifier to record.
    pub open spec fn view(self) -> Map<AssetId, Exchange> {
        Map::new(|pool_id: AssetId| self.has_id(pool_id), |pool_id: AssetId| self.at_id(pool_id))
    }

    /// No two entries share an identifier, so the map view loses nothing.
    pub closed spec fn wf(self) -> bool {
        forall|i: int, j: int|
            0 <= i < j < self.entries@.len() ==> self.entries@[i].pool_id
                != self.entries@[j].pool_id
    }

    /// An empty registry.
    pub fn new() -> (registry: Registry)
        ensures
            registry.wf(),
            registry@ == Map::<AssetId, Exchange>::empty(),
    {
        let registry = Registry { entries: Vec::new() };
        proof {
            assert(registry@ =~= Map::<AssetId, Exchange>::empty());
        }
        registry
    }

    /// The index of the entry holding this identifier, if any.
    fn find(&self, pool_id: AssetId) -> (r: Option<usize>)
        ensures
            match r {
                Some(i) => i < self.entries@.len() && self.entries@[i as int].pool_id == pool_id,
                None => !self.has_id(pool_id),
            },
    {
        let n = self.entries.len();
        let mut i: usize = 0;
        while i < n
            invariant
                n == self.entries@.len(),
                i <= n,
                forall|j: int| 0 <= j < i ==> self.entries@[j].pool_id != pool_id,
            decreases n - i,
        {
            if self.entries[i].pool_id == pool_id {
                return Some(i);
            }
            i = i + 1;
        }
        None
    }

    /// Whether a pool is registered under this identifier.
    pub fn contains(&self, pool_id: AssetId) -> (r: bool)
        ensures
            r == self@.contains_key(pool_id),
    {
        match self.find(pool_id) {
            Some(_) => true,
            None => false,
        }
    }

    /// A copy of the record registered under this identifier.
    pub fn get(&self, pool_id: AssetId) -> (r: Option<Exchange>)
        requires
            self.wf(),
        ensures
            r == (if self@.contains_key(pool_id) {
                Some(self@[pool_id])
            } else {
                None::<Exchange>
            }),
    {
        match self.find(pool_id) {
            Some(i) => {
                proof {
                    self.lemma_at_found(pool_id, i as int);
                }
                Some(self.entries[i].exchange)
            },
            None => None,
        }
    }

    /// With unique identifiers, the entry `find` returns is the entry the
    /// map view holds for that identifier.
    proof fn lemma_at_found(self, pool_id: AssetId, i: int)
        requires
            self.wf(),
            0 <= i < self.entries@.len(),
            self.entries@[i].pool_id == pool_id,
        ensures
            self.has_id(pool_id),
            self.at_id(pool_id) == self.entries@[i].exchange,
    {
        let j = choose|j: int|
            0 <= j < self.entries@.len() && self.entries@[j].pool_id == pool_id;
        if i < j {
            assert(self.entries@[i].pool_id != self.entries@[j].pool_id);
        } else if j < i {
            assert(self.entries@[j].pool_id != self.entries@[i].pool_id);
        }
    }

    /// Replacing the entry at a found index changes the map view at that
    /// one identifier and nowhere else.
    proof fn lemma_view_after_update(self, other: Registry, i: int, exchange: Exchange)
        requires
            self.wf(),
            0 <= i < self.entries@.len(),
            other.entries@ == self.entries@.update(
                i,
                PoolEntry { pool_id: self.entries@[i].pool_id, exchange },
            ),
        ensures
            other.wf(),
            other@ == self@.insert(self.entries@[i].pool_id, exchange),
    {
        let pool_id = self.entries@[i].pool_id;
        assert forall|id: AssetId| other.has_id(id) <==> self.has_id(id) by {
            if other.has_id(id) {
                let k = choose|k: int|
                    0 <= k < other.entries@.len() && other.entries@[k].pool_id == id;
                assert(self.entries@[k].pool_id == id);
            }
            if self.has_id(id) {
                let k = choose|k: int|
                    0 <= k < self.entries@.len() && self.entries@[k].pool_id == id;
                assert(other.entries@[k].pool_id == id);
            }
        }
        assert forall|id: AssetId| #[trigger] other.has_id(id) implies (other.at_id(id) == (
        if id == pool_id {
            exchange
        } else {
            self.at_id(id)
        })) by {
            let k = choose|k: int|
                0 <= k < other.entries@.len() && other.entries@[k].pool_id == id;
            other.lemma_at_found(id, k);
            if id == pool_id {
                if k < i {
                    assert(self.entries@[k].pool_id != self.entries@[i].pool_id);
                } else if i < k {
                    assert(self.entries@[i].pool_id != self.entries@[k].pool_id);
                }
            } else {
                assert(k != i);
                self.lemma_at_found(id, k);
            }
        }
        assert(other@ =~= self@.insert(pool_id, exchange));
    }

    /// Registers the record for a new trading pair under a fresh pool
    /// identifier; the new pool starts empty. Callers check freshness with
    /// [`Registry::contains`] first.
    pub fn create_pool(
        &mut self,
        pool_id: AssetId,
        factory: AssetId,
        token_a: AssetId,
        token_b: AssetId,
        token_c: AssetId,
    )
        requires
            old(self).wf(),
            !old(self)@.contains_key(pool_id),
        ensures
            final(self).wf(),
            final(self)@ == old(self)@.insert(
                pool_id,
                Exchange {
                    factory,
                    token_a,
                    token_b,
                    token_c,
                    total_supply_c: 0,
                    input_price: 0,
                    output_price: 0,
                },
            ),
    {
        let exchange = create(factory, token_a, token_b, token_c);
        let ghost before = *self;
        self.entries.push(PoolEntry { pool_id, exchange });
        proof {
            let n = before.entries@.len();
            assert(self.entries@ == before.entries@.push(PoolEntry { pool_id, exchange }));
            assert forall|id: AssetId| self.has_id(id) <==> (before.has_id(id) || id
                == pool_id) by {
                if self.has_id(id) {
                    let k = choose|k: int|
                        0 <= k < self.entries@.len() && self.entries@[k].pool_id == id;
                    if k < n {
                        assert(before.entries@[k].pool_id == id);
                    }
                }
                if before.has_id(id) {
                    let k = choose|k: int|
                        0 <= k < before.entries@.len() && before.entries@[k].pool_id == id;
                    assert(self.entries@[k].pool_id == id);
                }
                if id == pool_id {
                    assert(self.entries@[n as int].pool_id == id);
                }
            }
            assert(self.wf());
            assert forall|id: AssetId| #[trigger] self.has_id(id) implies (self.at_id(id) == (
            if id == pool_id {
                exchange
            } else {
                before.at_id(id)
            })) by {
                let k = choose|k: int|
                    0 <= k < self.entries@.len() && self.entries@[k].pool_id == id;
                self.lemma_at_found(id, k);
                if id == pool_id {
                    assert(self.entries@[n as int].pool_id == pool_id);
                    self.lemma_at_found(id, n as int);
                } else {
                    assert(k < n);
                    assert(before.entries@[k].pool_id == id);
                    before.lemma_at_found(id, k);
                }
            }
            assert(self@ =~= before@.insert(pool_id, exchange));
        }
    }

    /// Runs a deposit against the pool registered under `pool_id`; the
    /// registry holds every other record fixed. See
    /// [`add_liquidity`](crate::manager::add_liquidity) for the operation
    /// itself.
    pub fn add_liquidity(
        &mut self,
        pool_id: AssetId,
        accounts: &AddLiquidity,
        max_amount_a: u64,
        amount_b: u64,
        min_liquidity_c: u64,
        deadline: i64,
    ) -> (r: Result<AddOutcome, ErrorCode>)
        requires
            old(self).wf(),
            old(self)@.contains_key(pool_id),
            max_amount_a > 0,
            amount_b > 0,
            old(self)@[pool_id].total_supply_c > 0 ==> min_liquidity_c > 0,
            old(self)@[pool_id].total_supply_c > 0 ==> accounts.to_a_amount > 0
                && accounts.to_b_amount > 0,
        ensures
            final(self).wf(),
            match r {
                Ok(outcome) => exists|exchange: Exchange|
                    add_liquidity_spec(
                        old(self)@[pool_id],
                        *accounts,
                        max_amount_a,
                        amount_b,
                        min_liquidity_c,
                        deadline,
                    ) == Ok::<(Exchange, AddOutcome), ErrorCode>((exchange, outcome)) && final(self)@ == old(self)@.insert(pool_id, exchange),
                Err(e) => add_liquidity_spec(
                    old(self)@[pool_id],
                    *accounts,
                    max_amount_a,
                    amount_b,
                    min_liquidity_c,
                    deadline,
                ) == Err::<(Exchange, AddOutcome), ErrorCode>(e) && final(self)@ == old(self)@,
            },
    {
        let i = self.find(pool_id).unwrap();
        proof {
            self.lemma_at_found(pool_id, i as int);
        }
        let ghost before = *self;
        let entry = &mut self.entries[i];
        let r = add_liquidity(
            &mut entry.exchange,
            accounts,
            max_amount_a,
            amount_b,
            min_liquidity_c,
            deadline,
        );
        proof {
            before.lemma_view_after_update(*self, i as int, self.entries@[i as int].exchange);
            if r is Err {
                assert(self.entries@ =~= before.entries@);
                assert(self@ =~= before@);
            }
        }
        r
    }

    /// Runs a withdrawal against the pool registered under `pool_id`; the
    /// registry holds every other record fixed. See
    /// [`remove_liquidity`](crate::manager::remove_liquidity) for the
    /// operation itself.
    pub fn remove_liquidity(
        &mut self,
        pool_id: AssetId,
        accounts: &RemoveLiquidity,
        amount_c: u64,
        min_amount_a: u64,
        min_amount_b: u64,
        deadline: i64,
    ) -> (r: Result<RemoveOutcome, ErrorCode>)
        requires
            old(self).wf(),
            old(self)@.contains_key(pool_id),
            amount_c > 0,
            min_amount_a > 0,
            min_amount_b > 0,
        ensures
            final(self).wf(),
            match r {
                Ok(outcome) => exists|exchange: Exchange|
                    remove_liquidity_spec(
                        old(self)@[pool_id],
                        *accounts,
                        amount_c,
                        min_amount_a,
                        min_amount_b,
                        deadline,
                    ) == Ok::<(Exchange, RemoveOutcome), ErrorCode>((exchange, outcome)) && final(self)@ == old(self)@.insert(pool_id, exchange),
                Err(e) => remove_liquidity_spec(
                    old(self)@[pool_id],
                    *accounts,
                    amount_c,
                    min_amount_a,
                    min_amount_b,
                    deadline,
                ) == Err::<(Exchange, RemoveOutcome), ErrorCode>(e) && final(self)@ == old(self)@,
            },
    {
        let i = self.find(pool_id).unwrap();
        proof {
            self.lemma_at_found(pool_id, i as int);
        }
        let ghost before = *self;
        let entry = &mut self.entries[i];
        let r = remove_liquidity(
            &mut entry.exchange,
            accounts,
            amount_c,
            min_amount_a,
            min_amount_b,
            deadline,
        );
        proof {
            before.lemma_view_after_update(*self, i as int, self.entries@[i as int].exchange);
            if r is Err {
                assert(self.entries@ =~= before.entries@);
                assert(self@ =~= before@);
            }
        }
        r
    }
}

} // verus!
