//! Revenue routing: distributions of an amount over routes in basis
//! points, paid out once into a balance table.

use vstd::prelude::*;
use crate::bytes::{le_bytes, push_all, push_le, zeros32, zero32};
use crate::digest::{sha256, sha256_spec};
use crate::kernel::{Address, Hash32};
use crate::runtime::RuntimeError;
use crate::runtime::model_registry::RevenueSplit;
use crate::table::{Table, TableKey};

verus! {

#[derive(Clone, Copy, Debug, PartialEq, Eq, Structural)]
pub enum RecipientType {
    ModelOwner,
    Operator,
    ShardProvider,
    Validator,
    Vault,
    Treasury,
}

#[derive(Clone, Copy, Debug)]
pub struct RevenueRoute {
    pub recipient: Address,
    pub basis_points: u16,
    pub recipient_type: RecipientType,
}

#[derive(Clone, Debug)]
pub struct RevenueDistribution {
    pub distribution_id: Hash32,
    pub source: Address,
    pub routes: Vec<RevenueRoute>,
    pub total_amount: u128,
    pub distributed: bool,
    pub block_height: u64,
}

/// The sum of the routes' basis points.
pub open spec fn bps_sum(routes: Seq<RevenueRoute>) -> int
    decreases routes.len(),
{
    if routes.len() == 0 {
        0
    } else {
        bps_sum(routes.drop_last()) + routes.last().basis_points
    }
}

/// The amount a route takes of `total`.
pub open spec fn route_amount(total: u128, route: RevenueRoute) -> u128 {
    ((total * route.basis_points) / 10000) as u128
}

/// The balances after crediting each route its amount, in order (a missing
/// recipient starts at 0).
pub open spec fn credit_routes(m: Map<Seq<u8>, u128>, routes: Seq<RevenueRoute>, total: u128) -> Map<Seq<u8>, u128>
    decreases routes.len(),
{
    if routes.len() == 0 {
        m
    } else {
        let before = credit_routes(m, routes.drop_last(), total);
        let k = routes.last().recipient.0@;
        let b = if before.dom().contains(k) {
            before[k]
        } else {
            0
        };
        before.insert(k, (b + route_amount(total, routes.last())) as u128)
    }
}

/// The payments of a distribution: each route's recipient and amount.
pub open spec fn payments(routes: Seq<RevenueRoute>, total: u128) -> Seq<(Address, u128)> {
    routes.map_values(|r: RevenueRoute| (r.recipient, route_amount(total, r)))
}

/// Two distributions equal in every field, the routes compared by value.
pub open spec fn same_distribution(a: RevenueDistribution, b: RevenueDistribution) -> bool {
    a.routes@ == b.routes@ && a == (RevenueDistribution { routes: a.routes, ..b })
}

/// What the module holds.
pub ghost struct RevenueView {
    pub distributions: Map<Seq<u8>, RevenueDistribution>,
    pub pending: Seq<RevenueDistribution>,
    pub distribution_counter: u64,
    pub treasury_address: Address,
}

pub struct RevenueModule {
    distributions: Table<Hash32, RevenueDistribution>,
    pending_distributions: Vec<RevenueDistribution>,
    distribution_counter: u64,
    treasury_address: Address,
}

impl View for RevenueModule {
    type V = RevenueView;

    closed spec fn view(&self) -> RevenueView {
        RevenueView {
            distributions: self.distributions@,
            pending: self.pending_distributions@,
            distribution_counter: self.distribution_counter,
            treasury_address: self.treasury_address,
        }
    }
}

/// The bytes digested into the id of the `counter`-th distribution.
pub open spec fn distribution_id_input(counter: u64, source: Address, total: u128) -> Seq<u8> {
    le_bytes(counter as nat, 8) + source.0@ + le_bytes(total as nat, 16)
}

fn copy_routes(routes: &Vec<RevenueRoute>) -> (r: Vec<RevenueRoute>)
    ensures
        r@ == routes@,
{
    let mut out: Vec<RevenueRoute> = Vec::new();
    let mut i: usize = 0;
    while i < routes.len()
        invariant
            i <= routes@.len(),
            out@ == routes@.take(i as int),
        decreases routes@.len() - i,
    {
        out.push(routes[i]);
        i = i + 1;
        assert(out@ =~= routes@.take(i as int));
    }
    assert(routes@.take(i as int) =~= routes@);
    out
}

proof fn lemma_route_share(total: u128, bps: u16, before: int, acc_bps: int)
    requires
        before <= (total * acc_bps) / 10000,
        0 <= acc_bps,
    ensures
        before + (total * bps) / 10000 <= (total * (acc_bps + bps)) / 10000,
{
    assert((total * acc_bps) / 10000 + (total * bps) / 10000 <= (total * acc_bps + total * bps) / 10000)
        by (nonlinear_arith)
        requires
            total >= 0,
            acc_bps >= 0,
            bps >= 0,
    ;
    assert(total * (acc_bps + bps) == total * acc_bps + total * bps) by (nonlinear_arith);
}

impl RevenueModule {
    /// The tables are well formed and every stored distribution's routes add
    /// up to the whole.
    pub closed spec fn wf(&self) -> bool {
        &&& self.distributions.wf()
        &&& forall|k: Seq<u8>| #[trigger] self.distributions@.dom().contains(k) ==> bps_sum(
            self.distributions@[k].routes@,
        ) == 10000
    }

    /// The distribution table, as `all_distributions` hands it out.
    pub closed spec fn distribution_table(&self) -> Table<Hash32, RevenueDistribution> {
        self.distributions
    }

    pub fn new() -> (r: Self)
        ensures
            r.wf(),
            r@.distributions == Map::<Seq<u8>, RevenueDistribution>::empty(),
            r@.pending.len() == 0,
            r@.distribution_counter == 0,
            r@.treasury_address.0@ == zeros32(),
    {
        RevenueModule {
            distributions: Table::new(),
            pending_distributions: Vec::new(),
            distribution_counter: 0,
            treasury_address: Address::from_bytes(zero32()),
        }
    }

    pub fn set_treasury(&mut self, address: Address)
        requires
            old(self).wf(),
        ensures
            final(self).wf(),
            final(self)@ == (RevenueView { treasury_address: address, ..old(self)@ }),
    {
        self.treasury_address = address;
    }

    /// Records a distribution of `total_amount` over `routes`, which must
    /// add up to 10 000 basis points; it is also queued as pending.
    pub fn create_distribution(
        &mut self,
        source: Address,
        routes: Vec<RevenueRoute>,
        total_amount: u128,
        current_height: u64,
    ) -> (r: Result<Hash32, RuntimeError>)
        requires
            old(self).wf(),
            bps_sum(routes@) <= u16::MAX,
            old(self)@.distribution_counter < u64::MAX,
        ensures
            final(self).wf(),
            r is Ok <==> bps_sum(routes@) == 10000,
            r is Err ==> r == Err::<Hash32, RuntimeError>(RuntimeError::InvalidState) && *final(self) == *old(self),
            r matches Ok(id) ==> {
                let counter = (old(self)@.distribution_counter + 1) as u64;
                let d = RevenueDistribution {
                    distribution_id: id,
                    source,
                    routes,
                    total_amount,
                    distributed: false,
                    block_height: current_height,
                };
                &&& id.0@ == sha256_spec(distribution_id_input(counter, source, total_amount))
                &&& final(self)@.distributions.dom() == old(self)@.distributions.dom().insert(id.0@)
                &&& forall|k: Seq<u8>| k != id.0@ && #[trigger] old(self)@.distributions.dom().contains(k)
                    ==> final(self)@.distributions[k] == old(self)@.distributions[k]
                &&& same_distribution(final(self)@.distributions[id.0@], d)
                &&& final(self)@.pending.len() == old(self)@.pending.len() + 1
                &&& final(self)@.pending.drop_last() == old(self)@.pending
                &&& same_distribution(final(self)@.pending.last(), d)
                &&& final(self)@.distribution_counter == counter
                &&& final(self)@.treasury_address == old(self)@.treasury_address
            },
    {
        let mut total_bps: u16 = 0;
        let mut i: usize = 0;
        while i < routes.len()
            invariant
                i <= routes@.len(),
                bps_sum(routes@) <= u16::MAX,
                total_bps == bps_sum(routes@.take(i as int)),
            decreases routes@.len() - i,
        {
            proof {
                assert(routes@.take(i + 1).drop_last() =~= routes@.take(i as int));
                lemma_bps_sum_prefix(routes@, i + 1);
            }
            total_bps = total_bps + routes[i].basis_points;
            i = i + 1;
        }
        assert(routes@.take(i as int) =~= routes@);
        if total_bps != 10000 {
            return Err(RuntimeError::InvalidState);
        }
        self.distribution_counter = self.distribution_counter + 1;
        let mut data: Vec<u8> = Vec::new();
        push_le(&mut data, self.distribution_counter as u128, 8);
        push_all(&mut data, source.0.as_slice());
        push_le(&mut data, total_amount, 16);
        let id = Hash32(sha256(data.as_slice()));
        let queued = RevenueDistribution {
            distribution_id: id,
            source,
            routes: copy_routes(&routes),
            total_amount,
            distributed: false,
            block_height: current_height,
        };
        let distribution = RevenueDistribution {
            distribution_id: id,
            source,
            routes,
            total_amount,
            distributed: false,
            block_height: current_height,
        };
        self.distributions.insert(id, distribution);
        self.pending_distributions.push(queued);
        proof {
            assert(self.pending_distributions@.drop_last() =~= old(self)@.pending);
        }
        Ok(id)
    }
}

/// The basis points of a prefix never exceed those of the whole.
proof fn lemma_bps_sum_prefix(routes: Seq<RevenueRoute>, n: int)
    requires
        0 <= n <= routes.len(),
    ensures
        0 <= bps_sum(routes.take(n)) <= bps_sum(routes),
    decreases routes.len(),
{
    if routes.len() > 0 {
        if n == routes.len() {
            assert(routes.take(n) =~= routes);
            lemma_bps_sum_prefix(routes.drop_last(), n - 1);
            assert(routes.drop_last().take(n - 1) =~= routes.drop_last());
        } else {
            lemma_bps_sum_prefix(routes.drop_last(), n);
            assert(routes.drop_last().take(n) =~= routes.take(n));
            assert(routes.drop_last().take(routes.len() - 1) =~= routes.drop_last());
        }
    }
}

impl RevenueModule {
    /// Pays out a distribution once: each route's recipient in `balances`
    /// (created at 0 when missing) is credited its share of the total, in
    /// route order; the payments are returned and the distribution is
    /// marked distributed.
    pub fn distribute(&mut self, distribution_id: &Hash32, balances: &mut Table<Address, u128>) -> (r: Result<
        Vec<(Address, u128)>,
        RuntimeError,
    >)
        requires
            old(self).wf(),
            old(balances).wf(),
            old(self)@.distributions.dom().contains(distribution_id.0@) ==> {
                let d = old(self)@.distributions[distribution_id.0@];
                &&& forall|i: int| 0 <= i < d.routes@.len() ==> d.total_amount * (#[trigger] d.routes@[i]).basis_points
                    <= u128::MAX
                &&& forall|k: Seq<u8>| #[trigger] old(balances)@.dom().contains(k) ==> old(balances)@[k]
                    <= u128::MAX - d.total_amount
            },
        ensures
            final(self).wf(),
            final(balances).wf(),
            r is Ok <==> old(self)@.distributions.dom().contains(distribution_id.0@)
                && !old(self)@.distributions[distribution_id.0@].distributed,
            r is Err ==> r == Err::<Vec<(Address, u128)>, RuntimeError>(RuntimeError::InvalidState) && *final(self)
                == *old(self) && *final(balances) == *old(balances),
            r matches Ok(paid) ==> {
                let d = old(self)@.distributions[distribution_id.0@];
                &&& paid@ == payments(d.routes@, d.total_amount)
                &&& final(balances)@ == credit_routes(old(balances)@, d.routes@, d.total_amount)
                &&& final(self)@ == (RevenueView {
                    distributions: old(self)@.distributions.insert(
                        distribution_id.0@,
                        RevenueDistribution { distributed: true, ..d },
                    ),
                    ..old(self)@
                })
            },
    {
        let (routes, total) = match self.distributions.get(distribution_id) {
            None => {
                return Err(RuntimeError::InvalidState);
            },
            Some(d) => {
                if d.distributed {
                    return Err(RuntimeError::InvalidState);
                }
                (copy_routes(&d.routes), d.total_amount)
            },
        };
        let ghost orig = balances@;
        let ghost mut acc: int = 0;
        let mut results: Vec<(Address, u128)> = Vec::new();
        let mut i: usize = 0;
        while i < routes.len()
            invariant
                i <= routes@.len(),
                bps_sum(routes@) == 10000,
                forall|j: int| 0 <= j < routes@.len() ==> total * (#[trigger] routes@[j]).basis_points <= u128::MAX,
                forall|k: Seq<u8>| #[trigger] orig.dom().contains(k) ==> orig[k] <= u128::MAX - total,
                balances.wf(),
                balances@ == credit_routes(orig, routes@.take(i as int), total),
                results@ == payments(routes@.take(i as int), total),
                0 <= acc <= (total * bps_sum(routes@.take(i as int))) / 10000,
                forall|k: Seq<u8>| #[trigger] balances@.dom().contains(k) ==> balances@[k] <= (if orig.dom().contains(
                    k,
                ) {
                    orig[k] as int
                } else {
                    0
                }) + acc,
            decreases routes@.len() - i,
        {
            let route = routes[i];
            proof {
                assert(routes@.take(i + 1).drop_last() =~= routes@.take(i as int));
                assert(routes@.take(i + 1).last() == route);
                lemma_bps_sum_prefix(routes@, i + 1);
                lemma_bps_sum_prefix(routes@, i as int);
                lemma_route_share(total, route.basis_points, acc, bps_sum(routes@.take(i as int)));
                let b = bps_sum(routes@.take(i + 1));
                assert((total * b) / 10000 <= total) by (nonlinear_arith)
                    requires
                        0 <= b <= 10000,
                        total >= 0,
                ;
                assert(total * route.basis_points <= u128::MAX);
            }
            let amount: u128 = (total * route.basis_points as u128) / 10000;
            let ghost before = balances@;
            match balances.get_mut(&route.recipient) {
                Some(b) => {
                    *b = *b + amount;
                },
                None => {
                    balances.insert(route.recipient, amount);
                },
            }
            results.push((route.recipient, amount));
            proof {
                acc = acc + amount;
                assert(results@ =~= payments(routes@.take(i + 1), total));
                assert(balances@ =~= credit_routes(orig, routes@.take(i + 1), total));
            }
            i = i + 1;
        }
        assert(routes@.take(i as int) =~= routes@);
        match self.distributions.get_mut(distribution_id) {
            Some(d) => {
                d.distributed = true;
            },
            None => {},
        }
        Ok(results)
    }

    /// The fee of an inference: a base fee plus a fee per token.
    pub fn calculate_fee(&self, prompt_tokens: u64, output_tokens: u64, base_fee: u64, token_fee: u64) -> (r: u64)
        requires
            prompt_tokens + output_tokens <= u64::MAX,
            base_fee + (prompt_tokens + output_tokens) * token_fee <= u64::MAX,
        ensures
            r == base_fee + (prompt_tokens + output_tokens) * token_fee,
    {
        proof {
            assert((prompt_tokens + output_tokens) * token_fee >= 0) by (nonlinear_arith)
                requires
                    prompt_tokens >= 0,
                    output_tokens >= 0,
                    token_fee >= 0,
            ;
        }
        let total_tokens = prompt_tokens + output_tokens;
        base_fee + total_tokens * token_fee
    }

    /// The routes of `amount` under `split`: the model owner, the operator,
    /// the validator, and the treasury, which takes the shard providers' and
    /// the vault's shares.
    pub fn route_revenue(
        &self,
        amount: u128,
        split: &RevenueSplit,
        model_owner: Address,
        operator: Address,
        validator: Address,
    ) -> (r: Vec<RevenueRoute>)
        requires
            split.shard_provider_bps + split.vault_bps <= u16::MAX,
        ensures
            r@ == seq![
                RevenueRoute { recipient: model_owner, basis_points: split.model_owner_bps, recipient_type: RecipientType::ModelOwner },
                RevenueRoute { recipient: operator, basis_points: split.operator_bps, recipient_type: RecipientType::Operator },
                RevenueRoute { recipient: validator, basis_points: split.validator_bps, recipient_type: RecipientType::Validator },
                RevenueRoute {
                    recipient: self@.treasury_address,
                    basis_points: (split.shard_provider_bps + split.vault_bps) as u16,
                    recipient_type: RecipientType::Treasury,
                },
            ],
    {
        let r = vec![
            RevenueRoute { recipient: model_owner, basis_points: split.model_owner_bps, recipient_type: RecipientType::ModelOwner },
            RevenueRoute { recipient: operator, basis_points: split.operator_bps, recipient_type: RecipientType::Operator },
            RevenueRoute { recipient: validator, basis_points: split.validator_bps, recipient_type: RecipientType::Validator },
            RevenueRoute {
                recipient: self.treasury_address,
                basis_points: split.shard_provider_bps + split.vault_bps,
                recipient_type: RecipientType::Treasury,
            },
        ];
        r
    }

    pub fn get_distribution(&self, distribution_id: &Hash32) -> (r: Option<&RevenueDistribution>)
        requires
            self.wf(),
        ensures
            r is Some <==> self@.distributions.dom().contains(distribution_id.0@),
            r matches Some(d) ==> *d == self@.distributions[distribution_id.0@],
    {
        self.distributions.get(distribution_id)
    }

    /// The number of distributions ever queued.
    pub fn pending_count(&self) -> (r: usize)
        ensures
            r == self@.pending.len(),
    {
        self.pending_distributions.len()
    }

    pub fn all_distributions(&self) -> (r: &Table<Hash32, RevenueDistribution>)
        requires
            self.wf(),
        ensures
            r.wf(),
            r@ == self@.distributions,
            *r == self.distribution_table(),
    {
        &self.distributions
    }
}

impl Default for RevenueModule {
    fn default() -> (r: Self)
        ensures
            r.wf(),
            r@.distributions == Map::<Seq<u8>, RevenueDistribution>::empty(),
            r@.pending.len() == 0,
            r@.distribution_counter == 0,
            r@.treasury_address.0@ == zeros32(),
    {
        RevenueModule::new()
    }
}

} // verus!

verus! {

/// The amounts the routes take of `total`.
pub open spec fn payments_sum(routes: Seq<RevenueRoute>, total: u128) -> int
    decreases routes.len(),
{
    if routes.len() == 0 {
        0
    } else {
        payments_sum(routes.drop_last(), total) + route_amount(total, routes.last())
    }
}

proof fn lemma_payments_sum_share(routes: Seq<RevenueRoute>, total: u128)
    requires
        bps_sum(routes) <= 10000,
    ensures
        0 <= payments_sum(routes, total) <= (total * bps_sum(routes)) / 10000,
    decreases routes.len(),
{
    if routes.len() > 0 {
        let init = routes.drop_last();
        assert(bps_sum(init) <= bps_sum(routes));
        lemma_payments_sum_share(init, total);
        lemma_bps_sum_prefix(routes, routes.len() - 1);
        assert(routes.take(routes.len() - 1) =~= init);
        lemma_route_share(total, routes.last().basis_points, payments_sum(init, total), bps_sum(init));
        let b = routes.last().basis_points as int;
        assert((total * b) / 10000 <= u128::MAX) by (nonlinear_arith)
            requires
                0 <= b <= 10000,
                0 <= total <= u128::MAX,
        ;
        assert(route_amount(total, routes.last()) == (total * b) / 10000);
    }
}

/// A distribution pays out at most its total: the routes' amounts, each
/// rounded down, add up to no more than the amount distributed.
pub proof fn lemma_payments_bounded(routes: Seq<RevenueRoute>, total: u128)
    requires
        bps_sum(routes) == 10000,
    ensures
        payments_sum(routes, total) <= total,
{
    lemma_payments_sum_share(routes, total);
    assert((total * 10000) / 10000 == total) by (nonlinear_arith);
}

} // verus!
