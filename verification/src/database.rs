//! Model of the durable store's relations: the single-row crawl-cursor
//! configuration, the per-epoch snapshot rows keyed by address, and the
//! append-only bribe rows. Writes that touch several rows happen in one
//! call, so they commit together or not at all.
use vstd::prelude::*;

use vstd::pervasive::VecAdditionalExecFns;

use crate::lookup::first_index_of;
use crate::lookup::lemma_first_index_of_absent;
use crate::lookup::lemma_first_index_of_found;
use crate::lookup::lemma_first_index_of_props;
use crate::StoreError;

verus! {

/// The single-row crawl-cursor relation: the next epoch to forward-crawl and
/// the next older epoch to backward-crawl.
#[derive(Clone, Copy, Debug, PartialEq, Eq, Structural)]
pub struct CrawlConfig {
    pub voting_epoch_up: i64,
    pub voting_epoch_down: i64,
}

/// Abstract value of a stored per-epoch snapshot row.
#[verifier::ext_equal]
pub ghost struct EpochGaugeV {
    pub address: Seq<char>,
    pub gauge: Seq<char>,
    pub total_power: i64,
    pub token_a_fee: i64,
    pub token_b_fee: i64,
    pub voting_epoch: i64,
}

/// One stored per-epoch snapshot row, keyed by its deterministic address.
#[derive(Debug)]
pub struct EpochGauge {
    pub address: String,
    pub gauge: String,
    pub total_power: i64,
    pub token_a_fee: i64,
    pub token_b_fee: i64,
    pub voting_epoch: i64,
}

impl DeepView for EpochGauge {
    type V = EpochGaugeV;

    open spec fn deep_view(&self) -> EpochGaugeV {
        EpochGaugeV {
            address: self.address@,
            gauge: self.gauge@,
            total_power: self.total_power,
            token_a_fee: self.token_a_fee,
            token_b_fee: self.token_b_fee,
            voting_epoch: self.voting_epoch,
        }
    }
}

impl Clone for EpochGauge {
    fn clone(&self) -> (res: Self)
        ensures
            res.deep_view() == self.deep_view(),
    {
        EpochGauge {
            address: self.address.clone(),
            gauge: self.gauge.clone(),
            total_power: self.total_power,
            token_a_fee: self.token_a_fee,
            token_b_fee: self.token_b_fee,
            voting_epoch: self.voting_epoch,
        }
    }
}

/// Abstract value of a stored bribe row.
#[verifier::ext_equal]
pub ghost struct BribeV {
    pub address: Seq<char>,
    pub gauge: Seq<char>,
    pub token_mint: Seq<char>,
    pub reward_each_epoch: i64,
    pub briber: Seq<char>,
    pub token_account_vault: Seq<char>,
    pub bribe_rewards_epoch_start: i64,
    pub bribe_rewards_epoch_end: i64,
    pub bribe_index: i64,
}

/// One stored bribe row, keyed by its address and never updated after
/// insertion.
#[derive(Debug)]
pub struct Bribe {
    pub address: String,
    pub gauge: String,
    pub token_mint: String,
    pub reward_each_epoch: i64,
    pub briber: String,
    pub token_account_vault: String,
    pub bribe_rewards_epoch_start: i64,
    pub bribe_rewards_epoch_end: i64,
    pub bribe_index: i64,
}

impl DeepView for Bribe {
    type V = BribeV;

    open spec fn deep_view(&self) -> BribeV {
        BribeV {
            address: self.address@,
            gauge: self.gauge@,
            token_mint: self.token_mint@,
            reward_each_epoch: self.reward_each_epoch,
            briber: self.briber@,
            token_account_vault: self.token_account_vault@,
            bribe_rewards_epoch_start: self.bribe_rewards_epoch_start,
            bribe_rewards_epoch_end: self.bribe_rewards_epoch_end,
            bribe_index: self.bribe_index,
        }
    }
}

impl Clone for Bribe {
    fn clone(&self) -> (res: Self)
        ensures
            res.deep_view() == self.deep_view(),
    {
        Bribe {
            address: self.address.clone(),
            gauge: self.gauge.clone(),
            token_mint: self.token_mint.clone(),
            reward_each_epoch: self.reward_each_epoch,
            briber: self.briber.clone(),
            token_account_vault: self.token_account_vault.clone(),
            bribe_rewards_epoch_start: self.bribe_rewards_epoch_start,
            bribe_rewards_epoch_end: self.bribe_rewards_epoch_end,
            bribe_index: self.bribe_index,
        }
    }
}

/// Abstract value of a per-epoch snapshot account image.
#[verifier::ext_equal]
pub ghost struct EpochGaugeSnapshotV {
    pub address: Seq<char>,
    pub gauge: Seq<char>,
    pub voting_epoch: u32,
    pub total_power: u64,
    pub token_a_fee: u64,
    pub token_b_fee: u64,
}

/// Plain-value image of one per-epoch snapshot account read from the ledger,
/// together with its deterministic address.
#[derive(Debug)]
pub struct EpochGaugeSnapshot {
    pub address: String,
    pub gauge: String,
    pub voting_epoch: u32,
    pub total_power: u64,
    pub token_a_fee: u64,
    pub token_b_fee: u64,
}

impl DeepView for EpochGaugeSnapshot {
    type V = EpochGaugeSnapshotV;

    open spec fn deep_view(&self) -> EpochGaugeSnapshotV {
        EpochGaugeSnapshotV {
            address: self.address@,
            gauge: self.gauge@,
            voting_epoch: self.voting_epoch,
            total_power: self.total_power,
            token_a_fee: self.token_a_fee,
            token_b_fee: self.token_b_fee,
        }
    }
}

impl Clone for EpochGaugeSnapshot {
    fn clone(&self) -> (res: Self)
        ensures
            res.deep_view() == self.deep_view(),
    {
        EpochGaugeSnapshot {
            address: self.address.clone(),
            gauge: self.gauge.clone(),
            voting_epoch: self.voting_epoch,
            total_power: self.total_power,
            token_a_fee: self.token_a_fee,
            token_b_fee: self.token_b_fee,
        }
    }
}

/// The addresses of a sequence of snapshot rows.
pub open spec fn epoch_gauge_keys(rows: Seq<EpochGaugeV>) -> Seq<Seq<char>> {
    Seq::new(rows.len(), |i: int| rows[i].address)
}

/// The addresses of a sequence of bribe rows.
pub open spec fn bribe_keys(rows: Seq<BribeV>) -> Seq<Seq<char>> {
    Seq::new(rows.len(), |i: int| rows[i].address)
}

/// No two elements of `keys` are the same address.
pub open spec fn unique_keys(keys: Seq<Seq<char>>) -> bool {
    forall|i: int, j: int| 0 <= i < j < keys.len() ==> keys[i] != keys[j]
}

/// The snapshot row that a freshly inserted snapshot produces.
pub open spec fn row_of_snapshot(s: EpochGaugeSnapshotV) -> EpochGaugeV {
    EpochGaugeV {
        address: s.address,
        gauge: s.gauge,
        total_power: s.total_power as i64,
        token_a_fee: s.token_a_fee as i64,
        token_b_fee: s.token_b_fee as i64,
        voting_epoch: s.voting_epoch as i64,
    }
}

/// The snapshot row after an upsert hits an existing row: the total power
/// and the fee totals are overwritten, everything else is retained.
pub open spec fn overwritten_row(r: EpochGaugeV, s: EpochGaugeSnapshotV) -> EpochGaugeV {
    EpochGaugeV {
        total_power: s.total_power as i64,
        token_a_fee: s.token_a_fee as i64,
        token_b_fee: s.token_b_fee as i64,
        ..r
    }
}

/// One upsert-by-address of a snapshot into the snapshot relation.
pub open spec fn upsert_one(rows: Seq<EpochGaugeV>, s: EpochGaugeSnapshotV) -> Seq<EpochGaugeV> {
    let idx = first_index_of(epoch_gauge_keys(rows), s.address);
    if idx == -1 {
        rows.push(row_of_snapshot(s))
    } else {
        rows.update(idx, overwritten_row(rows[idx], s))
    }
}

/// The snapshot relation after upserting a batch of snapshots in order.
pub open spec fn upsert_all(
    rows: Seq<EpochGaugeV>,
    snaps: Seq<EpochGaugeSnapshotV>,
) -> Seq<EpochGaugeV>
    decreases snaps.len(),
{
    if snaps.len() == 0 {
        rows
    } else {
        upsert_one(upsert_all(rows, snaps.drop_last()), snaps.last())
    }
}

/// The snapshot rows recorded for one epoch, in store order.
pub open spec fn epoch_gauges_for(rows: Seq<EpochGaugeV>, epoch: int) -> Seq<EpochGaugeV>
    decreases rows.len(),
{
    if rows.len() == 0 {
        Seq::empty()
    } else {
        let rest = epoch_gauges_for(rows.drop_last(), epoch);
        if rows.last().voting_epoch == epoch {
            rest.push(rows.last())
        } else {
            rest
        }
    }
}

/// The bribe rows whose epoch interval contains `epoch`, in store order.
pub open spec fn bribes_covering(rows: Seq<BribeV>, epoch: int) -> Seq<BribeV>
    decreases rows.len(),
{
    if rows.len() == 0 {
        Seq::empty()
    } else {
        let rest = bribes_covering(rows.drop_last(), epoch);
        if rows.last().bribe_rewards_epoch_start <= epoch
            && rows.last().bribe_rewards_epoch_end >= epoch {
            rest.push(rows.last())
        } else {
            rest
        }
    }
}

/// The largest stored bribe index, or -1 when no bribe is stored.
pub open spec fn max_bribe_index(rows: Seq<BribeV>) -> int
    decreases rows.len(),
{
    if rows.len() == 0 {
        -1
    } else {
        let rest = max_bribe_index(rows.drop_last());
        if rows.last().bribe_index > rest {
            rows.last().bribe_index as int
        } else {
            rest
        }
    }
}

/// The durable store: crawl-cursor configuration, snapshot relation and
/// bribe relation.
pub struct Store {
    pub crawl_config: Option<CrawlConfig>,
    pub epoch_gauges: Vec<EpochGauge>,
    pub bribes: Vec<Bribe>,
}

impl Store {
    /// Both relations keep their address keys unique; the schema enforces
    /// this with unique constraints, the model carries it as an invariant.
    pub open spec fn wf(&self) -> bool {
        &&& unique_keys(epoch_gauge_keys(self.epoch_gauges.deep_view()))
        &&& unique_keys(bribe_keys(self.bribes.deep_view()))
    }

    /// A store with no configuration row, no snapshots and no bribes.
    pub fn new() -> (s: Store)
        ensures
            s.wf(),
            s.crawl_config is None,
            s.epoch_gauges.deep_view() == Seq::<EpochGaugeV>::empty(),
            s.bribes.deep_view() == Seq::<BribeV>::empty(),
    {
        Store { crawl_config: None, epoch_gauges: Vec::new(), bribes: Vec::new() }
    }
}

/// Reads the forward crawl cursor from the configuration row.
pub fn get_voting_epoch_up(store: &Store) -> (r: Result<i64, StoreError>)
    ensures
        match store.crawl_config {
            Some(c) => r == Ok::<i64, StoreError>(c.voting_epoch_up),
            None => r == Err::<i64, StoreError>(StoreError::RowNotFound),
        },
{
    match store.crawl_config {
        Some(c) => Ok(c.voting_epoch_up),
        None => Err(StoreError::RowNotFound),
    }
}

/// Reads the backward crawl cursor from the configuration row.
pub fn get_voting_epoch_down(store: &Store) -> (r: Result<i64, StoreError>)
    ensures
        match store.crawl_config {
            Some(c) => r == Ok::<i64, StoreError>(c.voting_epoch_down),
            None => r == Err::<i64, StoreError>(StoreError::RowNotFound),
        },
{
    match store.crawl_config {
        Some(c) => Ok(c.voting_epoch_down),
        None => Err(StoreError::RowNotFound),
    }
}

/// Seeds the crawl cursors from the authoritative current voting epoch:
/// forward crawling starts at the current epoch, backward crawling at the
/// one before it.
pub fn init_crawl_config(store: &mut Store, current_voting_epoch: i64)
    requires
        i64::MIN < current_voting_epoch,
    ensures
        final(store).crawl_config == Some(CrawlConfig {
            voting_epoch_up: current_voting_epoch,
            voting_epoch_down: (current_voting_epoch - 1) as i64,
        }),
        final(store).epoch_gauges == old(store).epoch_gauges,
        final(store).bribes == old(store).bribes,
{
    store.crawl_config = Some(CrawlConfig {
        voting_epoch_up: current_voting_epoch,
        voting_epoch_down: current_voting_epoch - 1,
    });
}

/// Reads the largest stored bribe index, or -1 when no bribe is stored yet.
pub fn get_max_bribe_index(store: &Store) -> (r: i64)
    ensures
        r as int == max_bribe_index(store.bribes.deep_view()),
{
    let mut m: i64 = -1;
    let mut i: usize = 0;
    while i < store.bribes.len()
        invariant
            i <= store.bribes.len(),
            m as int == max_bribe_index(store.bribes.deep_view().take(i as int)),
        decreases store.bribes.len() - i,
    {
        if store.bribes[i].bribe_index > m {
            m = store.bribes[i].bribe_index;
        }
        proof {
            let dv = store.bribes.deep_view();
            assert(dv.take(i as int + 1).drop_last() =~= dv.take(i as int));
            assert(dv.take(i as int + 1).last() == dv[i as int]);
        }
        i += 1;
    }
    proof {
        assert(store.bribes.deep_view().take(store.bribes.len() as int)
            =~= store.bribes.deep_view());
    }
    m
}

/// Selects the snapshot rows recorded for `epoch`.
pub fn get_epoch_gauges(store: &Store, epoch: i64) -> (r: Vec<EpochGauge>)
    ensures
        r.deep_view() == epoch_gauges_for(store.epoch_gauges.deep_view(), epoch as int),
{
    let mut out: Vec<EpochGauge> = Vec::new();
    let mut i: usize = 0;
    while i < store.epoch_gauges.len()
        invariant
            i <= store.epoch_gauges.len(),
            out.deep_view() == epoch_gauges_for(
                store.epoch_gauges.deep_view().take(i as int),
                epoch as int,
            ),
        decreases store.epoch_gauges.len() - i,
    {
        let ghost dv = store.epoch_gauges.deep_view();
        let ghost pre = out.deep_view();
        if store.epoch_gauges[i].voting_epoch == epoch {
            out.push(store.epoch_gauges[i].clone());
            proof {
                assert forall|j: int| 0 <= j < out@.len() implies out.deep_view()[j]
                    == pre.push(dv[i as int])[j] by {
                    if j < out@.len() - 1 {
                        assert(out.deep_view()[j] == out@[j].deep_view());
                    }
                }
                assert(out.deep_view() =~= pre.push(dv[i as int]));
            }
        }
        proof {
            assert(dv.take(i as int + 1).drop_last() =~= dv.take(i as int));
            assert(dv.take(i as int + 1).last() == dv[i as int]);
        }
        i += 1;
    }
    proof {
        assert(store.epoch_gauges.deep_view().take(store.epoch_gauges.len() as int)
            =~= store.epoch_gauges.deep_view());
    }
    out
}

/// Selects the bribe rows whose epoch interval contains `epoch`.
pub fn get_bribes(store: &Store, epoch: i64) -> (r: Vec<Bribe>)
    ensures
        r.deep_view() == bribes_covering(store.bribes.deep_view(), epoch as int),
{
    let mut out: Vec<Bribe> = Vec::new();
    let mut i: usize = 0;
    while i < store.bribes.len()
        invariant
            i <= store.bribes.len(),
            out.deep_view() == bribes_covering(store.bribes.deep_view().take(i as int), epoch as int),
        decreases store.bribes.len() - i,
    {
        let ghost dv = store.bribes.deep_view();
        let ghost pre = out.deep_view();
        if store.bribes[i].bribe_rewards_epoch_start <= epoch
            && store.bribes[i].bribe_rewards_epoch_end >= epoch {
            out.push(store.bribes[i].clone());
            proof {
                assert forall|j: int| 0 <= j < out@.len() implies out.deep_view()[j]
                    == pre.push(dv[i as int])[j] by {
                    if j < out@.len() - 1 {
                        assert(out.deep_view()[j] == out@[j].deep_view());
                    }
                }
                assert(out.deep_view() =~= pre.push(dv[i as int]));
            }
        }
        proof {
            assert(dv.take(i as int + 1).drop_last() =~= dv.take(i as int));
            assert(dv.take(i as int + 1).last() == dv[i as int]);
        }
        i += 1;
    }
    proof {
        assert(store.bribes.deep_view().take(store.bribes.len() as int)
            =~= store.bribes.deep_view());
    }
    out
}

/// Appends a bribe row. Bribe rows are immutable once issued, so an insert
/// that hits an existing address is refused and leaves the store unchanged.
pub fn save_bribe(store: &mut Store, bribe: Bribe) -> (r: Result<(), StoreError>)
    requires
        old(store).wf(),
    ensures
        final(store).wf(),
        ({
            let keys = bribe_keys(old(store).bribes.deep_view());
            if first_index_of(keys, bribe.address@) == -1 {
                &&& r == Ok::<(), StoreError>(())
                &&& final(store).bribes.deep_view() == old(store).bribes.deep_view().push(
                    bribe.deep_view(),
                )
            } else {
                &&& r == Err::<(), StoreError>(StoreError::DuplicateRow)
                &&& final(store).bribes == old(store).bribes
            }
        }),
        final(store).crawl_config == old(store).crawl_config,
        final(store).epoch_gauges == old(store).epoch_gauges,
{
    let ghost keys = bribe_keys(store.bribes.deep_view());
    let mut i: usize = 0;
    while i < store.bribes.len()
        invariant
            i <= store.bribes.len(),
            store.wf(),
            store.bribes == old(store).bribes,
            store.epoch_gauges == old(store).epoch_gauges,
            store.crawl_config == old(store).crawl_config,
            keys == bribe_keys(store.bribes.deep_view()),
            forall|j: int| 0 <= j < i ==> keys[j] != bribe.address@,
        decreases store.bribes.len() - i,
    {
        if store.bribes[i].address == bribe.address {
            proof {
                lemma_first_index_of_found(keys, bribe.address@, i as int);
            }
            return Err(StoreError::DuplicateRow);
        }
        i += 1;
    }
    proof {
        lemma_first_index_of_absent(keys, bribe.address@);
    }
    let ghost pre = store.bribes.deep_view();
    store.bribes.push(bribe);
    proof {
        assert forall|j: int| 0 <= j < store.bribes@.len() implies store.bribes.deep_view()[j]
            == pre.push(bribe.deep_view())[j] by {
            if j < store.bribes@.len() - 1 {
                assert(store.bribes.deep_view()[j] == store.bribes@[j].deep_view());
            }
        }
        assert(store.bribes.deep_view() =~= pre.push(bribe.deep_view()));
        assert forall|a: int, b: int|
            0 <= a < b < bribe_keys(store.bribes.deep_view()).len() implies bribe_keys(
            store.bribes.deep_view(),
        )[a] != bribe_keys(store.bribes.deep_view())[b] by {
            assert(bribe_keys(store.bribes.deep_view())[a] == store.bribes.deep_view()[a].address);
            assert(bribe_keys(store.bribes.deep_view())[b] == store.bribes.deep_view()[b].address);
            if b < pre.len() {
                assert(keys[a] == pre[a].address && keys[b] == pre[b].address);
            } else {
                assert(store.bribes.deep_view()[b] == bribe.deep_view());
                if a < pre.len() {
                    assert(keys[a] == pre[a].address);
                }
            }
        }
    }
    Ok(())
}

/// What one upsert does to the snapshot relation: the row for the snapshot's
/// address is created or overwritten, every other row is untouched, and
/// address keys stay unique.
pub proof fn lemma_upsert_one_props(rows: Seq<EpochGaugeV>, s: EpochGaugeSnapshotV)
    requires
        unique_keys(epoch_gauge_keys(rows)),
    ensures
        ({
            let after = upsert_one(rows, s);
            let idx0 = first_index_of(epoch_gauge_keys(rows), s.address);
            let k = if idx0 == -1 { rows.len() as int } else { idx0 };
            &&& unique_keys(epoch_gauge_keys(after))
            &&& after.len() == (if idx0 == -1 { rows.len() + 1 } else { rows.len() })
            &&& 0 <= k < after.len()
            &&& after[k].address == s.address
            &&& after[k].total_power == s.total_power as i64
            &&& after[k].token_a_fee == s.token_a_fee as i64
            &&& after[k].token_b_fee == s.token_b_fee as i64
            &&& forall|j: int| 0 <= j < after.len() && j != k ==> after[j] == rows[j]
                && #[trigger] after[j].address != s.address
            &&& first_index_of(epoch_gauge_keys(after), s.address) == k
        }),
{
    let after = upsert_one(rows, s);
    let keys = epoch_gauge_keys(rows);
    let idx0 = first_index_of(keys, s.address);
    lemma_first_index_of_props(keys, s.address);
    if idx0 == -1 {
        assert forall|j: int| 0 <= j < rows.len() implies #[trigger] rows[j].address
            != s.address by {
            assert(keys[j] == rows[j].address);
        }
        assert(epoch_gauge_keys(after) =~= keys.push(s.address));
        assert forall|a: int, b: int|
            0 <= a < b < epoch_gauge_keys(after).len() implies epoch_gauge_keys(after)[a]
            != epoch_gauge_keys(after)[b] by {
            if b < rows.len() {
                assert(keys[a] != keys[b]);
            }
        }
        lemma_first_index_of_found(epoch_gauge_keys(after), s.address, rows.len() as int);
    } else {
        assert(rows[idx0].address == s.address) by {
            assert(keys[idx0] == rows[idx0].address);
        }
        assert forall|j: int| 0 <= j < rows.len() && j != idx0 implies #[trigger] rows[j].address
            != s.address by {
            assert(keys[j] == rows[j].address);
            if j < idx0 {
            } else {
                assert(keys[idx0] != keys[j]);
            }
        }
        assert(epoch_gauge_keys(after) =~= keys);
        lemma_first_index_of_found(epoch_gauge_keys(after), s.address, idx0);
    }
}

/// Upserting the same snapshot address twice leaves exactly one row carrying
/// that address, and that row retains the values written last.
pub proof fn lemma_upsert_same_address_twice(
    rows: Seq<EpochGaugeV>,
    s1: EpochGaugeSnapshotV,
    s2: EpochGaugeSnapshotV,
)
    requires
        unique_keys(epoch_gauge_keys(rows)),
        s1.address == s2.address,
    ensures
        ({
            let after = upsert_one(upsert_one(rows, s1), s2);
            exists|k: int|
                {
                    &&& 0 <= k < after.len()
                    &&& #[trigger] after[k].address == s2.address
                    &&& after[k].total_power == s2.total_power as i64
                    &&& forall|j: int| 0 <= j < after.len() && j != k
                        ==> #[trigger] after[j].address != s2.address
                }
        }),
{
    let mid = upsert_one(rows, s1);
    let after = upsert_one(mid, s2);
    lemma_upsert_one_props(rows, s1);
    lemma_upsert_one_props(mid, s2);
    let idx0 = first_index_of(epoch_gauge_keys(rows), s1.address);
    let k1 = if idx0 == -1 { rows.len() as int } else { idx0 };
    assert(first_index_of(epoch_gauge_keys(mid), s2.address) == k1);
    assert(0 <= k1 < after.len() && after[k1].address == s2.address && after[k1].total_power
        == s2.total_power as i64 && forall|j: int|
        0 <= j < after.len() && j != k1 ==> #[trigger] after[j].address != s2.address);
}

/// Upserts one snapshot into the snapshot relation, keyed by its address.
fn upsert_snapshot(rows: &mut Vec<EpochGauge>, snap: &EpochGaugeSnapshot)
    requires
        unique_keys(epoch_gauge_keys(old(rows).deep_view())),
    ensures
        final(rows).deep_view() == upsert_one(old(rows).deep_view(), snap.deep_view()),
        unique_keys(epoch_gauge_keys(final(rows).deep_view())),
{
    let ghost dv0 = rows.deep_view();
    let ghost keys = epoch_gauge_keys(dv0);
    proof {
        lemma_upsert_one_props(dv0, snap.deep_view());
    }
    let mut i: usize = 0;
    while i < rows.len()
        invariant
            i <= rows.len(),
            dv0 == old(rows).deep_view(),
            rows.deep_view() == dv0,
            rows@.len() == dv0.len(),
            keys == epoch_gauge_keys(dv0),
            unique_keys(keys),
            forall|j: int| 0 <= j < i ==> keys[j] != snap.address@,
        decreases rows.len() - i,
    {
        if rows[i].address == snap.address {
            proof {
                assert(keys[i as int] == rows.deep_view()[i as int].address);
                assert(rows.deep_view()[i as int] == rows@[i as int].deep_view());
                lemma_first_index_of_found(keys, snap.address@, i as int);
            }
            let updated = EpochGauge {
                address: rows[i].address.clone(),
                gauge: rows[i].gauge.clone(),
                total_power: snap.total_power as i64,
                token_a_fee: snap.token_a_fee as i64,
                token_b_fee: snap.token_b_fee as i64,
                voting_epoch: rows[i].voting_epoch,
            };
            let ghost uv = updated.deep_view();
            let ghost pre_rows = rows@;
            rows.set(i, updated);
            proof {
                let sv = snap.deep_view();
                let want = dv0.update(i as int, overwritten_row(dv0[i as int], sv));
                assert(uv == overwritten_row(dv0[i as int], sv)) by {
                    assert(dv0[i as int] == pre_rows[i as int].deep_view());
                }
                assert forall|j: int| 0 <= j < rows@.len() implies rows.deep_view()[j]
                    == want[j] by {
                    assert(rows.deep_view()[j] == rows@[j].deep_view());
                    if j != i as int {
                        assert(rows@[j] == pre_rows[j]);
                        assert(dv0[j] == pre_rows[j].deep_view());
                    }
                }
                assert(rows.deep_view() =~= want);
                lemma_upsert_one_props(dv0, snap.deep_view());
            }
            return ;
        }
        proof {
            assert(keys[i as int] == rows.deep_view()[i as int].address);
            assert(rows.deep_view()[i as int] == rows@[i as int].deep_view());
        }
        i += 1;
    }
    proof {
        lemma_first_index_of_absent(keys, snap.address@);
    }
    let fresh = EpochGauge {
        address: snap.address.clone(),
        gauge: snap.gauge.clone(),
        total_power: snap.total_power as i64,
        token_a_fee: snap.token_a_fee as i64,
        token_b_fee: snap.token_b_fee as i64,
        voting_epoch: snap.voting_epoch as i64,
    };
    let ghost fv = fresh.deep_view();
    let ghost pre_rows = rows@;
    rows.push(fresh);
    proof {
        assert(fv == row_of_snapshot(snap.deep_view()));
        let want = dv0.push(row_of_snapshot(snap.deep_view()));
        assert forall|j: int| 0 <= j < rows@.len() implies rows.deep_view()[j] == want[j] by {
            assert(rows.deep_view()[j] == rows@[j].deep_view());
            if j < rows@.len() - 1 {
                assert(rows@[j] == pre_rows[j]);
                assert(dv0[j] == pre_rows[j].deep_view());
            }
        }
        assert(rows.deep_view() =~= want);
        lemma_upsert_one_props(dv0, snap.deep_view());
    }
}

/// Persists one forward crawl step in a single transaction: the fetched
/// snapshots are upserted by address and, when the step may advance, the
/// forward cursor is set to `voting_epoch_up` in the same commit.
pub fn save_epoch_gauges_up(
    store: &mut Store,
    epoch_gauges: &Vec<EpochGaugeSnapshot>,
    voting_epoch_up: i64,
    should_save_voting_epoch: bool,
)
    requires
        old(store).wf(),
    ensures
        final(store).wf(),
        final(store).epoch_gauges.deep_view() == upsert_all(
            old(store).epoch_gauges.deep_view(),
            epoch_gauges.deep_view(),
        ),
        final(store).bribes == old(store).bribes,
        ({
            let pre = old(store).crawl_config;
            if should_save_voting_epoch {
                match pre {
                    Some(c) => final(store).crawl_config == Some(CrawlConfig {
                        voting_epoch_up: voting_epoch_up,
                        voting_epoch_down: c.voting_epoch_down,
                    }),
                    None => final(store).crawl_config is None,
                }
            } else {
                final(store).crawl_config == pre
            }
        }),
{
    if should_save_voting_epoch {
        match store.crawl_config {
            Some(c) => {
                store.crawl_config = Some(CrawlConfig {
                    voting_epoch_up: voting_epoch_up,
                    voting_epoch_down: c.voting_epoch_down,
                });
            },
            None => {},
        }
    }
    let ghost dv0 = store.epoch_gauges.deep_view();
    let ghost snaps = epoch_gauges.deep_view();
    let ghost config_after = store.crawl_config;
    let mut i: usize = 0;
    while i < epoch_gauges.len()
        invariant
            i <= epoch_gauges.len(),
            snaps == epoch_gauges.deep_view(),
            store.epoch_gauges.deep_view() == upsert_all(dv0, snaps.take(i as int)),
            unique_keys(epoch_gauge_keys(store.epoch_gauges.deep_view())),
            unique_keys(bribe_keys(store.bribes.deep_view())),
            store.bribes == old(store).bribes,
            store.crawl_config == config_after,
        decreases epoch_gauges.len() - i,
    {
        upsert_snapshot(&mut store.epoch_gauges, &epoch_gauges[i]);
        proof {
            assert(snaps.take(i as int + 1).drop_last() =~= snaps.take(i as int));
            assert(snaps.take(i as int + 1).last() == snaps[i as int]);
        }
        i += 1;
    }
    proof {
        assert(snaps.take(epoch_gauges.len() as int) =~= snaps);
    }
}

/// Persists one backward crawl step in a single transaction: the fetched
/// snapshots are upserted by address and the backward cursor is set to
/// `voting_epoch_down` in the same commit.
pub fn save_epoch_gauges_down(
    store: &mut Store,
    epoch_gauges: &Vec<EpochGaugeSnapshot>,
    voting_epoch_down: i64,
)
    requires
        old(store).wf(),
    ensures
        final(store).wf(),
        final(store).epoch_gauges.deep_view() == upsert_all(
            old(store).epoch_gauges.deep_view(),
            epoch_gauges.deep_view(),
        ),
        final(store).bribes == old(store).bribes,
        ({
            match old(store).crawl_config {
                Some(c) => final(store).crawl_config == Some(CrawlConfig {
                    voting_epoch_up: c.voting_epoch_up,
                    voting_epoch_down: voting_epoch_down,
                }),
                None => final(store).crawl_config is None,
            }
        }),
{
    match store.crawl_config {
        Some(c) => {
            store.crawl_config = Some(CrawlConfig {
                voting_epoch_up: c.voting_epoch_up,
                voting_epoch_down: voting_epoch_down,
            });
        },
        None => {},
    }
    let ghost dv0 = store.epoch_gauges.deep_view();
    let ghost snaps = epoch_gauges.deep_view();
    let ghost config_after = store.crawl_config;
    let mut i: usize = 0;
    while i < epoch_gauges.len()
        invariant
            i <= epoch_gauges.len(),
            snaps == epoch_gauges.deep_view(),
            store.epoch_gauges.deep_view() == upsert_all(dv0, snaps.take(i as int)),
            unique_keys(epoch_gauge_keys(store.epoch_gauges.deep_view())),
            unique_keys(bribe_keys(store.bribes.deep_view())),
            store.bribes == old(store).bribes,
            store.crawl_config == config_after,
        decreases epoch_gauges.len() - i,
    {
        upsert_snapshot(&mut store.epoch_gauges, &epoch_gauges[i]);
        proof {
            assert(snaps.take(i as int + 1).drop_last() =~= snaps.take(i as int));
            assert(snaps.take(i as int + 1).last() == snaps[i as int]);
        }
        i += 1;
    }
    proof {
        assert(snaps.take(epoch_gauges.len() as int) =~= snaps);
    }
}

} // verus!
