//! In-memory mirror of ledger account state: the factory configuration and
//! the full set of gauge and quarry records, replaced wholesale on refresh.
use vstd::prelude::*;

use crate::lookup::first_index_of;
use crate::lookup::lemma_first_index_of_absent;
use crate::lookup::lemma_first_index_of_found;
use crate::KeeperError;

verus! {

/// Abstract value of a mirrored factory configuration.
#[verifier::ext_equal]
pub ghost struct GaugeFactoryStateV {
    pub pubkey: Seq<char>,
    pub base: Seq<char>,
    pub rewarder: Seq<char>,
    pub locker: Seq<char>,
    pub foreman: Seq<char>,
    pub epoch_duration_seconds: u32,
    pub current_voting_epoch: u32,
    pub next_epoch_starts_at: u64,
    pub bribe_index: u32,
}

/// Mirrored copy of the protocol's factory configuration account.
#[derive(Debug)]
pub struct GaugeFactoryState {
    pub pubkey: String,
    pub base: String,
    pub rewarder: String,
    pub locker: String,
    pub foreman: String,
    pub epoch_duration_seconds: u32,
    pub current_voting_epoch: u32,
    pub next_epoch_starts_at: u64,
    pub bribe_index: u32,
}

impl DeepView for GaugeFactoryState {
    type V = GaugeFactoryStateV;

    open spec fn deep_view(&self) -> GaugeFactoryStateV {
        GaugeFactoryStateV {
            pubkey: self.pubkey@,
            base: self.base@,
            rewarder: self.rewarder@,
            locker: self.locker@,
            foreman: self.foreman@,
            epoch_duration_seconds: self.epoch_duration_seconds,
            current_voting_epoch: self.current_voting_epoch,
            next_epoch_starts_at: self.next_epoch_starts_at,
            bribe_index: self.bribe_index,
        }
    }
}

impl Clone for GaugeFactoryState {
    fn clone(&self) -> (res: Self)
        ensures
            res.deep_view() == self.deep_view(),
    {
        GaugeFactoryState {
            pubkey: self.pubkey.clone(),
            base: self.base.clone(),
            rewarder: self.rewarder.clone(),
            locker: self.locker.clone(),
            foreman: self.foreman.clone(),
            epoch_duration_seconds: self.epoch_duration_seconds,
            current_voting_epoch: self.current_voting_epoch,
            next_epoch_starts_at: self.next_epoch_starts_at,
            bribe_index: self.bribe_index,
        }
    }
}

impl GaugeFactoryState {
    /// The most recently closed epoch, eligible for reward-share comparison.
    /// There is none until the first epoch has closed.
    pub fn rewards_epoch(&self) -> (r: Result<u32, KeeperError>)
        ensures
            self.current_voting_epoch >= 1 ==> r == Ok::<u32, KeeperError>(
                (self.current_voting_epoch - 1) as u32,
            ),
            self.current_voting_epoch == 0 ==> r == Err::<u32, KeeperError>(
                KeeperError::NoRewardsEpoch,
            ),
    {
        if self.current_voting_epoch >= 1 {
            Ok(self.current_voting_epoch - 1)
        } else {
            Err(KeeperError::NoRewardsEpoch)
        }
    }
}

/// Plain-value image of an on-ledger factory configuration account, as read
/// and decoded by the ledger gateway.
#[derive(Debug)]
pub struct GaugeFactoryAccount {
    pub rewarder: String,
    pub locker: String,
    pub foreman: String,
    pub epoch_duration_seconds: u32,
    pub current_voting_epoch: u32,
    pub next_epoch_starts_at: u64,
    pub bribe_index: u32,
}

/// Abstract value of a mirrored gauge record.
#[verifier::ext_equal]
pub ghost struct GaugeStateV {
    pub pubkey: Seq<char>,
    pub quarry: Seq<char>,
    pub amm_pool: Seq<char>,
    pub token_a_mint: Seq<char>,
    pub token_b_mint: Seq<char>,
    pub token_a_fee_key: Seq<char>,
    pub token_b_fee_key: Seq<char>,
    pub is_disabled: bool,
    pub cummulative_token_a_fee: u128,
    pub cummulative_token_b_fee: u128,
    pub cummulative_claimed_token_a_fee: u128,
    pub cummulative_claimed_token_b_fee: u128,
    pub amm_type: u64,
}

/// Mirrored copy of one gauge account, keyed by its address.
#[derive(Debug)]
pub struct GaugeState {
    pub pubkey: String,
    pub quarry: String,
    pub amm_pool: String,
    pub token_a_mint: String,
    pub token_b_mint: String,
    pub token_a_fee_key: String,
    pub token_b_fee_key: String,
    pub is_disabled: bool,
    pub cummulative_token_a_fee: u128,
    pub cummulative_token_b_fee: u128,
    pub cummulative_claimed_token_a_fee: u128,
    pub cummulative_claimed_token_b_fee: u128,
    pub amm_type: u64,
}

impl DeepView for GaugeState {
    type V = GaugeStateV;

    open spec fn deep_view(&self) -> GaugeStateV {
        GaugeStateV {
            pubkey: self.pubkey@,
            quarry: self.quarry@,
            amm_pool: self.amm_pool@,
            token_a_mint: self.token_a_mint@,
            token_b_mint: self.token_b_mint@,
            token_a_fee_key: self.token_a_fee_key@,
            token_b_fee_key: self.token_b_fee_key@,
            is_disabled: self.is_disabled,
            cummulative_token_a_fee: self.cummulative_token_a_fee,
            cummulative_token_b_fee: self.cummulative_token_b_fee,
            cummulative_claimed_token_a_fee: self.cummulative_claimed_token_a_fee,
            cummulative_claimed_token_b_fee: self.cummulative_claimed_token_b_fee,
            amm_type: self.amm_type,
        }
    }
}

impl Clone for GaugeState {
    fn clone(&self) -> (res: Self)
        ensures
            res.deep_view() == self.deep_view(),
    {
        GaugeState {
            pubkey: self.pubkey.clone(),
            quarry: self.quarry.clone(),
            amm_pool: self.amm_pool.clone(),
            token_a_mint: self.token_a_mint.clone(),
            token_b_mint: self.token_b_mint.clone(),
            token_a_fee_key: self.token_a_fee_key.clone(),
            token_b_fee_key: self.token_b_fee_key.clone(),
            is_disabled: self.is_disabled,
            cummulative_token_a_fee: self.cummulative_token_a_fee,
            cummulative_token_b_fee: self.cummulative_token_b_fee,
            cummulative_claimed_token_a_fee: self.cummulative_claimed_token_a_fee,
            cummulative_claimed_token_b_fee: self.cummulative_claimed_token_b_fee,
            amm_type: self.amm_type,
        }
    }
}

/// Abstract value of an on-ledger gauge account image.
#[verifier::ext_equal]
pub ghost struct GaugeAccountV {
    pub gauge_factory: Seq<char>,
    pub quarry: Seq<char>,
    pub amm_pool: Seq<char>,
    pub token_a_mint: Seq<char>,
    pub token_b_mint: Seq<char>,
    pub token_a_fee_key: Seq<char>,
    pub token_b_fee_key: Seq<char>,
    pub is_disabled: bool,
    pub cummulative_token_a_fee: u128,
    pub cummulative_token_b_fee: u128,
    pub cummulative_claimed_token_a_fee: u128,
    pub cummulative_claimed_token_b_fee: u128,
    pub amm_type: u64,
}

/// Plain-value image of one on-ledger gauge account, including its factory
/// link, as read and decoded by the ledger gateway.
#[derive(Debug)]
pub struct GaugeAccount {
    pub gauge_factory: String,
    pub quarry: String,
    pub amm_pool: String,
    pub token_a_mint: String,
    pub token_b_mint: String,
    pub token_a_fee_key: String,
    pub token_b_fee_key: String,
    pub is_disabled: bool,
    pub cummulative_token_a_fee: u128,
    pub cummulative_token_b_fee: u128,
    pub cummulative_claimed_token_a_fee: u128,
    pub cummulative_claimed_token_b_fee: u128,
    pub amm_type: u64,
}

impl DeepView for GaugeAccount {
    type V = GaugeAccountV;

    open spec fn deep_view(&self) -> GaugeAccountV {
        GaugeAccountV {
            gauge_factory: self.gauge_factory@,
            quarry: self.quarry@,
            amm_pool: self.amm_pool@,
            token_a_mint: self.token_a_mint@,
            token_b_mint: self.token_b_mint@,
            token_a_fee_key: self.token_a_fee_key@,
            token_b_fee_key: self.token_b_fee_key@,
            is_disabled: self.is_disabled,
            cummulative_token_a_fee: self.cummulative_token_a_fee,
            cummulative_token_b_fee: self.cummulative_token_b_fee,
            cummulative_claimed_token_a_fee: self.cummulative_claimed_token_a_fee,
            cummulative_claimed_token_b_fee: self.cummulative_claimed_token_b_fee,
            amm_type: self.amm_type,
        }
    }
}

impl Clone for GaugeAccount {
    fn clone(&self) -> (res: Self)
        ensures
            res.deep_view() == self.deep_view(),
    {
        GaugeAccount {
            gauge_factory: self.gauge_factory.clone(),
            quarry: self.quarry.clone(),
            amm_pool: self.amm_pool.clone(),
            token_a_mint: self.token_a_mint.clone(),
            token_b_mint: self.token_b_mint.clone(),
            token_a_fee_key: self.token_a_fee_key.clone(),
            token_b_fee_key: self.token_b_fee_key.clone(),
            is_disabled: self.is_disabled,
            cummulative_token_a_fee: self.cummulative_token_a_fee,
            cummulative_token_b_fee: self.cummulative_token_b_fee,
            cummulative_claimed_token_a_fee: self.cummulative_claimed_token_a_fee,
            cummulative_claimed_token_b_fee: self.cummulative_claimed_token_b_fee,
            amm_type: self.amm_type,
        }
    }
}

/// Abstract value of a mirrored quarry record.
#[verifier::ext_equal]
pub ghost struct QuarryRecordV {
    pub total_tokens_deposited: u64,
    pub num_miners: u64,
    pub famine_ts: i64,
    pub amm_pool: Seq<char>,
    pub amm_type: u64,
    pub annual_rewards_rate: u64,
    pub rewards_share: u64,
}

/// Plain-value image of one quarry account: the reward-accrual object whose
/// current share is the authoritative expected voting power for a gauge.
#[derive(Debug)]
pub struct QuarryRecord {
    pub total_tokens_deposited: u64,
    pub num_miners: u64,
    pub famine_ts: i64,
    pub amm_pool: String,
    pub amm_type: u64,
    pub annual_rewards_rate: u64,
    pub rewards_share: u64,
}

impl DeepView for QuarryRecord {
    type V = QuarryRecordV;

    open spec fn deep_view(&self) -> QuarryRecordV {
        QuarryRecordV {
            total_tokens_deposited: self.total_tokens_deposited,
            num_miners: self.num_miners,
            famine_ts: self.famine_ts,
            amm_pool: self.amm_pool@,
            amm_type: self.amm_type,
            annual_rewards_rate: self.annual_rewards_rate,
            rewards_share: self.rewards_share,
        }
    }
}

impl Clone for QuarryRecord {
    fn clone(&self) -> (res: Self)
        ensures
            res.deep_view() == self.deep_view(),
    {
        QuarryRecord {
            total_tokens_deposited: self.total_tokens_deposited,
            num_miners: self.num_miners,
            famine_ts: self.famine_ts,
            amm_pool: self.amm_pool.clone(),
            amm_type: self.amm_type,
            annual_rewards_rate: self.annual_rewards_rate,
            rewards_share: self.rewards_share,
        }
    }
}

/// Abstract value of an externally supplied pool enrichment entry.
#[verifier::ext_equal]
pub ghost struct PoolDynamicInfoV {
    pub pubkey: Seq<char>,
    pub tvl: Seq<char>,
    pub quarry_tvl: Seq<char>,
}

/// Externally supplied dynamic figures for a pool, merely looked up.
#[derive(Debug)]
pub struct PoolDynamicInfo {
    pub pubkey: String,
    pub tvl: String,
    pub quarry_tvl: String,
}

impl DeepView for PoolDynamicInfo {
    type V = PoolDynamicInfoV;

    open spec fn deep_view(&self) -> PoolDynamicInfoV {
        PoolDynamicInfoV { pubkey: self.pubkey@, tvl: self.tvl@, quarry_tvl: self.quarry_tvl@ }
    }
}

impl Clone for PoolDynamicInfo {
    fn clone(&self) -> (res: Self)
        ensures
            res.deep_view() == self.deep_view(),
    {
        PoolDynamicInfo {
            pubkey: self.pubkey.clone(),
            tvl: self.tvl.clone(),
            quarry_tvl: self.quarry_tvl.clone(),
        }
    }
}

/// Abstract value of an externally supplied quarry enrichment entry.
#[verifier::ext_equal]
pub ghost struct QuarryDynamicInfoV {
    pub pubkey: Seq<char>,
    pub tvl: Seq<char>,
    pub quarry_tvl: Seq<char>,
    pub apy: Seq<char>,
}

/// Externally supplied dynamic figures for a quarry, merely looked up.
#[derive(Debug)]
pub struct QuarryDynamicInfo {
    pub pubkey: String,
    pub tvl: String,
    pub quarry_tvl: String,
    pub apy: String,
}

impl DeepView for QuarryDynamicInfo {
    type V = QuarryDynamicInfoV;

    open spec fn deep_view(&self) -> QuarryDynamicInfoV {
        QuarryDynamicInfoV {
            pubkey: self.pubkey@,
            tvl: self.tvl@,
            quarry_tvl: self.quarry_tvl@,
            apy: self.apy@,
        }
    }
}

impl Clone for QuarryDynamicInfo {
    fn clone(&self) -> (res: Self)
        ensures
            res.deep_view() == self.deep_view(),
    {
        QuarryDynamicInfo {
            pubkey: self.pubkey.clone(),
            tvl: self.tvl.clone(),
            quarry_tvl: self.quarry_tvl.clone(),
            apy: self.apy.clone(),
        }
    }
}

/// Abstract value of one pool summary row of the query surface.
#[verifier::ext_equal]
pub ghost struct PoolInfoV {
    pub pubkey: Seq<char>,
    pub amm_type: u64,
    pub token_a_mint: Seq<char>,
    pub token_b_mint: Seq<char>,
    pub tvl: Seq<char>,
    pub quarry_tvl: Seq<char>,
}

/// Pool summary served by the query surface: the gauge-to-pool join with the
/// externally supplied figures, defaulting to "0" when absent.
#[derive(Debug)]
pub struct PoolInfo {
    pub pubkey: String,
    pub amm_type: u64,
    pub token_a_mint: String,
    pub token_b_mint: String,
    pub tvl: String,
    pub quarry_tvl: String,
}

impl DeepView for PoolInfo {
    type V = PoolInfoV;

    open spec fn deep_view(&self) -> PoolInfoV {
        PoolInfoV {
            pubkey: self.pubkey@,
            amm_type: self.amm_type,
            token_a_mint: self.token_a_mint@,
            token_b_mint: self.token_b_mint@,
            tvl: self.tvl@,
            quarry_tvl: self.quarry_tvl@,
        }
    }
}

/// Abstract value of one quarry summary row of the query surface.
#[verifier::ext_equal]
pub ghost struct QuarryInfoV {
    pub pubkey: Seq<char>,
    pub quarry_tvl: Seq<char>,
    pub apy: Seq<char>,
    pub total_tokens_deposited: u64,
    pub num_miners: u64,
    pub famine_ts: i64,
    pub amm_pool: Seq<char>,
    pub amm_type: u64,
    pub annual_rewards_rate: u64,
    pub rewards_share: u64,
}

/// Quarry summary served by the query surface: the mirrored quarry record
/// joined with the externally supplied figures, defaulting to "0" when absent.
#[derive(Debug)]
pub struct QuarryInfo {
    pub pubkey: String,
    pub quarry_tvl: String,
    pub apy: String,
    pub total_tokens_deposited: u64,
    pub num_miners: u64,
    pub famine_ts: i64,
    pub amm_pool: String,
    pub amm_type: u64,
    pub annual_rewards_rate: u64,
    pub rewards_share: u64,
}

impl DeepView for QuarryInfo {
    type V = QuarryInfoV;

    open spec fn deep_view(&self) -> QuarryInfoV {
        QuarryInfoV {
            pubkey: self.pubkey@,
            quarry_tvl: self.quarry_tvl@,
            apy: self.apy@,
            total_tokens_deposited: self.total_tokens_deposited,
            num_miners: self.num_miners,
            famine_ts: self.famine_ts,
            amm_pool: self.amm_pool@,
            amm_type: self.amm_type,
            annual_rewards_rate: self.annual_rewards_rate,
            rewards_share: self.rewards_share,
        }
    }
}

/// The gauge record that mirroring builds from one on-ledger gauge account.
pub open spec fn gauge_state_of(pubkey: Seq<char>, account: GaugeAccountV) -> GaugeStateV {
    GaugeStateV {
        pubkey: pubkey,
        quarry: account.quarry,
        amm_pool: account.amm_pool,
        token_a_mint: account.token_a_mint,
        token_b_mint: account.token_b_mint,
        token_a_fee_key: account.token_a_fee_key,
        token_b_fee_key: account.token_b_fee_key,
        is_disabled: account.is_disabled,
        cummulative_token_a_fee: account.cummulative_token_a_fee,
        cummulative_token_b_fee: account.cummulative_token_b_fee,
        cummulative_claimed_token_a_fee: account.cummulative_claimed_token_a_fee,
        cummulative_claimed_token_b_fee: account.cummulative_claimed_token_b_fee,
        amm_type: account.amm_type,
    }
}

/// The gauge records that mirroring builds from a set of gauge accounts.
pub open spec fn gauge_states_of(accounts: Seq<(Seq<char>, GaugeAccountV)>) -> Seq<GaugeStateV> {
    Seq::new(accounts.len(), |i: int| gauge_state_of(accounts[i].0, accounts[i].1))
}

/// The subsequence of gauge accounts that belong to the given factory.
pub open spec fn factory_gauges_of(
    accounts: Seq<(Seq<char>, GaugeAccountV)>,
    factory: Seq<char>,
) -> Seq<(Seq<char>, GaugeAccountV)>
    decreases accounts.len(),
{
    if accounts.len() == 0 {
        Seq::empty()
    } else {
        let rest = factory_gauges_of(accounts.drop_last(), factory);
        if accounts.last().1.gauge_factory == factory {
            rest.push(accounts.last())
        } else {
            rest
        }
    }
}

/// The addresses of a sequence of mirrored gauge records.
pub open spec fn gauge_keys_of(gauges: Seq<GaugeStateV>) -> Seq<Seq<char>> {
    Seq::new(gauges.len(), |i: int| gauges[i].pubkey)
}

/// Keeps only the gauge accounts whose factory link matches `gauge_factory`.
/// Accounts of other factories are not part of the mirrored protocol state.
pub fn filter_factory_gauges(
    gauges: &Vec<(String, GaugeAccount)>,
    gauge_factory: &String,
) -> (r: Vec<(String, GaugeAccount)>)
    ensures
        r.deep_view() == factory_gauges_of(gauges.deep_view(), gauge_factory@),
{
    let mut out: Vec<(String, GaugeAccount)> = Vec::new();
    let mut i: usize = 0;
    while i < gauges.len()
        invariant
            i <= gauges.len(),
            out.deep_view() == factory_gauges_of(
                gauges.deep_view().take(i as int),
                gauge_factory@,
            ),
        decreases gauges.len() - i,
    {
        let ghost dv = gauges.deep_view();
        let ghost pre = out.deep_view();
        let pair = &gauges[i];
        if pair.1.gauge_factory == *gauge_factory {
            out.push((pair.0.clone(), pair.1.clone()));
            proof {
                assert forall|j: int| 0 <= j < out@.len() implies out.deep_view()[j]
                    == pre.push(dv[i as int])[j] by {
                    if j < out@.len() - 1 {
                        assert(out.deep_view()[j] == out@[j].deep_view());
                    }
                }
                assert(out.deep_view() =~= pre.push(dv[i as int]));
            }
        }
        proof {
            assert(dv.take(i as int + 1).drop_last() =~= dv.take(i as int));
            assert(dv.take(i as int + 1).last() == dv[i as int]);
            assert(out.deep_view() =~= factory_gauges_of(
                dv.take(i as int + 1),
                gauge_factory@,
            ));
        }
        i += 1;
    }
    proof {
        assert(gauges.deep_view().take(gauges.len() as int) =~= gauges.deep_view());
    }
    out
}

/// The in-memory read mirror of ledger account state: the latest known
/// factory configuration and the full set of gauge and quarry records,
/// together with the externally supplied enrichment figures.
pub struct DaoState {
    pub gauge_factory: GaugeFactoryState,
    pub gauges: Vec<GaugeState>,
    pub quarries: Vec<(String, QuarryRecord)>,
    pub pools: Vec<PoolDynamicInfo>,
    pub quarry_infos: Vec<QuarryDynamicInfo>,
}

/// Builds the empty mirror that the process starts from.
pub fn init_state() -> (s: DaoState)
    ensures
        s.gauge_factory.deep_view() == (GaugeFactoryStateV {
            pubkey: Seq::<char>::empty(),
            base: Seq::<char>::empty(),
            rewarder: Seq::<char>::empty(),
            locker: Seq::<char>::empty(),
            foreman: Seq::<char>::empty(),
            epoch_duration_seconds: 0,
            current_voting_epoch: 0,
            next_epoch_starts_at: 0,
            bribe_index: 0,
        }),
        s.gauges.deep_view() == Seq::<GaugeStateV>::empty(),
        s.quarries.deep_view() == Seq::<(Seq<char>, QuarryRecordV)>::empty(),
        s.pools.deep_view() == Seq::<PoolDynamicInfoV>::empty(),
        s.quarry_infos.deep_view() == Seq::<QuarryDynamicInfoV>::empty(),
{
    DaoState {
        gauge_factory: GaugeFactoryState {
            pubkey: String::new(),
            base: String::new(),
            rewarder: String::new(),
            locker: String::new(),
            foreman: String::new(),
            epoch_duration_seconds: 0,
            current_voting_epoch: 0,
            next_epoch_starts_at: 0,
            bribe_index: 0,
        },
        gauges: Vec::new(),
        quarries: Vec::new(),
        pools: Vec::new(),
        quarry_infos: Vec::new(),
    }
}

impl DaoState {
    /// Whether a factory configuration has ever been mirrored.
    pub open spec fn spec_is_initialized(&self) -> bool {
        self.gauge_factory.pubkey@.len() != 0
    }

    /// Epoch rollover is due once the ledger clock has reached the start
    /// time of the next epoch.
    pub fn should_trigger_next_epoch(&self, current_node_time: u64) -> (r: bool)
        ensures
            r == (current_node_time >= self.gauge_factory.next_epoch_starts_at),
    {
        current_node_time >= self.gauge_factory.next_epoch_starts_at
    }

    /// Whether a factory configuration has ever been mirrored; before that,
    /// the mirror still carries the empty placeholder.
    pub fn is_gauge_factory_initialized(&self) -> (r: bool)
        ensures
            r == self.spec_is_initialized(),
    {
        !self.gauge_factory.pubkey.as_str().is_empty()
    }

    /// Atomically replaces the mirrored factory configuration.
    pub fn save_gauge_factory(
        &mut self,
        gauge_factory: &GaugeFactoryAccount,
        base: String,
        pubkey: &String,
    )
        ensures
            final(self).gauge_factory.deep_view() == (GaugeFactoryStateV {
                pubkey: pubkey@,
                base: base@,
                rewarder: gauge_factory.rewarder@,
                locker: gauge_factory.locker@,
                foreman: gauge_factory.foreman@,
                epoch_duration_seconds: gauge_factory.epoch_duration_seconds,
                current_voting_epoch: gauge_factory.current_voting_epoch,
                next_epoch_starts_at: gauge_factory.next_epoch_starts_at,
                bribe_index: gauge_factory.bribe_index,
            }),
            final(self).gauges == old(self).gauges,
            final(self).quarries == old(self).quarries,
            final(self).pools == old(self).pools,
            final(self).quarry_infos == old(self).quarry_infos,
    {
        self.gauge_factory.base = base;
        self.gauge_factory.pubkey = pubkey.clone();
        self.gauge_factory.rewarder = gauge_factory.rewarder.clone();
        self.gauge_factory.locker = gauge_factory.locker.clone();
        self.gauge_factory.foreman = gauge_factory.foreman.clone();
        self.gauge_factory.epoch_duration_seconds = gauge_factory.epoch_duration_seconds;
        self.gauge_factory.current_voting_epoch = gauge_factory.current_voting_epoch;
        self.gauge_factory.next_epoch_starts_at = gauge_factory.next_epoch_starts_at;
        self.gauge_factory.bribe_index = gauge_factory.bribe_index;
    }

    /// Atomically replaces the mirrored gauge and quarry maps in one step, so
    /// that no reader ever sees a gauge record without its linked quarry.
    pub fn save_gauges_and_quarries(
        &mut self,
        gauges: Vec<(String, GaugeAccount)>,
        quarries: Vec<(String, QuarryRecord)>,
    )
        ensures
            final(self).gauges.deep_view() == gauge_states_of(gauges.deep_view()),
            final(self).quarries.deep_view() == quarries.deep_view(),
            final(self).gauge_factory == old(self).gauge_factory,
            final(self).pools == old(self).pools,
            final(self).quarry_infos == old(self).quarry_infos,
    {
        let mut new_gauges: Vec<GaugeState> = Vec::new();
        let mut i: usize = 0;
        while i < gauges.len()
            invariant
                i <= gauges.len(),
                new_gauges@.len() == i,
                forall|j: int| 0 <= j < i ==> #[trigger] new_gauges@[j].deep_view()
                    == gauge_state_of(gauges.deep_view()[j].0, gauges.deep_view()[j].1),
            decreases gauges.len() - i,
        {
            let pair = &gauges[i];
            new_gauges.push(GaugeState {
                pubkey: pair.0.clone(),
                quarry: pair.1.quarry.clone(),
                amm_pool: pair.1.amm_pool.clone(),
                token_a_mint: pair.1.token_a_mint.clone(),
                token_b_mint: pair.1.token_b_mint.clone(),
                token_a_fee_key: pair.1.token_a_fee_key.clone(),
                token_b_fee_key: pair.1.token_b_fee_key.clone(),
                is_disabled: pair.1.is_disabled,
                cummulative_token_a_fee: pair.1.cummulative_token_a_fee,
                cummulative_token_b_fee: pair.1.cummulative_token_b_fee,
                cummulative_claimed_token_a_fee: pair.1.cummulative_claimed_token_a_fee,
                cummulative_claimed_token_b_fee: pair.1.cummulative_claimed_token_b_fee,
                amm_type: pair.1.amm_type,
            });
            i += 1;
        }
        proof {
            assert forall|j: int| 0 <= j < new_gauges@.len() implies new_gauges.deep_view()[j]
                == gauge_states_of(gauges.deep_view())[j] by {
                assert(new_gauges.deep_view()[j] == new_gauges@[j].deep_view());
            }
            assert(new_gauges.deep_view() =~= gauge_states_of(gauges.deep_view()));
        }
        self.gauges = new_gauges;
        self.quarries = quarries;
    }

    /// A copy of the current gauge records, taken under the mirror lock.
    pub fn get_gauges(&self) -> (r: Vec<GaugeState>)
        ensures
            r.deep_view() == self.gauges.deep_view(),
    {
        let mut out: Vec<GaugeState> = Vec::new();
        let mut i: usize = 0;
        while i < self.gauges.len()
            invariant
                i <= self.gauges.len(),
                out@.len() == i,
                forall|j: int| 0 <= j < i ==> #[trigger] out@[j].deep_view()
                    == self.gauges@[j].deep_view(),
            decreases self.gauges.len() - i,
        {
            out.push(self.gauges[i].clone());
            i += 1;
        }
        proof {
            assert forall|j: int| 0 <= j < out@.len() implies out.deep_view()[j]
                == self.gauges.deep_view()[j] by {
                assert(out.deep_view()[j] == out@[j].deep_view());
            }
            assert(out.deep_view() =~= self.gauges.deep_view());
        }
        out
    }

    /// Finds the first gauge record carrying the given address, or reports
    /// that the mirror does not know the gauge.
    pub fn get_gauge(gauges: &Vec<GaugeState>, pubkey: String) -> (r: Result<
        GaugeState,
        KeeperError,
    >)
        ensures
            ({
                let idx = first_index_of(gauge_keys_of(gauges.deep_view()), pubkey@);
                if idx == -1 {
                    r == Err::<GaugeState, KeeperError>(KeeperError::GaugeNotFound)
                } else {
                    r matches Ok(g) && g.deep_view() == gauges.deep_view()[idx]
                }
            }),
    {
        let ghost keys = gauge_keys_of(gauges.deep_view());
        let mut i: usize = 0;
        while i < gauges.len()
            invariant
                i <= gauges.len(),
                keys == gauge_keys_of(gauges.deep_view()),
                forall|j: int| 0 <= j < i ==> keys[j] != pubkey@,
            decreases gauges.len() - i,
        {
            if gauges[i].pubkey == pubkey {
                proof {
                    lemma_first_index_of_found(keys, pubkey@, i as int);
                }
                return Ok(gauges[i].clone());
            }
            i += 1;
        }
        proof {
            lemma_first_index_of_absent(keys, pubkey@);
        }
        Err(KeeperError::GaugeNotFound)
    }

    /// A copy of the externally supplied pool enrichment entries.
    pub fn get_pools(&self) -> (r: Vec<PoolDynamicInfo>)
        ensures
            r.deep_view() == self.pools.deep_view(),
    {
        let mut out: Vec<PoolDynamicInfo> = Vec::new();
        let mut i: usize = 0;
        while i < self.pools.len()
            invariant
                i <= self.pools.len(),
                out@.len() == i,
                forall|j: int| 0 <= j < i ==> #[trigger] out@[j].deep_view()
                    == self.pools@[j].deep_view(),
            decreases self.pools.len() - i,
        {
            out.push(self.pools[i].clone());
            i += 1;
        }
        proof {
            assert forall|j: int| 0 <= j < out@.len() implies out.deep_view()[j]
                == self.pools.deep_view()[j] by {
                assert(out.deep_view()[j] == out@[j].deep_view());
            }
            assert(out.deep_view() =~= self.pools.deep_view());
        }
        out
    }
}

} // verus!
