//! The keeper engine: the core state (mirror, cache, durable store) and the
//! decision logic of the crawler and cache-refresh tasks. The periodic tasks
//! around the library read the ledger, hand plain values in, and carry the
//! returned decisions out.
use vstd::prelude::*;

use crate::database::bribe_keys;
use crate::database::bribes_covering;
use crate::database::epoch_gauges_for;
use crate::database::get_bribes;
use crate::database::get_epoch_gauges;
use crate::database::get_max_bribe_index;
use crate::database::get_voting_epoch_down;
use crate::database::get_voting_epoch_up;
use crate::database::init_crawl_config;
use crate::database::max_bribe_index;
use crate::database::save_bribe;
use crate::database::save_epoch_gauges_down;
use crate::database::save_epoch_gauges_up;
use crate::database::Bribe;
use crate::database::BribeV;
use crate::database::CrawlConfig;
use crate::database::EpochGaugeSnapshot;
use crate::database::EpochGaugeV;
use crate::database::Store;
use crate::epochs::retention_start;
use crate::epochs::BribeInfo;
use crate::epochs::BribeInfoV;
use crate::epochs::EpochGaugeInfoWrapper;
use crate::epochs::EpochInfos;
use crate::epochs::GaugeInfo;
use crate::epochs::GaugeInfoV;
use crate::lookup::first_index_of;
use crate::lookup::lemma_first_index_of_absent;
use crate::lookup::lemma_first_index_of_found;
use crate::state::gauge_keys_of;
use crate::state::DaoState;
use crate::state::GaugeAccount;
use crate::state::GaugeFactoryAccount;
use crate::state::GaugeFactoryState;
use crate::state::GaugeFactoryStateV;
use crate::state::GaugeState;
use crate::state::GaugeStateV;
use crate::state::PoolDynamicInfoV;
use crate::state::PoolInfo;
use crate::state::PoolInfoV;
use crate::state::QuarryDynamicInfoV;
use crate::state::QuarryInfo;
use crate::state::QuarryInfoV;
use crate::state::QuarryRecord;
use crate::state::QuarryRecordV;
use crate::KeeperError;

verus! {

/// Where the forward cursor stands after one forward step under the
/// authoritative current epoch: it advances only while strictly behind.
pub open spec fn next_epoch_up(up: int, current: int) -> int {
    if up < current {
        up + 1
    } else {
        up
    }
}

/// Where the backward cursor stands after one backward step: it only
/// decreases, and stops moving once it has gone negative.
pub open spec fn next_epoch_down(down: int) -> int {
    if down < 0 {
        down
    } else {
        down - 1
    }
}

/// The forward cursor after a sequence of forward steps, one per entry of
/// `currents` (the authoritative current epoch seen by each step).
pub open spec fn epoch_up_after(up: int, currents: Seq<int>) -> int
    decreases currents.len(),
{
    if currents.len() == 0 {
        up
    } else {
        next_epoch_up(epoch_up_after(up, currents.drop_last()), currents.last())
    }
}

/// The backward cursor after a number of backward steps.
pub open spec fn epoch_down_after(down: int, steps: nat) -> int
    decreases steps,
{
    if steps == 0 {
        down
    } else {
        next_epoch_down(epoch_down_after(down, (steps - 1) as nat))
    }
}

/// A sequence is sorted in non-decreasing order.
pub open spec fn non_decreasing(s: Seq<int>) -> bool {
    forall|i: int, j: int| 0 <= i <= j < s.len() ==> s[i] <= s[j]
}

/// Law of the forward cursor: over any sequence of forward steps the cursor
/// never moves back, and while the authoritative current epoch only grows
/// and the cursor starts at or below it, the cursor never exceeds the
/// current epoch seen by the last step.
pub proof fn lemma_epoch_up_monotone_and_bounded(up: int, currents: Seq<int>)
    ensures
        epoch_up_after(up, currents) >= up,
        currents.len() > 0 && up <= currents[0] && non_decreasing(currents) ==> epoch_up_after(
            up,
            currents,
        ) <= currents.last(),
    decreases currents.len(),
{
    if currents.len() > 0 {
        let prefix = currents.drop_last();
        lemma_epoch_up_monotone_and_bounded(up, prefix);
        assert(non_decreasing(currents) ==> non_decreasing(prefix)) by {
            assert(forall|i: int, j: int| 0 <= i <= j < prefix.len() ==> prefix[i] == currents[i]
                && prefix[j] == currents[j]);
        }
        if currents.len() > 1 && up <= currents[0] && non_decreasing(currents) {
            assert(prefix.last() == currents[currents.len() - 2]);
            assert(prefix.last() <= currents.last());
        }
    }
}

/// Law of the backward cursor: over any number of backward steps the cursor
/// never increases, it never falls below -1 when it starts at or above -1,
/// and once it is negative further steps leave it unchanged.
pub proof fn lemma_epoch_down_monotone_and_terminal(down: int, steps: nat)
    ensures
        epoch_down_after(down, steps) <= down,
        down >= -1 ==> epoch_down_after(down, steps) >= -1,
        down < 0 ==> epoch_down_after(down, steps) == down,
    decreases steps,
{
    if steps > 0 {
        lemma_epoch_down_monotone_and_terminal(down, (steps - 1) as nat);
    }
}

/// The largest stored bribe index never falls below -1.
pub proof fn lemma_max_bribe_index_at_least(rows: Seq<BribeV>)
    ensures
        max_bribe_index(rows) >= -1,
    decreases rows.len(),
{
    if rows.len() > 0 {
        lemma_max_bribe_index_at_least(rows.drop_last());
    }
}

/// Appending a bribe whose index tops the stored maximum by one advances the
/// maximum by exactly one.
pub proof fn lemma_step_bribe_advances_max(rows: Seq<BribeV>, b: BribeV)
    requires
        b.bribe_index == max_bribe_index(rows) + 1,
    ensures
        max_bribe_index(rows.push(b)) == max_bribe_index(rows) + 1,
{
    assert(rows.push(b).drop_last() =~= rows);
    assert(rows.push(b).last() == b);
}

/// Every stored bribe carries its own position as its index.
pub open spec fn indexes_sequential(rows: Seq<BribeV>) -> bool {
    forall|i: int| 0 <= i < rows.len() ==> #[trigger] rows[i].bribe_index == i
}

/// Law of the bribe crawler: when the stored bribes carry the indexes
/// 0, 1, ..., N-1 — as sequential bribe steps from an empty store produce —
/// the largest stored index is N-1.
pub proof fn lemma_sequential_bribes_max(rows: Seq<BribeV>)
    requires
        indexes_sequential(rows),
    ensures
        max_bribe_index(rows) == rows.len() - 1,
    decreases rows.len(),
{
    if rows.len() > 0 {
        assert(indexes_sequential(rows.drop_last())) by {
            assert(forall|i: int| 0 <= i < rows.len() - 1 ==> rows.drop_last()[i] == rows[i]);
        }
        lemma_sequential_bribes_max(rows.drop_last());
        assert(rows.last().bribe_index == rows.len() - 1);
    }
}

/// Inductive step of the bribe crawl: a store whose bribes carry the
/// indexes 0, 1, ..., N-1, extended by the bribe the crawler fetched for
/// the next index, carries the indexes 0, 1, ..., N — so N sequential
/// steps from an empty store leave `max_bribe_index` at N-1.
pub proof fn lemma_bribe_crawl_step(rows: Seq<BribeV>, b: BribeV)
    requires
        indexes_sequential(rows),
        b.bribe_index == max_bribe_index(rows) + 1,
    ensures
        indexes_sequential(rows.push(b)),
        max_bribe_index(rows.push(b)) == rows.len() as int,
{
    lemma_sequential_bribes_max(rows);
    lemma_step_bribe_advances_max(rows, b);
    assert forall|i: int| 0 <= i < rows.push(b).len() implies #[trigger] rows.push(
        b,
    )[i].bribe_index == i by {
        if i < rows.len() {
            assert(rows.push(b)[i] == rows[i]);
        }
    }
}

/// The next bribe index to crawl: one past the largest stored index, unless
/// the store has already caught up with the authoritative counter.
pub open spec fn spec_next_bribe_target(rows: Seq<BribeV>, factory_bribe_index: u32) -> Option<
    u32,
> {
    let observed = max_bribe_index(rows);
    if observed >= factory_bribe_index - 1 {
        None
    } else {
        Some((observed + 1) as u32)
    }
}

/// The keeper's core state: the ledger mirror, the aggregate-view cache and
/// the durable store, together with the configured base address.
pub struct Core {
    pub base: String,
    pub state: DaoState,
    pub epochs: EpochInfos,
    pub store: Store,
}

impl Core {
    /// The store's address keys stay unique.
    pub open spec fn wf(&self) -> bool {
        self.store.wf()
    }

    /// Initializes the engine from the first successful reads: replaces the
    /// mirror wholesale and, when no crawl cursor has ever been persisted,
    /// seeds it from the authoritative current voting epoch.
    pub fn init(
        &mut self,
        gauge_factory: GaugeFactoryAccount,
        gauge_factory_pubkey: String,
        gauges: Vec<(String, GaugeAccount)>,
        quarries: Vec<(String, QuarryRecord)>,
    )
        requires
            old(self).wf(),
        ensures
            final(self).wf(),
            final(self).state.gauge_factory.deep_view() == (GaugeFactoryStateV {
                pubkey: gauge_factory_pubkey@,
                base: old(self).base@,
                rewarder: gauge_factory.rewarder@,
                locker: gauge_factory.locker@,
                foreman: gauge_factory.foreman@,
                epoch_duration_seconds: gauge_factory.epoch_duration_seconds,
                current_voting_epoch: gauge_factory.current_voting_epoch,
                next_epoch_starts_at: gauge_factory.next_epoch_starts_at,
                bribe_index: gauge_factory.bribe_index,
            }),
            final(self).state.gauges.deep_view() == crate::state::gauge_states_of(
                gauges.deep_view(),
            ),
            final(self).state.quarries.deep_view() == quarries.deep_view(),
            final(self).state.pools == old(self).state.pools,
            final(self).state.quarry_infos == old(self).state.quarry_infos,
            final(self).store.crawl_config == (match old(self).store.crawl_config {
                Some(c) => Some(c),
                None => Some(CrawlConfig {
                    voting_epoch_up: gauge_factory.current_voting_epoch as i64,
                    voting_epoch_down: (gauge_factory.current_voting_epoch as i64 - 1) as i64,
                }),
            }),
            final(self).store.epoch_gauges == old(self).store.epoch_gauges,
            final(self).store.bribes == old(self).store.bribes,
            final(self).epochs == old(self).epochs,
            final(self).base == old(self).base,
    {
        let current_voting_epoch = gauge_factory.current_voting_epoch;
        self.state.save_gauges_and_quarries(gauges, quarries);
        let base = self.base.clone();
        self.state.save_gauge_factory(&gauge_factory, base, &gauge_factory_pubkey);
        match get_voting_epoch_up(&self.store) {
            Ok(_) => {},
            Err(_) => {
                init_crawl_config(&mut self.store, current_voting_epoch as i64);
            },
        }
    }

    /// Refreshes the mirrored factory configuration from a fresh read.
    pub fn process_monitor_gauge_factory(
        &mut self,
        gauge_factory: &GaugeFactoryAccount,
        pubkey: &String,
    )
        ensures
            final(self).state.gauge_factory.deep_view() == (GaugeFactoryStateV {
                pubkey: pubkey@,
                base: old(self).base@,
                rewarder: gauge_factory.rewarder@,
                locker: gauge_factory.locker@,
                foreman: gauge_factory.foreman@,
                epoch_duration_seconds: gauge_factory.epoch_duration_seconds,
                current_voting_epoch: gauge_factory.current_voting_epoch,
                next_epoch_starts_at: gauge_factory.next_epoch_starts_at,
                bribe_index: gauge_factory.bribe_index,
            }),
            final(self).state.gauges == old(self).state.gauges,
            final(self).state.quarries == old(self).state.quarries,
            final(self).state.pools == old(self).state.pools,
            final(self).state.quarry_infos == old(self).state.quarry_infos,
            final(self).store == old(self).store,
            final(self).epochs == old(self).epochs,
            final(self).base == old(self).base,
    {
        let base = self.base.clone();
        self.state.save_gauge_factory(gauge_factory, base, pubkey);
    }

    /// Refreshes the mirrored gauge and quarry maps wholesale from a fresh
    /// read; the two maps are swapped in one step.
    pub fn process_monitor_gauge(
        &mut self,
        gauges: Vec<(String, GaugeAccount)>,
        quarries: Vec<(String, QuarryRecord)>,
    )
        ensures
            final(self).state.gauges.deep_view() == crate::state::gauge_states_of(
                gauges.deep_view(),
            ),
            final(self).state.quarries.deep_view() == quarries.deep_view(),
            final(self).state.gauge_factory == old(self).state.gauge_factory,
            final(self).state.pools == old(self).state.pools,
            final(self).state.quarry_infos == old(self).state.quarry_infos,
            final(self).store == old(self).store,
            final(self).epochs == old(self).epochs,
            final(self).base == old(self).base,
    {
        self.state.save_gauges_and_quarries(gauges, quarries);
    }

    /// A copy of the mirrored factory configuration.
    pub fn get_gauge_factory(&self) -> (r: GaugeFactoryState)
        ensures
            r.deep_view() == self.state.gauge_factory.deep_view(),
    {
        self.state.gauge_factory.clone()
    }

    /// A copy of the mirrored gauge records.
    pub fn get_gauges(&self) -> (r: Vec<GaugeState>)
        ensures
            r.deep_view() == self.state.gauges.deep_view(),
    {
        self.state.get_gauges()
    }

    /// Which epoch the next forward crawl step should fetch: the stored
    /// forward cursor, capped at the authoritative current voting epoch.
    /// Before the mirror is initialized there is nothing to crawl.
    pub fn crawl_up_target(&self) -> (r: Result<Option<u32>, KeeperError>)
        ensures
            !self.state.spec_is_initialized() ==> r == Ok::<Option<u32>, KeeperError>(None),
            self.state.spec_is_initialized() && self.store.crawl_config is None ==> r == Err::<
                Option<u32>,
                KeeperError,
            >(KeeperError::CursorMissing),
            self.store.crawl_config is Some && self.state.spec_is_initialized() ==> {
                let c = self.store.crawl_config->0;
                if !(0 <= c.voting_epoch_up <= u32::MAX) {
                    r == Err::<Option<u32>, KeeperError>(KeeperError::EpochOutOfRange)
                } else {
                    r == Ok::<Option<u32>, KeeperError>(Some(
                        (if c.voting_epoch_up
                            < self.state.gauge_factory.current_voting_epoch as i64 {
                            c.voting_epoch_up
                        } else {
                            self.state.gauge_factory.current_voting_epoch as i64
                        }) as u32,
                    ))
                }
            },
    {
        if !self.state.is_gauge_factory_initialized() {
            return Ok(None);
        }
        let crawl_epoch_up = match get_voting_epoch_up(&self.store) {
            Ok(v) => v,
            Err(_) => {
                return Err(KeeperError::CursorMissing);
            },
        };
        if crawl_epoch_up < 0 || crawl_epoch_up > u32::MAX as i64 {
            return Err(KeeperError::EpochOutOfRange);
        }
        let crawl_epoch_up: u32 = crawl_epoch_up as u32;
        let current_voting_epoch = self.state.gauge_factory.current_voting_epoch;
        let should_crawl_epoch = if current_voting_epoch > crawl_epoch_up {
            crawl_epoch_up
        } else {
            current_voting_epoch
        };
        Ok(Some(should_crawl_epoch))
    }

    /// One forward crawl step: upserts the snapshots fetched for the target
    /// epoch and, only when the cursor is still strictly behind the current
    /// voting epoch, advances the forward cursor in the same transaction, so
    /// the forward cursor never exceeds the authoritative epoch.
    pub fn process_crawl_epoch_up(&mut self, epoch_gauges: &Vec<EpochGaugeSnapshot>) -> (r: Result<
        (),
        KeeperError,
    >)
        requires
            old(self).wf(),
        ensures
            final(self).wf(),
            final(self).state == old(self).state,
            final(self).epochs == old(self).epochs,
            final(self).base == old(self).base,
            final(self).store.bribes == old(self).store.bribes,
            !old(self).state.spec_is_initialized() ==> r == Ok::<(), KeeperError>(())
                && final(self).store == old(self).store,
            old(self).state.spec_is_initialized() && old(self).store.crawl_config is None ==> r
                == Err::<(), KeeperError>(KeeperError::CursorMissing) && final(self).store == old(
                self,
            ).store,
            old(self).store.crawl_config is Some && old(self).state.spec_is_initialized() ==> {
                let c = old(self).store.crawl_config->0;
                if !(0 <= c.voting_epoch_up <= u32::MAX) {
                    r == Err::<(), KeeperError>(KeeperError::EpochOutOfRange) && final(self).store
                        == old(self).store
                } else {
                    let current = old(self).state.gauge_factory.current_voting_epoch as int;
                    &&& r == Ok::<(), KeeperError>(())
                    &&& final(self).store.epoch_gauges.deep_view() == crate::database::upsert_all(
                        old(self).store.epoch_gauges.deep_view(),
                        epoch_gauges.deep_view(),
                    )
                    &&& final(self).store.crawl_config == Some(CrawlConfig {
                        voting_epoch_up: next_epoch_up(c.voting_epoch_up as int, current) as i64,
                        voting_epoch_down: c.voting_epoch_down,
                    })
                }
            },
    {
        if !self.state.is_gauge_factory_initialized() {
            return Ok(());
        }
        let crawl_epoch_up = match get_voting_epoch_up(&self.store) {
            Ok(v) => v,
            Err(_) => {
                return Err(KeeperError::CursorMissing);
            },
        };
        if crawl_epoch_up < 0 || crawl_epoch_up > u32::MAX as i64 {
            return Err(KeeperError::EpochOutOfRange);
        }
        let crawl_epoch_up: u32 = crawl_epoch_up as u32;
        let current_voting_epoch = self.state.gauge_factory.current_voting_epoch;
        let should_crawl_epoch = if current_voting_epoch > crawl_epoch_up {
            crawl_epoch_up
        } else {
            current_voting_epoch
        };
        save_epoch_gauges_up(
            &mut self.store,
            epoch_gauges,
            should_crawl_epoch as i64 + 1,
            should_crawl_epoch < current_voting_epoch,
        );
        Ok(())
    }

    /// Which epoch the next backward crawl step should fetch: the stored
    /// backward cursor, or nothing once backfill has run past epoch 0.
    pub fn crawl_down_target(&self) -> (r: Result<Option<u32>, KeeperError>)
        ensures
            self.store.crawl_config is None ==> r == Err::<Option<u32>, KeeperError>(
                KeeperError::CursorMissing,
            ),
            self.store.crawl_config is Some ==> {
                let c = self.store.crawl_config->0;
                if c.voting_epoch_down < 0 {
                    r == Ok::<Option<u32>, KeeperError>(None)
                } else if c.voting_epoch_down > u32::MAX {
                    r == Err::<Option<u32>, KeeperError>(KeeperError::EpochOutOfRange)
                } else {
                    r == Ok::<Option<u32>, KeeperError>(Some(c.voting_epoch_down as u32))
                }
            },
    {
        let crawl_epoch_down = match get_voting_epoch_down(&self.store) {
            Ok(v) => v,
            Err(_) => {
                return Err(KeeperError::CursorMissing);
            },
        };
        if crawl_epoch_down < 0 {
            return Ok(None);
        }
        if crawl_epoch_down > u32::MAX as i64 {
            return Err(KeeperError::EpochOutOfRange);
        }
        Ok(Some(crawl_epoch_down as u32))
    }

    /// One backward crawl step: a no-op once the backward cursor is
    /// negative; otherwise upserts the snapshots fetched for the cursor
    /// epoch and decrements the cursor in the same transaction.
    pub fn process_crawl_epoch_down(
        &mut self,
        epoch_gauges: &Vec<EpochGaugeSnapshot>,
    ) -> (r: Result<(), KeeperError>)
        requires
            old(self).wf(),
        ensures
            final(self).wf(),
            final(self).state == old(self).state,
            final(self).epochs == old(self).epochs,
            final(self).base == old(self).base,
            final(self).store.bribes == old(self).store.bribes,
            old(self).store.crawl_config is None ==> r == Err::<(), KeeperError>(
                KeeperError::CursorMissing,
            ) && final(self).store == old(self).store,
            old(self).store.crawl_config is Some ==> {
                let c = old(self).store.crawl_config->0;
                if c.voting_epoch_down < 0 {
                    r == Ok::<(), KeeperError>(()) && final(self).store == old(self).store
                } else if c.voting_epoch_down > u32::MAX {
                    r == Err::<(), KeeperError>(KeeperError::EpochOutOfRange) && final(self).store
                        == old(self).store
                } else {
                    &&& r == Ok::<(), KeeperError>(())
                    &&& final(self).store.epoch_gauges.deep_view() == crate::database::upsert_all(
                        old(self).store.epoch_gauges.deep_view(),
                        epoch_gauges.deep_view(),
                    )
                    &&& final(self).store.crawl_config == Some(CrawlConfig {
                        voting_epoch_up: c.voting_epoch_up,
                        voting_epoch_down: next_epoch_down(c.voting_epoch_down as int) as i64,
                    })
                }
            },
    {
        let crawl_epoch_down = match get_voting_epoch_down(&self.store) {
            Ok(v) => v,
            Err(_) => {
                return Err(KeeperError::CursorMissing);
            },
        };
        if crawl_epoch_down < 0 {
            return Ok(());
        }
        if crawl_epoch_down > u32::MAX as i64 {
            return Err(KeeperError::EpochOutOfRange);
        }
        save_epoch_gauges_down(&mut self.store, epoch_gauges, crawl_epoch_down - 1);
        Ok(())
    }

    /// The index of the next bribe record to crawl, or nothing when the
    /// store has caught up with the authoritative bribe counter. Only one
    /// index is crawled per step, to bound the work of a single poll.
    pub fn next_bribe_target(&self) -> (r: Option<u32>)
        ensures
            r == spec_next_bribe_target(
                self.store.bribes.deep_view(),
                self.state.gauge_factory.bribe_index,
            ),
    {
        let observed = get_max_bribe_index(&self.store);
        let authoritative: i64 = self.state.gauge_factory.bribe_index as i64 - 1;
        if observed >= authoritative {
            None
        } else {
            proof {
                lemma_max_bribe_index_at_least(self.store.bribes.deep_view());
            }
            Some((observed + 1) as u32)
        }
    }

    /// One bribe crawl step: inserts the bribe record fetched for the next
    /// index. Bribe records are immutable once issued, so the write is an
    /// insert, never an upsert, and a duplicate address is refused.
    pub fn process_crawl_bribe(&mut self, bribe: Bribe) -> (r: Result<(), KeeperError>)
        requires
            old(self).wf(),
            spec_next_bribe_target(
                old(self).store.bribes.deep_view(),
                old(self).state.gauge_factory.bribe_index,
            ) is Some ==> bribe.bribe_index == spec_next_bribe_target(
                old(self).store.bribes.deep_view(),
                old(self).state.gauge_factory.bribe_index,
            )->0 as i64,
        ensures
            final(self).wf(),
            final(self).state == old(self).state,
            final(self).epochs == old(self).epochs,
            final(self).base == old(self).base,
            final(self).store.epoch_gauges == old(self).store.epoch_gauges,
            final(self).store.crawl_config == old(self).store.crawl_config,
            spec_next_bribe_target(
                old(self).store.bribes.deep_view(),
                old(self).state.gauge_factory.bribe_index,
            ) is None ==> r == Ok::<(), KeeperError>(()) && final(self).store.bribes == old(
                self,
            ).store.bribes,
            spec_next_bribe_target(
                old(self).store.bribes.deep_view(),
                old(self).state.gauge_factory.bribe_index,
            ) is Some ==> {
                if first_index_of(
                    bribe_keys(old(self).store.bribes.deep_view()),
                    bribe.address@,
                ) == -1 {
                    &&& r == Ok::<(), KeeperError>(())
                    &&& final(self).store.bribes.deep_view() == old(
                        self,
                    ).store.bribes.deep_view().push(bribe.deep_view())
                } else {
                    &&& r == Err::<(), KeeperError>(KeeperError::DuplicateBribe)
                    &&& final(self).store.bribes == old(self).store.bribes
                }
            },
    {
        match self.next_bribe_target() {
            None => Ok(()),
            Some(_next_index) => {
                match save_bribe(&mut self.store, bribe) {
                    Ok(_) => Ok(()),
                    Err(_) => Err(KeeperError::DuplicateBribe),
                }
            },
        }
    }
}

/// The bribe entry of an aggregate view built from one stored bribe row.
pub open spec fn bribe_info_of(b: BribeV) -> BribeInfoV {
    BribeInfoV {
        pubkey: b.address,
        token_mint: b.token_mint,
        bribe_index: b.bribe_index as u32,
        reward_each_epoch: b.reward_each_epoch as u64,
    }
}

/// The bribe entries of one gauge, out of the rows covering the epoch:
/// rows of other gauges and rows with a negative reward are left out.
pub open spec fn gauge_bribes(bribes: Seq<BribeV>, gauge: Seq<char>) -> Seq<BribeInfoV>
    decreases bribes.len(),
{
    if bribes.len() == 0 {
        Seq::empty()
    } else {
        let rest = gauge_bribes(bribes.drop_last(), gauge);
        if bribes.last().gauge == gauge && bribes.last().reward_each_epoch >= 0 {
            rest.push(bribe_info_of(bribes.last()))
        } else {
            rest
        }
    }
}

/// One gauge entry of an aggregate view: the stored snapshot row joined
/// with the mirrored gauge record and the bribes covering the epoch.
pub open spec fn epoch_info_item(
    row: EpochGaugeV,
    gauge: GaugeStateV,
    bribes: Seq<BribeV>,
) -> GaugeInfoV {
    GaugeInfoV {
        gauge_pk: row.gauge,
        pool_pk: gauge.amm_pool,
        quarry_pk: gauge.quarry,
        voting_power: row.total_power as u64,
        token_a_mint: gauge.token_a_mint,
        token_b_mint: gauge.token_b_mint,
        token_a_fee: row.token_a_fee as u64,
        token_b_fee: row.token_b_fee as u64,
        bribes: gauge_bribes(bribes, row.gauge),
    }
}

/// Every snapshot row's gauge is known to the mirror.
pub open spec fn rows_have_gauges(rows: Seq<EpochGaugeV>, gauges: Seq<GaugeStateV>) -> bool {
    forall|i: int| 0 <= i < rows.len() ==> #[trigger] first_index_of(
        gauge_keys_of(gauges),
        rows[i].gauge,
    ) != -1
}

/// The aggregate view of an epoch: one entry per stored snapshot row, in
/// store order, each joined with the first mirrored gauge record carrying
/// its address.
pub open spec fn epoch_infos_of(
    rows: Seq<EpochGaugeV>,
    gauges: Seq<GaugeStateV>,
    bribes: Seq<BribeV>,
) -> Seq<GaugeInfoV> {
    Seq::new(
        rows.len(),
        |i: int| epoch_info_item(
            rows[i],
            gauges[first_index_of(gauge_keys_of(gauges), rows[i].gauge)],
            bribes,
        ),
    )
}

/// The latest and the previous epoch's aggregate views, as served by the
/// latest-epochs query.
pub struct LatestEpoches {
    pub current_epoch: EpochGaugeInfoWrapper,
    pub last_epoch: Option<EpochGaugeInfoWrapper>,
}

impl Core {
    /// The stored snapshot rows of one epoch.
    pub open spec fn spec_epoch_rows(&self, epoch: int) -> Seq<EpochGaugeV> {
        epoch_gauges_for(self.store.epoch_gauges.deep_view(), epoch)
    }

    /// The stored bribe rows covering one epoch.
    pub open spec fn spec_epoch_bribes(&self, epoch: int) -> Seq<BribeV> {
        bribes_covering(self.store.bribes.deep_view(), epoch)
    }

    /// Whether the aggregate view of `epoch` can be computed: the epoch
    /// fits the store's column type and every snapshot row's gauge is
    /// mirrored.
    pub open spec fn spec_epoch_view_defined(&self, epoch: u64) -> bool {
        &&& epoch <= i64::MAX
        &&& rows_have_gauges(self.spec_epoch_rows(epoch as int), self.state.gauges.deep_view())
    }

    /// The aggregate view of `epoch`, recomputed from the store and the
    /// mirror.
    pub open spec fn spec_epoch_view(&self, epoch: u64) -> Seq<GaugeInfoV> {
        epoch_infos_of(
            self.spec_epoch_rows(epoch as int),
            self.state.gauges.deep_view(),
            self.spec_epoch_bribes(epoch as int),
        )
    }

    /// Why the aggregate view of `epoch` cannot be computed.
    pub open spec fn spec_epoch_view_err(&self, epoch: u64) -> KeeperError {
        if epoch > i64::MAX {
            KeeperError::EpochOutOfRange
        } else {
            KeeperError::GaugeNotFound
        }
    }

    /// Recomputes the aggregate view of `epoch` from the durable store and
    /// the mirror, without touching the cache.
    pub fn get_epoch_info_internal(&self, epoch: u64) -> (r: Result<Vec<GaugeInfo>, KeeperError>)
        ensures
            self.spec_epoch_view_defined(epoch) ==> (r matches Ok(v) && v.deep_view()
                == self.spec_epoch_view(epoch)),
            !self.spec_epoch_view_defined(epoch) ==> r == Err::<Vec<GaugeInfo>, KeeperError>(
                self.spec_epoch_view_err(epoch),
            ),
    {
        if epoch > i64::MAX as u64 {
            return Err(KeeperError::EpochOutOfRange);
        }
        let epoch_i: i64 = epoch as i64;
        let epoch_gauges = get_epoch_gauges(&self.store, epoch_i);
        let bribes = get_bribes(&self.store, epoch_i);
        let gauges = self.get_gauges();
        let ghost rows_dv = self.spec_epoch_rows(epoch as int);
        let ghost gauges_dv = self.state.gauges.deep_view();
        let ghost bribes_dv = self.spec_epoch_bribes(epoch as int);
        let ghost keys = gauge_keys_of(gauges_dv);
        let mut gauge_infos: Vec<GaugeInfo> = Vec::new();
        let mut i: usize = 0;
        while i < epoch_gauges.len()
            invariant
                i <= epoch_gauges.len(),
                epoch <= i64::MAX,
                rows_dv == self.spec_epoch_rows(epoch as int),
                bribes_dv == self.spec_epoch_bribes(epoch as int),
                gauges_dv == self.state.gauges.deep_view(),
                epoch_gauges.deep_view() == rows_dv,
                bribes.deep_view() == bribes_dv,
                gauges.deep_view() == gauges_dv,
                keys == gauge_keys_of(gauges_dv),
                gauge_infos@.len() == i,
                forall|k: int| 0 <= k < i ==> #[trigger] first_index_of(keys, rows_dv[k].gauge)
                    != -1,
                forall|k: int| 0 <= k < i ==> #[trigger] gauge_infos@[k].deep_view()
                    == epoch_info_item(
                    rows_dv[k],
                    gauges_dv[first_index_of(keys, rows_dv[k].gauge)],
                    bribes_dv,
                ),
            decreases epoch_gauges.len() - i,
        {
            let row = &epoch_gauges[i];
            proof {
                assert(rows_dv[i as int] == epoch_gauges@[i as int].deep_view());
            }
            let gauge = match crate::state::DaoState::get_gauge(&gauges, row.gauge.clone()) {
                Ok(g) => g,
                Err(_) => {
                    proof {
                        assert(first_index_of(keys, rows_dv[i as int].gauge) == -1);
                        assert(!rows_have_gauges(rows_dv, gauges_dv));
                    }
                    return Err(KeeperError::GaugeNotFound);
                },
            };
            let ghost gidx = first_index_of(keys, rows_dv[i as int].gauge);
            let mut bribe_infos: Vec<BribeInfo> = Vec::new();
            let mut j: usize = 0;
            while j < bribes.len()
                invariant
                    j <= bribes.len(),
                    bribes.deep_view() == bribes_dv,
                    bribe_infos.deep_view() == gauge_bribes(bribes_dv.take(j as int), row.gauge@),
                decreases bribes.len() - j,
            {
                let ghost pre = bribe_infos.deep_view();
                let b = &bribes[j];
                proof {
                    assert(bribes_dv[j as int] == bribes@[j as int].deep_view());
                }
                if b.gauge == row.gauge && b.reward_each_epoch >= 0 {
                    bribe_infos.push(BribeInfo {
                        pubkey: b.address.clone(),
                        token_mint: b.token_mint.clone(),
                        bribe_index: b.bribe_index as u32,
                        reward_each_epoch: b.reward_each_epoch as u64,
                    });
                    proof {
                        assert forall|k: int| 0 <= k < bribe_infos@.len() implies bribe_infos
                            .deep_view()[k] == pre.push(bribe_info_of(bribes_dv[j as int]))[k] by {
                            assert(bribe_infos.deep_view()[k] == bribe_infos@[k].deep_view());
                        }
                        assert(bribe_infos.deep_view() =~= pre.push(
                            bribe_info_of(bribes_dv[j as int]),
                        ));
                    }
                }
                proof {
                    assert(bribes_dv.take(j as int + 1).drop_last() =~= bribes_dv.take(j as int));
                    assert(bribes_dv.take(j as int + 1).last() == bribes_dv[j as int]);
                }
                j += 1;
            }
            proof {
                assert(bribes_dv.take(bribes@.len() as int) =~= bribes_dv);
                assert(bribe_infos.deep_view() == gauge_bribes(bribes_dv, rows_dv[i as int].gauge));
            }
            gauge_infos.push(GaugeInfo {
                gauge_pk: row.gauge.clone(),
                pool_pk: gauge.amm_pool.clone(),
                quarry_pk: gauge.quarry.clone(),
                voting_power: row.total_power as u64,
                token_a_mint: gauge.token_a_mint.clone(),
                token_b_mint: gauge.token_b_mint.clone(),
                token_a_fee: row.token_a_fee as u64,
                token_b_fee: row.token_b_fee as u64,
                bribes: bribe_infos,
            });
            proof {
                assert(gauge_infos@[i as int].deep_view() == epoch_info_item(
                    rows_dv[i as int],
                    gauges_dv[gidx],
                    bribes_dv,
                ));
            }
            i += 1;
        }
        proof {
            assert(rows_have_gauges(rows_dv, gauges_dv));
            assert forall|k: int| 0 <= k < gauge_infos@.len() implies gauge_infos.deep_view()[k]
                == epoch_infos_of(rows_dv, gauges_dv, bribes_dv)[k] by {
                assert(gauge_infos.deep_view()[k] == gauge_infos@[k].deep_view());
            }
            assert(gauge_infos.deep_view() =~= epoch_infos_of(rows_dv, gauges_dv, bribes_dv));
        }
        Ok(gauge_infos)
    }

    /// Whether a lookup of `epoch` can return a view: either the cache
    /// holds one or it can be recomputed.
    pub open spec fn spec_lookup_ok(&self, epoch: u64) -> bool {
        self.epochs.epochs@.contains_key(epoch) || self.spec_epoch_view_defined(epoch)
    }

    /// What a lookup of `epoch` returns: the cached view when present,
    /// otherwise the recomputed one.
    pub open spec fn spec_lookup_view(&self, epoch: u64) -> Seq<GaugeInfoV> {
        if self.epochs.epochs@.contains_key(epoch) {
            self.epochs.epochs@[epoch].deep_view()
        } else {
            self.spec_epoch_view(epoch)
        }
    }

    /// Looks up the aggregate view of `epoch`, cache first. A miss is
    /// recomputed from the store but never written back: the cache is
    /// read-only here, and only the refresh task fills it.
    pub fn get_epoch_info(&self, epoch: u64) -> (r: Result<Vec<GaugeInfo>, KeeperError>)
        ensures
            self.spec_lookup_ok(epoch) ==> (r matches Ok(v) && v.deep_view()
                == self.spec_lookup_view(epoch)),
            !self.spec_lookup_ok(epoch) ==> r == Err::<Vec<GaugeInfo>, KeeperError>(
                self.spec_epoch_view_err(epoch),
            ),
    {
        match self.epochs.get_epoch_info(epoch) {
            Ok(info) => Ok(info),
            Err(_) => self.get_epoch_info_internal(epoch),
        }
    }

    /// Computes the aggregate view of the current voting epoch, stores it
    /// in the cache, and evicts every cached epoch outside the retention
    /// window behind it.
    pub fn process_cache_latest_epoches(&mut self) -> (r: Result<(), KeeperError>)
        ensures
            final(self).state == old(self).state,
            final(self).store == old(self).store,
            final(self).base == old(self).base,
            final(self).epochs.max_cached == old(self).epochs.max_cached,
            ({
                let cve = old(self).state.gauge_factory.current_voting_epoch as u64;
                if !old(self).spec_epoch_view_defined(cve) {
                    &&& r == Err::<(), KeeperError>(old(self).spec_epoch_view_err(cve))
                    &&& final(self).epochs == old(self).epochs
                } else {
                    &&& r == Ok::<(), KeeperError>(())
                    &&& forall|e: u64| final(self).epochs.epochs@.contains_key(e) <==> ((old(
                        self,
                    ).epochs.epochs@.contains_key(e) || e == cve) && retention_start(
                        cve,
                        old(self).epochs.max_cached,
                    ) <= e <= cve)
                    &&& forall|e: u64| final(self).epochs.epochs@.contains_key(e) && e != cve
                        ==> final(self).epochs.epochs@[e] == old(self).epochs.epochs@[e]
                    &&& final(self).epochs.epochs@.contains_key(cve)
                    &&& final(self).epochs.epochs@[cve].deep_view() == old(self).spec_epoch_view(
                        cve,
                    )
                }
            }),
    {
        let gauge_factory_state = self.get_gauge_factory();
        let current_voting_epoch: u64 = gauge_factory_state.current_voting_epoch as u64;
        let latest_epoch = match self.get_epoch_info_internal(current_voting_epoch) {
            Ok(v) => v,
            Err(e) => {
                return Err(e);
            },
        };
        self.epochs.save_epoch(current_voting_epoch, latest_epoch);
        self.epochs.clear_old_epochs(current_voting_epoch);
        Ok(())
    }

    /// The current epoch's aggregate view and, when the current epoch is
    /// not the first, the immediately preceding epoch's view; each resolved
    /// cache-first.
    pub fn get_latest_epoches(&self) -> (r: Result<LatestEpoches, KeeperError>)
        ensures
            ({
                let cve = self.state.gauge_factory.current_voting_epoch as u64;
                &&& !self.spec_lookup_ok(cve) ==> r == Err::<LatestEpoches, KeeperError>(
                    self.spec_epoch_view_err(cve),
                )
                &&& self.spec_lookup_ok(cve) && cve > 0 && !self.spec_lookup_ok((cve - 1) as u64)
                    ==> r == Err::<LatestEpoches, KeeperError>(
                    self.spec_epoch_view_err((cve - 1) as u64),
                )
                &&& self.spec_lookup_ok(cve) && (cve == 0 || self.spec_lookup_ok(
                    (cve - 1) as u64,
                )) ==> {
                    &&& r is Ok
                    &&& r->Ok_0.current_epoch.epoch == cve
                    &&& r->Ok_0.current_epoch.gauges.deep_view() == self.spec_lookup_view(cve)
                    &&& cve == 0 ==> r->Ok_0.last_epoch is None
                    &&& cve > 0 ==> r->Ok_0.last_epoch is Some
                        && r->Ok_0.last_epoch->0.epoch == cve - 1
                        && r->Ok_0.last_epoch->0.gauges.deep_view() == self.spec_lookup_view(
                        (cve - 1) as u64,
                    )
                }
            }),
    {
        let gauge_factory_state = self.get_gauge_factory();
        let current_voting_epoch: u64 = gauge_factory_state.current_voting_epoch as u64;
        let current_epoch_gauges_info = match self.get_epoch_info(current_voting_epoch) {
            Ok(v) => v,
            Err(e) => {
                return Err(e);
            },
        };
        let current = EpochGaugeInfoWrapper {
            epoch: current_voting_epoch,
            gauges: current_epoch_gauges_info,
        };
        if current_voting_epoch > 0 {
            let last_epoch = current_voting_epoch - 1;
            let last_epoch_gauges_info = match self.get_epoch_info(last_epoch) {
                Ok(v) => v,
                Err(e) => {
                    return Err(e);
                },
            };
            Ok(LatestEpoches {
                current_epoch: current,
                last_epoch: Some(EpochGaugeInfoWrapper {
                    epoch: last_epoch,
                    gauges: last_epoch_gauges_info,
                }),
            })
        } else {
            Ok(LatestEpoches { current_epoch: current, last_epoch: None })
        }
    }
}

/// The addresses of the pool enrichment entries.
pub open spec fn pool_keys_of(pools: Seq<PoolDynamicInfoV>) -> Seq<Seq<char>> {
    Seq::new(pools.len(), |i: int| pools[i].pubkey)
}

/// One pool summary row: the gauge's pool joined with the externally
/// supplied figures, defaulting to "0" when no entry is supplied.
pub open spec fn pool_info_of(gauge: GaugeStateV, pools: Seq<PoolDynamicInfoV>) -> PoolInfoV {
    let idx = first_index_of(pool_keys_of(pools), gauge.amm_pool);
    PoolInfoV {
        pubkey: gauge.amm_pool,
        amm_type: gauge.amm_type,
        token_a_mint: gauge.token_a_mint,
        token_b_mint: gauge.token_b_mint,
        tvl: if idx == -1 {
            "0"@
        } else {
            pools[idx].tvl
        },
        quarry_tvl: if idx == -1 {
            "0"@
        } else {
            pools[idx].quarry_tvl
        },
    }
}

/// The pool summaries of all mirrored gauges, in mirror order.
pub open spec fn pool_infos_of(
    gauges: Seq<GaugeStateV>,
    pools: Seq<PoolDynamicInfoV>,
) -> Seq<PoolInfoV> {
    Seq::new(gauges.len(), |i: int| pool_info_of(gauges[i], pools))
}

/// The addresses of the quarry enrichment entries.
pub open spec fn quarry_info_keys_of(infos: Seq<QuarryDynamicInfoV>) -> Seq<Seq<char>> {
    Seq::new(infos.len(), |i: int| infos[i].pubkey)
}

/// One quarry summary row: the mirrored quarry record joined with the
/// externally supplied figures, defaulting to "0" when no entry is
/// supplied.
pub open spec fn quarry_info_of(
    pubkey: Seq<char>,
    quarry: QuarryRecordV,
    infos: Seq<QuarryDynamicInfoV>,
) -> QuarryInfoV {
    let idx = first_index_of(quarry_info_keys_of(infos), pubkey);
    QuarryInfoV {
        pubkey: pubkey,
        quarry_tvl: if idx == -1 {
            "0"@
        } else {
            infos[idx].quarry_tvl
        },
        apy: if idx == -1 {
            "0"@
        } else {
            infos[idx].apy
        },
        total_tokens_deposited: quarry.total_tokens_deposited,
        num_miners: quarry.num_miners,
        famine_ts: quarry.famine_ts,
        amm_pool: quarry.amm_pool,
        amm_type: quarry.amm_type,
        annual_rewards_rate: quarry.annual_rewards_rate,
        rewards_share: quarry.rewards_share,
    }
}

/// The quarry summaries of all mirrored quarries, in mirror order.
pub open spec fn quarry_infos_of(
    quarries: Seq<(Seq<char>, QuarryRecordV)>,
    infos: Seq<QuarryDynamicInfoV>,
) -> Seq<QuarryInfoV> {
    Seq::new(quarries.len(), |i: int| quarry_info_of(quarries[i].0, quarries[i].1, infos))
}

impl Core {
    /// The pool summaries of the query surface: every mirrored gauge's
    /// pool, with the externally supplied figures or "0" where none were
    /// supplied.
    pub fn get_all_pools(&self) -> (r: Vec<PoolInfo>)
        ensures
            r.deep_view() == pool_infos_of(
                self.state.gauges.deep_view(),
                self.state.pools.deep_view(),
            ),
    {
        let ghost gdv = self.state.gauges.deep_view();
        let ghost pdv = self.state.pools.deep_view();
        let ghost pkeys = pool_keys_of(pdv);
        let mut out: Vec<PoolInfo> = Vec::new();
        let mut i: usize = 0;
        while i < self.state.gauges.len()
            invariant
                i <= self.state.gauges.len(),
                gdv == self.state.gauges.deep_view(),
                pdv == self.state.pools.deep_view(),
                pkeys == pool_keys_of(pdv),
                out@.len() == i,
                forall|k: int| 0 <= k < i ==> #[trigger] out@[k].deep_view() == pool_info_of(
                    gdv[k],
                    pdv,
                ),
            decreases self.state.gauges.len() - i,
        {
            let gauge = &self.state.gauges[i];
            proof {
                assert(gdv[i as int] == self.state.gauges@[i as int].deep_view());
            }
            let mut found: Option<usize> = None;
            let mut j: usize = 0;
            while j < self.state.pools.len()
                invariant_except_break
                    found is None,
                invariant
                    j <= self.state.pools.len(),
                    pdv == self.state.pools.deep_view(),
                    pkeys == pool_keys_of(pdv),
                    forall|m: int| 0 <= m < j ==> pkeys[m] != gauge.amm_pool@,
                ensures
                    match found {
                        Some(k) => 0 <= k < self.state.pools@.len() && first_index_of(
                            pkeys,
                            gauge.amm_pool@,
                        ) == k as int,
                        None => forall|m: int| 0 <= m < pkeys.len() ==> pkeys[m]
                            != gauge.amm_pool@,
                    },
                decreases self.state.pools.len() - j,
            {
                if self.state.pools[j].pubkey == gauge.amm_pool {
                    proof {
                        assert(pkeys[j as int] == pdv[j as int].pubkey);
                        assert(pdv[j as int] == self.state.pools@[j as int].deep_view());
                        lemma_first_index_of_found(pkeys, gauge.amm_pool@, j as int);
                    }
                    found = Some(j);
                    break ;
                }
                proof {
                    assert(pkeys[j as int] == pdv[j as int].pubkey);
                    assert(pdv[j as int] == self.state.pools@[j as int].deep_view());
                }
                j += 1;
            }
            let (tvl, quarry_tvl) = match found {
                Some(k) => (self.state.pools[k].tvl.clone(), self.state.pools[k].quarry_tvl.clone()),
                None => {
                    proof {
                        lemma_first_index_of_absent(pkeys, gauge.amm_pool@);
                    }
                    ("0".to_owned(), "0".to_owned())
                },
            };
            out.push(PoolInfo {
                pubkey: gauge.amm_pool.clone(),
                amm_type: gauge.amm_type,
                token_a_mint: gauge.token_a_mint.clone(),
                token_b_mint: gauge.token_b_mint.clone(),
                tvl: tvl,
                quarry_tvl: quarry_tvl,
            });
            proof {
                assert(out@[i as int].deep_view() == pool_info_of(gdv[i as int], pdv));
            }
            i += 1;
        }
        proof {
            assert forall|k: int| 0 <= k < out@.len() implies out.deep_view()[k] == pool_infos_of(
                gdv,
                pdv,
            )[k] by {
                assert(out.deep_view()[k] == out@[k].deep_view());
            }
            assert(out.deep_view() =~= pool_infos_of(gdv, pdv));
        }
        out
    }

    /// The quarry summaries of the query surface: every mirrored quarry
    /// record, with the externally supplied figures or "0" where none were
    /// supplied.
    pub fn get_all_quarries(&self) -> (r: Vec<QuarryInfo>)
        ensures
            r.deep_view() == quarry_infos_of(
                self.state.quarries.deep_view(),
                self.state.quarry_infos.deep_view(),
            ),
    {
        let ghost qdv = self.state.quarries.deep_view();
        let ghost idv = self.state.quarry_infos.deep_view();
        let ghost ikeys = quarry_info_keys_of(idv);
        let mut out: Vec<QuarryInfo> = Vec::new();
        let mut i: usize = 0;
        while i < self.state.quarries.len()
            invariant
                i <= self.state.quarries.len(),
                qdv == self.state.quarries.deep_view(),
                idv == self.state.quarry_infos.deep_view(),
                ikeys == quarry_info_keys_of(idv),
                out@.len() == i,
                forall|k: int| 0 <= k < i ==> #[trigger] out@[k].deep_view() == quarry_info_of(
                    qdv[k].0,
                    qdv[k].1,
                    idv,
                ),
            decreases self.state.quarries.len() - i,
        {
            let pair = &self.state.quarries[i];
            proof {
                assert(qdv[i as int] == self.state.quarries@[i as int].deep_view());
            }
            let mut found: Option<usize> = None;
            let mut j: usize = 0;
            while j < self.state.quarry_infos.len()
                invariant_except_break
                    found is None,
                invariant
                    j <= self.state.quarry_infos.len(),
                    idv == self.state.quarry_infos.deep_view(),
                    ikeys == quarry_info_keys_of(idv),
                    forall|m: int| 0 <= m < j ==> ikeys[m] != pair.0@,
                ensures
                    match found {
                        Some(k) => 0 <= k < self.state.quarry_infos@.len() && first_index_of(
                            ikeys,
                            pair.0@,
                        ) == k as int,
                        None => forall|m: int| 0 <= m < ikeys.len() ==> ikeys[m] != pair.0@,
                    },
                decreases self.state.quarry_infos.len() - j,
            {
                if self.state.quarry_infos[j].pubkey == pair.0 {
                    proof {
                        assert(ikeys[j as int] == idv[j as int].pubkey);
                        assert(idv[j as int] == self.state.quarry_infos@[j as int].deep_view());
                        lemma_first_index_of_found(ikeys, pair.0@, j as int);
                    }
                    found = Some(j);
                    break ;
                }
                proof {
                    assert(ikeys[j as int] == idv[j as int].pubkey);
                    assert(idv[j as int] == self.state.quarry_infos@[j as int].deep_view());
                }
                j += 1;
            }
            let (apy, quarry_tvl) = match found {
                Some(k) => (
                    self.state.quarry_infos[k].apy.clone(),
                    self.state.quarry_infos[k].quarry_tvl.clone(),
                ),
                None => {
                    proof {
                        lemma_first_index_of_absent(ikeys, pair.0@);
                    }
                    ("0".to_owned(), "0".to_owned())
                },
            };
            out.push(QuarryInfo {
                pubkey: pair.0.clone(),
                quarry_tvl: quarry_tvl,
                apy: apy,
                total_tokens_deposited: pair.1.total_tokens_deposited,
                num_miners: pair.1.num_miners,
                famine_ts: pair.1.famine_ts,
                amm_pool: pair.1.amm_pool.clone(),
                amm_type: pair.1.amm_type,
                annual_rewards_rate: pair.1.annual_rewards_rate,
                rewards_share: pair.1.rewards_share,
            });
            proof {
                assert(out@[i as int].deep_view() == quarry_info_of(
                    qdv[i as int].0,
                    qdv[i as int].1,
                    idv,
                ));
            }
            i += 1;
        }
        proof {
            assert forall|k: int| 0 <= k < out@.len() implies out.deep_view()[k]
                == quarry_infos_of(qdv, idv)[k] by {
                assert(out.deep_view()[k] == out@[k].deep_view());
            }
            assert(out.deep_view() =~= quarry_infos_of(qdv, idv));
        }
        out
    }
}

} // verus!
