//! The bounded-recency cache of computed per-epoch aggregate views, and the
//! view types it stores.
use vstd::prelude::*;

use std::collections::HashMap;

use crate::KeeperError;

verus! {

broadcast use vstd::std_specs::hash::group_hash_axioms;

/// Abstract value of one bribe entry of an aggregate view.
#[verifier::ext_equal]
pub ghost struct BribeInfoV {
    pub pubkey: Seq<char>,
    pub token_mint: Seq<char>,
    pub bribe_index: u32,
    pub reward_each_epoch: u64,
}

/// One bribe entry of an aggregate view.
#[derive(Debug, PartialEq)]
pub struct BribeInfo {
    pub pubkey: String,
    pub token_mint: String,
    pub bribe_index: u32,
    pub reward_each_epoch: u64,
}

impl DeepView for BribeInfo {
    type V = BribeInfoV;

    open spec fn deep_view(&self) -> BribeInfoV {
        BribeInfoV {
            pubkey: self.pubkey@,
            token_mint: self.token_mint@,
            bribe_index: self.bribe_index,
            reward_each_epoch: self.reward_each_epoch,
        }
    }
}

impl Clone for BribeInfo {
    fn clone(&self) -> (res: Self)
        ensures
            res.deep_view() == self.deep_view(),
    {
        BribeInfo {
            pubkey: self.pubkey.clone(),
            token_mint: self.token_mint.clone(),
            bribe_index: self.bribe_index,
            reward_each_epoch: self.reward_each_epoch,
        }
    }
}

/// Abstract value of one gauge entry of an aggregate view.
#[verifier::ext_equal]
pub ghost struct GaugeInfoV {
    pub gauge_pk: Seq<char>,
    pub pool_pk: Seq<char>,
    pub quarry_pk: Seq<char>,
    pub voting_power: u64,
    pub token_a_mint: Seq<char>,
    pub token_b_mint: Seq<char>,
    pub token_a_fee: u64,
    pub token_b_fee: u64,
    pub bribes: Seq<BribeInfoV>,
}

/// One gauge entry of a per-epoch aggregate view: the snapshot joined with
/// the mirrored gauge record and the bribes covering the epoch.
#[derive(Debug, PartialEq)]
pub struct GaugeInfo {
    pub gauge_pk: String,
    pub pool_pk: String,
    pub quarry_pk: String,
    pub voting_power: u64,
    pub token_a_mint: String,
    pub token_b_mint: String,
    pub token_a_fee: u64,
    pub token_b_fee: u64,
    pub bribes: Vec<BribeInfo>,
}

impl DeepView for GaugeInfo {
    type V = GaugeInfoV;

    open spec fn deep_view(&self) -> GaugeInfoV {
        GaugeInfoV {
            gauge_pk: self.gauge_pk@,
            pool_pk: self.pool_pk@,
            quarry_pk: self.quarry_pk@,
            voting_power: self.voting_power,
            token_a_mint: self.token_a_mint@,
            token_b_mint: self.token_b_mint@,
            token_a_fee: self.token_a_fee,
            token_b_fee: self.token_b_fee,
            bribes: self.bribes.deep_view(),
        }
    }
}

impl Clone for GaugeInfo {
    fn clone(&self) -> (res: Self)
        ensures
            res.deep_view() == self.deep_view(),
    {
        let mut bribes: Vec<BribeInfo> = Vec::new();
        let mut i: usize = 0;
        while i < self.bribes.len()
            invariant
                i <= self.bribes.len(),
                bribes@.len() == i,
                forall|j: int| 0 <= j < i ==> #[trigger] bribes@[j].deep_view()
                    == self.bribes@[j].deep_view(),
            decreases self.bribes.len() - i,
        {
            bribes.push(self.bribes[i].clone());
            i += 1;
        }
        proof {
            assert forall|j: int| 0 <= j < bribes@.len() implies bribes.deep_view()[j]
                == self.bribes.deep_view()[j] by {
                assert(bribes.deep_view()[j] == bribes@[j].deep_view());
            }
            assert(bribes.deep_view() =~= self.bribes.deep_view());
        }
        GaugeInfo {
            gauge_pk: self.gauge_pk.clone(),
            pool_pk: self.pool_pk.clone(),
            quarry_pk: self.quarry_pk.clone(),
            voting_power: self.voting_power,
            token_a_mint: self.token_a_mint.clone(),
            token_b_mint: self.token_b_mint.clone(),
            token_a_fee: self.token_a_fee,
            token_b_fee: self.token_b_fee,
            bribes: bribes,
        }
    }
}

/// Abstract value of an epoch together with its aggregate view.
#[verifier::ext_equal]
pub ghost struct EpochGaugeInfoWrapperV {
    pub epoch: u64,
    pub gauges: Seq<GaugeInfoV>,
}

/// An epoch number together with its aggregate view, as served by the
/// latest-epochs query.
#[derive(Debug, PartialEq)]
pub struct EpochGaugeInfoWrapper {
    pub epoch: u64,
    pub gauges: Vec<GaugeInfo>,
}

impl DeepView for EpochGaugeInfoWrapper {
    type V = EpochGaugeInfoWrapperV;

    open spec fn deep_view(&self) -> EpochGaugeInfoWrapperV {
        EpochGaugeInfoWrapperV { epoch: self.epoch, gauges: self.gauges.deep_view() }
    }
}

/// The bounded-recency cache mapping an epoch number to its computed
/// aggregate view. Only the explicit refresh task writes entries.
pub struct EpochInfos {
    pub epochs: HashMap<u64, Vec<GaugeInfo>>,
    pub max_cached: u64,
}

/// The oldest epoch the cache retains once `latest_epoch` is cached.
pub open spec fn retention_start(latest_epoch: u64, max_cached: u64) -> u64 {
    if latest_epoch > max_cached {
        (latest_epoch - max_cached) as u64
    } else {
        0
    }
}

/// Builds the empty cache with the fixed retention window of three epochs
/// behind the latest one.
pub fn init_epoch_infos() -> (e: EpochInfos)
    ensures
        e.epochs@ == Map::<u64, Vec<GaugeInfo>>::empty(),
        e.max_cached == 3,
{
    EpochInfos { epochs: HashMap::new(), max_cached: 3 }
}

impl EpochInfos {
    /// Evicts every cached epoch outside the retention window
    /// `[retention_start(latest_epoch), latest_epoch]`; entries inside the
    /// window are kept unchanged.
    pub fn clear_old_epochs(&mut self, latest_epoch: u64)
        requires
            latest_epoch < u64::MAX,
        ensures
            final(self).max_cached == old(self).max_cached,
            forall|e: u64| final(self).epochs@.contains_key(e) <==> (
            old(self).epochs@.contains_key(e) && retention_start(
                latest_epoch,
                old(self).max_cached,
            ) <= e <= latest_epoch),
            forall|e: u64| final(self).epochs@.contains_key(e)
                ==> final(self).epochs@[e] == old(self).epochs@[e],
    {
        let mut epochs: HashMap<u64, Vec<GaugeInfo>> = HashMap::new();
        let start_cached_epoch: u64 = if latest_epoch > self.max_cached {
            latest_epoch - self.max_cached
        } else {
            0
        };
        let mut epoch: u64 = start_cached_epoch;
        while epoch <= latest_epoch
            invariant
                latest_epoch < u64::MAX,
                start_cached_epoch <= epoch <= latest_epoch + 1,
                start_cached_epoch == retention_start(latest_epoch, old(self).max_cached),
                self.max_cached == old(self).max_cached,
                forall|e: u64| epochs@.contains_key(e) <==> (old(self).epochs@.contains_key(e)
                    && start_cached_epoch <= e < epoch),
                forall|e: u64| epochs@.contains_key(e) ==> epochs@[e] == old(self).epochs@[e],
                forall|e: u64| self.epochs@.contains_key(e) <==> (old(
                    self,
                ).epochs@.contains_key(e) && !(start_cached_epoch <= e < epoch)),
                forall|e: u64| self.epochs@.contains_key(e) ==> self.epochs@[e] == old(
                    self,
                ).epochs@[e],
            decreases latest_epoch + 1 - epoch,
        {
            let ghost pre = self.epochs@;
            match self.epochs.remove(&epoch) {
                Some(value) => {
                    epochs.insert(epoch, value);
                },
                None => {
                    proof {
                        assert(self.epochs@ =~= pre.remove(epoch));
                    }
                },
            }
            epoch += 1;
        }
        self.epochs = epochs;
    }

    /// Stores the aggregate view computed for one epoch.
    pub fn save_epoch(&mut self, epoch: u64, epoch_info: Vec<GaugeInfo>)
        ensures
            final(self).epochs@ == old(self).epochs@.insert(epoch, epoch_info),
            final(self).max_cached == old(self).max_cached,
    {
        self.epochs.insert(epoch, epoch_info);
    }

    /// Returns a copy of the cached aggregate view for `epoch`, or reports a
    /// cache miss. A miss is never filled in here: only the refresh task
    /// writes cache entries.
    pub fn get_epoch_info(&self, epoch: u64) -> (r: Result<Vec<GaugeInfo>, KeeperError>)
        ensures
            self.epochs@.contains_key(epoch) ==> (r matches Ok(v) && v.deep_view()
                == self.epochs@[epoch].deep_view()),
            !self.epochs@.contains_key(epoch) ==> r == Err::<Vec<GaugeInfo>, KeeperError>(
                KeeperError::EpochNotCached,
            ),
    {
        match self.epochs.get(&epoch) {
            Some(cached) => {
                let mut out: Vec<GaugeInfo> = Vec::new();
                let mut i: usize = 0;
                while i < cached.len()
                    invariant
                        i <= cached.len(),
                        out@.len() == i,
                        forall|j: int| 0 <= j < i ==> #[trigger] out@[j].deep_view()
                            == cached@[j].deep_view(),
                    decreases cached.len() - i,
                {
                    out.push(cached[i].clone());
                    i += 1;
                }
                proof {
                    assert forall|j: int| 0 <= j < out@.len() implies out.deep_view()[j]
                        == cached.deep_view()[j] by {
                        assert(out.deep_view()[j] == out@[j].deep_view());
                    }
                    assert(out.deep_view() =~= cached.deep_view());
                }
                Ok(out)
            },
            None => Err(KeeperError::EpochNotCached),
        }
    }
}

} // verus!
