//! Reconciliation planning: from per-gauge observations of authoritative
//! ledger state, decide which corrective and bootstrap transactions one
//! sweep should submit. Reading the accounts and submitting the decided
//! transactions is the ledger gateway's part.
use vstd::prelude::*;

use crate::engine::Core;
use crate::state::GaugeStateV;

verus! {

/// The pair that drift detection compares for one gauge at the rewards
/// epoch: the linked quarry's authoritative reward share against the total
/// power recorded in the gauge's per-epoch snapshot account.
#[derive(Clone, Copy, Debug, PartialEq, Eq, Structural)]
pub struct RewardsCheck {
    pub rewards_share: u64,
    pub total_power: u64,
}

/// Abstract value of one reconciliation observation.
#[verifier::ext_equal]
pub ghost struct GaugeSyncObservationV {
    pub gauge: Seq<char>,
    pub rewards: Option<RewardsCheck>,
    pub current_epoch_exists: bool,
}

/// What one reconciliation pass observed for one enabled gauge: the drift
/// pair when the gauge's snapshot account for the rewards epoch exists
/// (absence is out of scope for that step), and whether the snapshot
/// account for the current voting epoch exists yet.
#[derive(Debug)]
pub struct GaugeSyncObservation {
    pub gauge: String,
    pub rewards: Option<RewardsCheck>,
    pub current_epoch_exists: bool,
}

impl DeepView for GaugeSyncObservation {
    type V = GaugeSyncObservationV;

    open spec fn deep_view(&self) -> GaugeSyncObservationV {
        GaugeSyncObservationV {
            gauge: self.gauge@,
            rewards: self.rewards,
            current_epoch_exists: self.current_epoch_exists,
        }
    }
}

/// Abstract value of one decided transaction.
#[verifier::ext_equal]
pub ghost enum SyncActionV {
    /// Rewrite the epoch snapshot's total power from the quarry's share.
    SyncGauge { gauge: Seq<char> },
    /// Create the per-epoch tracking account for the current voting epoch.
    CreateEpochGauge { gauge: Seq<char> },
}

/// One transaction that a reconciliation sweep decided to submit.
#[derive(Debug)]
pub enum SyncAction {
    /// Rewrite the epoch snapshot's total power from the quarry's share.
    SyncGauge { gauge: String },
    /// Create the per-epoch tracking account for the current voting epoch.
    CreateEpochGauge { gauge: String },
}

impl DeepView for SyncAction {
    type V = SyncActionV;

    open spec fn deep_view(&self) -> SyncActionV {
        match self {
            SyncAction::SyncGauge { gauge } => SyncActionV::SyncGauge { gauge: gauge@ },
            SyncAction::CreateEpochGauge { gauge } => SyncActionV::CreateEpochGauge {
                gauge: gauge@,
            },
        }
    }
}

/// Whether an observation shows drift: the snapshot account exists and its
/// recorded total power differs from the quarry's reward share.
pub open spec fn shows_drift(o: GaugeSyncObservationV) -> bool {
    o.rewards matches Some(c) && c.rewards_share != c.total_power
}

/// The corrective transactions of a sweep: one per drifted gauge, in
/// observation order.
pub open spec fn drift_actions(obs: Seq<GaugeSyncObservationV>) -> Seq<SyncActionV>
    decreases obs.len(),
{
    if obs.len() == 0 {
        Seq::empty()
    } else {
        let rest = drift_actions(obs.drop_last());
        if shows_drift(obs.last()) {
            rest.push(SyncActionV::SyncGauge { gauge: obs.last().gauge })
        } else {
            rest
        }
    }
}

/// The bootstrap transactions of a sweep: one per gauge whose snapshot
/// account for the current voting epoch does not exist yet, in observation
/// order.
pub open spec fn create_actions(obs: Seq<GaugeSyncObservationV>) -> Seq<SyncActionV>
    decreases obs.len(),
{
    if obs.len() == 0 {
        Seq::empty()
    } else {
        let rest = create_actions(obs.drop_last());
        if !obs.last().current_epoch_exists {
            rest.push(SyncActionV::CreateEpochGauge { gauge: obs.last().gauge })
        } else {
            rest
        }
    }
}

/// Everything one sweep submits: all corrective transactions, then all
/// bootstrap transactions, as the two passes of the sweep run.
pub open spec fn sync_actions_of(obs: Seq<GaugeSyncObservationV>) -> Seq<SyncActionV> {
    drift_actions(obs) + create_actions(obs)
}

/// Decides the transactions of one reconciliation sweep from the per-gauge
/// observations: exactly one corrective transaction for each gauge whose
/// recorded power drifted from its quarry's share, and exactly one
/// bootstrap transaction for each gauge not yet tracked in the current
/// epoch.
pub fn plan_sync_actions(observations: &Vec<GaugeSyncObservation>) -> (r: Vec<SyncAction>)
    ensures
        r.deep_view() == sync_actions_of(observations.deep_view()),
{
    let ghost obs = observations.deep_view();
    let mut out: Vec<SyncAction> = Vec::new();
    let mut i: usize = 0;
    while i < observations.len()
        invariant
            i <= observations.len(),
            obs == observations.deep_view(),
            out.deep_view() == drift_actions(obs.take(i as int)),
        decreases observations.len() - i,
    {
        let ghost pre = out.deep_view();
        let o = &observations[i];
        proof {
            assert(obs[i as int] == observations@[i as int].deep_view());
        }
        match o.rewards {
            Some(check) => {
                if check.rewards_share != check.total_power {
                    out.push(SyncAction::SyncGauge { gauge: o.gauge.clone() });
                    proof {
                        assert forall|k: int| 0 <= k < out@.len() implies out.deep_view()[k]
                            == pre.push(
                            SyncActionV::SyncGauge { gauge: obs[i as int].gauge },
                        )[k] by {
                            assert(out.deep_view()[k] == out@[k].deep_view());
                        }
                        assert(out.deep_view() =~= pre.push(
                            SyncActionV::SyncGauge { gauge: obs[i as int].gauge },
                        ));
                    }
                }
            },
            None => {},
        }
        proof {
            assert(obs.take(i as int + 1).drop_last() =~= obs.take(i as int));
            assert(obs.take(i as int + 1).last() == obs[i as int]);
        }
        i += 1;
    }
    proof {
        assert(obs.take(observations@.len() as int) =~= obs);
    }
    let mut j: usize = 0;
    while j < observations.len()
        invariant
            j <= observations.len(),
            obs == observations.deep_view(),
            out.deep_view() == drift_actions(obs) + create_actions(obs.take(j as int)),
        decreases observations.len() - j,
    {
        let ghost pre = out.deep_view();
        let o = &observations[j];
        proof {
            assert(obs[j as int] == observations@[j as int].deep_view());
        }
        if !o.current_epoch_exists {
            out.push(SyncAction::CreateEpochGauge { gauge: o.gauge.clone() });
            proof {
                assert forall|k: int| 0 <= k < out@.len() implies out.deep_view()[k] == pre.push(
                    SyncActionV::CreateEpochGauge { gauge: obs[j as int].gauge },
                )[k] by {
                    assert(out.deep_view()[k] == out@[k].deep_view());
                }
                assert(out.deep_view() =~= pre.push(
                    SyncActionV::CreateEpochGauge { gauge: obs[j as int].gauge },
                ));
            }
        }
        proof {
            assert(obs.take(j as int + 1).drop_last() =~= obs.take(j as int));
            assert(obs.take(j as int + 1).last() == obs[j as int]);
            assert(drift_actions(obs) + create_actions(obs.take(j as int + 1)) =~= (
            if !obs[j as int].current_epoch_exists {
                (drift_actions(obs) + create_actions(obs.take(j as int))).push(
                    SyncActionV::CreateEpochGauge { gauge: obs[j as int].gauge },
                )
            } else {
                drift_actions(obs) + create_actions(obs.take(j as int))
            }));
        }
        j += 1;
    }
    proof {
        assert(obs.take(observations@.len() as int) =~= obs);
    }
    out
}

/// The keys of enabled gauges, in mirror order: disabled gauges take no
/// part in reconciliation.
pub open spec fn enabled_keys_of(gauges: Seq<GaugeStateV>) -> Seq<Seq<char>>
    decreases gauges.len(),
{
    if gauges.len() == 0 {
        Seq::empty()
    } else {
        let rest = enabled_keys_of(gauges.drop_last());
        if !gauges.last().is_disabled {
            rest.push(gauges.last().pubkey)
        } else {
            rest
        }
    }
}

impl Core {
    /// The addresses of the mirrored gauges that are not disabled: the
    /// gauges one reconciliation sweep observes and may correct.
    pub fn enabled_gauge_keys(&self) -> (r: Vec<String>)
        ensures
            r.deep_view() == enabled_keys_of(self.state.gauges.deep_view()),
    {
        let ghost dv = self.state.gauges.deep_view();
        let mut out: Vec<String> = Vec::new();
        let mut i: usize = 0;
        while i < self.state.gauges.len()
            invariant
                i <= self.state.gauges.len(),
                dv == self.state.gauges.deep_view(),
                out.deep_view() == enabled_keys_of(dv.take(i as int)),
            decreases self.state.gauges.len() - i,
        {
            let ghost pre = out.deep_view();
            proof {
                assert(dv[i as int] == self.state.gauges@[i as int].deep_view());
            }
            if !self.state.gauges[i].is_disabled {
                out.push(self.state.gauges[i].pubkey.clone());
                proof {
                    assert forall|k: int| 0 <= k < out@.len() implies out.deep_view()[k]
                        == pre.push(dv[i as int].pubkey)[k] by {
                        assert(out.deep_view()[k] == out@[k].deep_view());
                    }
                    assert(out.deep_view() =~= pre.push(dv[i as int].pubkey));
                }
            }
            proof {
                assert(dv.take(i as int + 1).drop_last() =~= dv.take(i as int));
                assert(dv.take(i as int + 1).last() == dv[i as int]);
            }
            i += 1;
        }
        proof {
            assert(dv.take(self.state.gauges@.len() as int) =~= dv);
        }
        out
    }
}

} // verus!
