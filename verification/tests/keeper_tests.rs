//! End-to-end tests of the keeper library: crawler steps, store semantics,
//! cache retention, aggregate views, reconciliation planning and the query
//! joins.
use keeper::database::Bribe;
use keeper::database::CrawlConfig;
use keeper::database::EpochGaugeSnapshot;
use keeper::database::Store;
use keeper::engine::Core;
use keeper::epochs::init_epoch_infos;
use keeper::epochs::GaugeInfo;
use keeper::state::init_state;
use keeper::state::GaugeAccount;
use keeper::state::GaugeFactoryAccount;
use keeper::state::GaugeState;
use keeper::state::PoolDynamicInfo;
use keeper::state::QuarryDynamicInfo;
use keeper::state::QuarryRecord;
use keeper::state::DaoState;
use keeper::sync::plan_sync_actions;
use keeper::sync::GaugeSyncObservation;
use keeper::sync::RewardsCheck;
use keeper::sync::SyncAction;
use keeper::utils::build_pg_connection_str;
use keeper::utils::PostgresArgs;
use keeper::KeeperError;

fn fresh_core() -> Core {
    Core {
        base: "base".to_string(),
        state: init_state(),
        epochs: init_epoch_infos(),
        store: Store::new(),
    }
}

fn mirror_factory(core: &mut Core, current_voting_epoch: u32, bribe_index: u32) {
    core.state.gauge_factory.pubkey = "factory".to_string();
    core.state.gauge_factory.current_voting_epoch = current_voting_epoch;
    core.state.gauge_factory.bribe_index = bribe_index;
}

fn gauge_state(pubkey: &str, quarry: &str, pool: &str, disabled: bool) -> GaugeState {
    GaugeState {
        pubkey: pubkey.to_string(),
        quarry: quarry.to_string(),
        amm_pool: pool.to_string(),
        token_a_mint: "mint_a".to_string(),
        token_b_mint: "mint_b".to_string(),
        token_a_fee_key: "fee_a".to_string(),
        token_b_fee_key: "fee_b".to_string(),
        is_disabled: disabled,
        cummulative_token_a_fee: 0,
        cummulative_token_b_fee: 0,
        cummulative_claimed_token_a_fee: 0,
        cummulative_claimed_token_b_fee: 0,
        amm_type: 1,
    }
}

fn gauge_account(factory: &str, quarry: &str) -> GaugeAccount {
    GaugeAccount {
        gauge_factory: factory.to_string(),
        quarry: quarry.to_string(),
        amm_pool: "pool".to_string(),
        token_a_mint: "mint_a".to_string(),
        token_b_mint: "mint_b".to_string(),
        token_a_fee_key: "fee_a".to_string(),
        token_b_fee_key: "fee_b".to_string(),
        is_disabled: false,
        cummulative_token_a_fee: 0,
        cummulative_token_b_fee: 0,
        cummulative_claimed_token_a_fee: 0,
        cummulative_claimed_token_b_fee: 0,
        amm_type: 1,
    }
}

fn quarry_record(pool: &str, rewards_share: u64) -> QuarryRecord {
    QuarryRecord {
        total_tokens_deposited: 10,
        num_miners: 2,
        famine_ts: 99,
        amm_pool: pool.to_string(),
        amm_type: 1,
        annual_rewards_rate: 1000,
        rewards_share,
    }
}

fn snapshot(address: &str, gauge: &str, epoch: u32, power: u64) -> EpochGaugeSnapshot {
    EpochGaugeSnapshot {
        address: address.to_string(),
        gauge: gauge.to_string(),
        voting_epoch: epoch,
        total_power: power,
        token_a_fee: 1,
        token_b_fee: 2,
    }
}

fn bribe(address: &str, gauge: &str, index: i64, start: i64, end: i64, reward: i64) -> Bribe {
    Bribe {
        address: address.to_string(),
        gauge: gauge.to_string(),
        token_mint: "mint".to_string(),
        reward_each_epoch: reward,
        briber: "briber".to_string(),
        token_account_vault: "vault".to_string(),
        bribe_rewards_epoch_start: start,
        bribe_rewards_epoch_end: end,
        bribe_index: index,
    }
}

#[test]
fn test_crawl_up_advances_behind_current() {
    let mut core = fresh_core();
    mirror_factory(&mut core, 5, 0);
    core.store.crawl_config = Some(CrawlConfig { voting_epoch_up: 3, voting_epoch_down: -1 });
    assert_eq!(core.crawl_up_target().unwrap(), Some(3));
    let snaps = vec![snapshot("a1", "g1", 3, 700)];
    core.process_crawl_epoch_up(&snaps).unwrap();
    let config = core.store.crawl_config.unwrap();
    assert_eq!(config.voting_epoch_up, 4);
    assert_eq!(core.store.epoch_gauges.len(), 1);
    assert_eq!(core.store.epoch_gauges[0].address, "a1");
    assert_eq!(core.store.epoch_gauges[0].total_power, 700);
    assert_eq!(core.store.epoch_gauges[0].voting_epoch, 3);
}

#[test]
fn test_crawl_up_at_current_keeps_cursor() {
    let mut core = fresh_core();
    mirror_factory(&mut core, 5, 0);
    core.store.crawl_config = Some(CrawlConfig { voting_epoch_up: 5, voting_epoch_down: -1 });
    assert_eq!(core.crawl_up_target().unwrap(), Some(5));
    let snaps = vec![snapshot("a5", "g1", 5, 900)];
    core.process_crawl_epoch_up(&snaps).unwrap();
    let config = core.store.crawl_config.unwrap();
    assert_eq!(config.voting_epoch_up, 5);
    assert_eq!(core.store.epoch_gauges.len(), 1);
}

#[test]
fn test_crawl_up_uninitialized_noop() {
    let mut core = fresh_core();
    assert_eq!(core.crawl_up_target().unwrap(), None);
    let snaps = vec![snapshot("a1", "g1", 3, 700)];
    core.process_crawl_epoch_up(&snaps).unwrap();
    assert!(core.store.crawl_config.is_none());
    assert_eq!(core.store.epoch_gauges.len(), 0);
}

#[test]
fn test_crawl_up_cursor_missing() {
    let mut core = fresh_core();
    mirror_factory(&mut core, 5, 0);
    assert_eq!(core.crawl_up_target().unwrap_err(), KeeperError::CursorMissing);
    let snaps = vec![];
    assert_eq!(core.process_crawl_epoch_up(&snaps).unwrap_err(), KeeperError::CursorMissing);
}

#[test]
fn test_crawl_down_steps_back() {
    let mut core = fresh_core();
    mirror_factory(&mut core, 5, 0);
    core.store.crawl_config = Some(CrawlConfig { voting_epoch_up: 5, voting_epoch_down: 2 });
    assert_eq!(core.crawl_down_target().unwrap(), Some(2));
    let snaps = vec![snapshot("a2", "g1", 2, 300)];
    core.process_crawl_epoch_down(&snaps).unwrap();
    let config = core.store.crawl_config.unwrap();
    assert_eq!(config.voting_epoch_down, 1);
    assert_eq!(config.voting_epoch_up, 5);
    assert_eq!(core.store.epoch_gauges.len(), 1);
}

#[test]
fn test_crawl_down_terminal_noop() {
    let mut core = fresh_core();
    core.store.crawl_config = Some(CrawlConfig { voting_epoch_up: 5, voting_epoch_down: -1 });
    assert_eq!(core.crawl_down_target().unwrap(), None);
    let snaps = vec![snapshot("a0", "g1", 0, 1)];
    core.process_crawl_epoch_down(&snaps).unwrap();
    let config = core.store.crawl_config.unwrap();
    assert_eq!(config.voting_epoch_down, -1);
    assert_eq!(core.store.epoch_gauges.len(), 0);
}

#[test]
fn test_crawl_down_cursor_missing() {
    let core = fresh_core();
    assert_eq!(core.crawl_down_target().unwrap_err(), KeeperError::CursorMissing);
}

#[test]
fn test_crawl_up_cursor_out_of_range() {
    let mut core = fresh_core();
    mirror_factory(&mut core, 5, 0);
    core.store.crawl_config = Some(CrawlConfig { voting_epoch_up: -5, voting_epoch_down: -1 });
    assert_eq!(core.crawl_up_target().unwrap_err(), KeeperError::EpochOutOfRange);
    let snaps = vec![];
    assert_eq!(core.process_crawl_epoch_up(&snaps).unwrap_err(), KeeperError::EpochOutOfRange);
}

#[test]
fn test_bribe_noop_when_caught_up() {
    let mut core = fresh_core();
    mirror_factory(&mut core, 5, 0);
    assert_eq!(core.next_bribe_target(), None);
    core.process_crawl_bribe(bribe("unused", "g1", 0, 0, 1, 1)).unwrap();
    assert_eq!(core.store.bribes.len(), 0);
}

#[test]
fn test_upsert_preserves_other_rows() {
    let mut core = fresh_core();
    mirror_factory(&mut core, 5, 0);
    core.store.crawl_config = Some(CrawlConfig { voting_epoch_up: 5, voting_epoch_down: -1 });
    let first = vec![snapshot("a1", "g1", 5, 100), snapshot("a2", "g2", 5, 200)];
    core.process_crawl_epoch_up(&first).unwrap();
    let second = vec![snapshot("a2", "g2", 5, 250)];
    core.process_crawl_epoch_up(&second).unwrap();
    assert_eq!(core.store.epoch_gauges.len(), 2);
    assert_eq!(core.store.epoch_gauges[0].address, "a1");
    assert_eq!(core.store.epoch_gauges[0].total_power, 100);
    assert_eq!(core.store.epoch_gauges[1].address, "a2");
    assert_eq!(core.store.epoch_gauges[1].total_power, 250);
}

#[test]
fn test_upsert_same_address_keeps_latest() {
    let mut core = fresh_core();
    mirror_factory(&mut core, 5, 0);
    core.store.crawl_config = Some(CrawlConfig { voting_epoch_up: 5, voting_epoch_down: -1 });
    let first = vec![snapshot("addr", "g1", 5, 100)];
    core.process_crawl_epoch_up(&first).unwrap();
    let second = vec![snapshot("addr", "g1", 5, 250)];
    core.process_crawl_epoch_up(&second).unwrap();
    assert_eq!(core.store.epoch_gauges.len(), 1);
    assert_eq!(core.store.epoch_gauges[0].address, "addr");
    assert_eq!(core.store.epoch_gauges[0].total_power, 250);
}

#[test]
fn test_bribe_steps_reach_authoritative() {
    let mut core = fresh_core();
    mirror_factory(&mut core, 5, 3);
    for i in 0..3i64 {
        assert_eq!(core.next_bribe_target(), Some(i as u32));
        let address = format!("bribe{}", i);
        core.process_crawl_bribe(bribe(&address, "g1", i, 0, 9, 50)).unwrap();
    }
    assert_eq!(core.next_bribe_target(), None);
    assert_eq!(core.store.bribes.len(), 3);
    let max = core.store.bribes.iter().map(|b| b.bribe_index).max().unwrap();
    assert_eq!(max, 2);
}

#[test]
fn test_bribe_insert_never_overwrites() {
    let mut core = fresh_core();
    mirror_factory(&mut core, 5, 3);
    core.process_crawl_bribe(bribe("bribe0", "g1", 0, 0, 9, 50)).unwrap();
    let err = core.process_crawl_bribe(bribe("bribe0", "g2", 1, 0, 9, 70)).unwrap_err();
    assert_eq!(err, KeeperError::DuplicateBribe);
    assert_eq!(core.store.bribes.len(), 1);
    assert_eq!(core.store.bribes[0].gauge, "g1");
    assert_eq!(core.store.bribes[0].bribe_index, 0);
    assert_eq!(core.store.bribes[0].reward_each_epoch, 50);
}

fn cached_marker(name: &str) -> Vec<GaugeInfo> {
    vec![GaugeInfo {
        gauge_pk: name.to_string(),
        pool_pk: "pool".to_string(),
        quarry_pk: "quarry".to_string(),
        voting_power: 1,
        token_a_mint: "mint_a".to_string(),
        token_b_mint: "mint_b".to_string(),
        token_a_fee: 0,
        token_b_fee: 0,
        bribes: vec![],
    }]
}

#[test]
fn test_cache_refresh_retention() {
    let mut core = fresh_core();
    mirror_factory(&mut core, 6, 0);
    for e in 0..=6u64 {
        core.epochs.save_epoch(e, cached_marker(&format!("e{}", e)));
    }
    core.process_cache_latest_epoches().unwrap();
    for e in 0..=2u64 {
        assert_eq!(core.epochs.get_epoch_info(e).unwrap_err(), KeeperError::EpochNotCached);
    }
    for e in 3..=5u64 {
        assert_eq!(core.epochs.get_epoch_info(e).unwrap(), cached_marker(&format!("e{}", e)));
    }
    // The latest epoch was recomputed from the (empty) store, replacing the
    // stale cached value.
    assert_eq!(core.epochs.get_epoch_info(6).unwrap(), vec![]);
}

#[test]
fn test_cache_refresh_clamps_at_zero() {
    let mut core = fresh_core();
    mirror_factory(&mut core, 1, 0);
    core.epochs.save_epoch(0, cached_marker("e0"));
    core.process_cache_latest_epoches().unwrap();
    assert_eq!(core.epochs.get_epoch_info(0).unwrap(), cached_marker("e0"));
    assert_eq!(core.epochs.get_epoch_info(1).unwrap(), vec![]);
}

#[test]
fn test_clear_old_epochs_direct() {
    let mut epochs = init_epoch_infos();
    epochs.save_epoch(10, cached_marker("e10"));
    epochs.save_epoch(2, cached_marker("e2"));
    epochs.clear_old_epochs(12);
    assert_eq!(epochs.get_epoch_info(10).unwrap(), cached_marker("e10"));
    assert_eq!(epochs.get_epoch_info(2).unwrap_err(), KeeperError::EpochNotCached);
}

#[test]
fn test_get_epoch_info_prefers_cache() {
    let mut core = fresh_core();
    core.epochs.save_epoch(7, cached_marker("cached"));
    let info = core.get_epoch_info(7).unwrap();
    assert_eq!(info, cached_marker("cached"));
}

#[test]
fn test_get_epoch_info_miss_matches_recompute() {
    let mut core = fresh_core();
    mirror_factory(&mut core, 5, 0);
    core.state.gauges.push(gauge_state("g1", "q1", "p1", false));
    core.store.crawl_config = Some(CrawlConfig { voting_epoch_up: 5, voting_epoch_down: -1 });
    let snaps = vec![snapshot("a4", "g1", 4, 11)];
    core.process_crawl_epoch_up(&snaps).unwrap();
    // The epoch is not cached, before and after the lookup: a miss is
    // recomputed every time and never written back.
    assert_eq!(core.epochs.get_epoch_info(4).unwrap_err(), KeeperError::EpochNotCached);
    let looked_up = core.get_epoch_info(4).unwrap();
    let recomputed = core.get_epoch_info_internal(4).unwrap();
    assert_eq!(looked_up, recomputed);
    assert_eq!(core.epochs.get_epoch_info(4).unwrap_err(), KeeperError::EpochNotCached);
}

#[test]
fn test_epoch_view_joins_bribes() {
    let mut core = fresh_core();
    mirror_factory(&mut core, 5, 4);
    core.state.gauges.push(gauge_state("g1", "q1", "p1", false));
    core.state.gauges.push(gauge_state("g2", "q2", "p2", false));
    core.store.crawl_config = Some(CrawlConfig { voting_epoch_up: 5, voting_epoch_down: -1 });
    let snaps = vec![snapshot("a4", "g1", 4, 11)];
    core.process_crawl_epoch_up(&snaps).unwrap();
    core.process_crawl_bribe(bribe("b0", "g1", 0, 3, 5, 9)).unwrap();
    core.process_crawl_bribe(bribe("b1", "g2", 1, 3, 5, 8)).unwrap();
    core.process_crawl_bribe(bribe("b2", "g1", 2, 5, 6, 7)).unwrap();
    core.process_crawl_bribe(bribe("b3", "g1", 3, 3, 5, -1)).unwrap();
    let info = core.get_epoch_info(4).unwrap();
    assert_eq!(info.len(), 1);
    assert_eq!(info[0].gauge_pk, "g1");
    assert_eq!(info[0].pool_pk, "p1");
    assert_eq!(info[0].quarry_pk, "q1");
    assert_eq!(info[0].voting_power, 11);
    assert_eq!(info[0].token_a_fee, 1);
    assert_eq!(info[0].token_b_fee, 2);
    assert_eq!(info[0].bribes.len(), 1);
    assert_eq!(info[0].bribes[0].pubkey, "b0");
    assert_eq!(info[0].bribes[0].bribe_index, 0);
    assert_eq!(info[0].bribes[0].reward_each_epoch, 9);
}

#[test]
fn test_gauge_not_found_error() {
    let mut core = fresh_core();
    mirror_factory(&mut core, 5, 0);
    core.store.crawl_config = Some(CrawlConfig { voting_epoch_up: 5, voting_epoch_down: -1 });
    let snaps = vec![snapshot("a4", "unknown", 4, 11)];
    core.process_crawl_epoch_up(&snaps).unwrap();
    assert_eq!(core.get_epoch_info_internal(4).unwrap_err(), KeeperError::GaugeNotFound);
    assert_eq!(core.get_epoch_info(4).unwrap_err(), KeeperError::GaugeNotFound);
}

#[test]
fn test_epoch_out_of_range_error() {
    let core = fresh_core();
    assert_eq!(core.get_epoch_info(u64::MAX).unwrap_err(), KeeperError::EpochOutOfRange);
}

#[test]
fn test_rewards_epoch() {
    let mut core = fresh_core();
    mirror_factory(&mut core, 0, 0);
    assert_eq!(core.state.gauge_factory.rewards_epoch().unwrap_err(), KeeperError::NoRewardsEpoch);
    core.state.gauge_factory.current_voting_epoch = 5;
    assert_eq!(core.state.gauge_factory.rewards_epoch().unwrap(), 4);
}

#[test]
fn test_plan_sync_actions_drift() {
    let observations = vec![
        GaugeSyncObservation {
            gauge: "g1".to_string(),
            rewards: Some(RewardsCheck { rewards_share: 1000, total_power: 800 }),
            current_epoch_exists: true,
        },
        GaugeSyncObservation {
            gauge: "g2".to_string(),
            rewards: Some(RewardsCheck { rewards_share: 500, total_power: 500 }),
            current_epoch_exists: true,
        },
    ];
    let actions = plan_sync_actions(&observations);
    assert_eq!(actions.len(), 1);
    assert!(matches!(&actions[0], SyncAction::SyncGauge { gauge } if gauge == "g1"));
}

#[test]
fn test_plan_sync_actions_bootstrap() {
    let observations = vec![
        GaugeSyncObservation {
            gauge: "g1".to_string(),
            rewards: None,
            current_epoch_exists: true,
        },
        GaugeSyncObservation {
            gauge: "g2".to_string(),
            rewards: None,
            current_epoch_exists: false,
        },
    ];
    let actions = plan_sync_actions(&observations);
    assert_eq!(actions.len(), 1);
    assert!(matches!(&actions[0], SyncAction::CreateEpochGauge { gauge } if gauge == "g2"));
}

#[test]
fn test_plan_sync_actions_order() {
    let observations = vec![GaugeSyncObservation {
        gauge: "g1".to_string(),
        rewards: Some(RewardsCheck { rewards_share: 10, total_power: 7 }),
        current_epoch_exists: false,
    }];
    let actions = plan_sync_actions(&observations);
    assert_eq!(actions.len(), 2);
    assert!(matches!(&actions[0], SyncAction::SyncGauge { gauge } if gauge == "g1"));
    assert!(matches!(&actions[1], SyncAction::CreateEpochGauge { gauge } if gauge == "g1"));
}

#[test]
fn test_enabled_gauge_keys() {
    let mut core = fresh_core();
    core.state.gauges.push(gauge_state("g1", "q1", "p1", false));
    core.state.gauges.push(gauge_state("g2", "q2", "p2", true));
    core.state.gauges.push(gauge_state("g3", "q3", "p3", false));
    let keys = core.enabled_gauge_keys();
    assert_eq!(keys, vec!["g1".to_string(), "g3".to_string()]);
}

#[test]
fn test_should_trigger_next_epoch() {
    let mut core = fresh_core();
    core.state.gauge_factory.next_epoch_starts_at = 1000;
    assert!(!core.state.should_trigger_next_epoch(999));
    assert!(core.state.should_trigger_next_epoch(1000));
    assert!(core.state.should_trigger_next_epoch(1001));
}

#[test]
fn test_init_seeds_cursor() {
    let mut core = fresh_core();
    let factory = GaugeFactoryAccount {
        rewarder: "rewarder".to_string(),
        locker: "locker".to_string(),
        foreman: "foreman".to_string(),
        epoch_duration_seconds: 604800,
        current_voting_epoch: 7,
        next_epoch_starts_at: 123,
        bribe_index: 2,
    };
    let gauges = vec![("g1".to_string(), gauge_account("factory", "q1"))];
    let quarries = vec![("q1".to_string(), quarry_record("p1", 50))];
    core.init(factory, "factory".to_string(), gauges, quarries);
    let config = core.store.crawl_config.unwrap();
    assert_eq!(config.voting_epoch_up, 7);
    assert_eq!(config.voting_epoch_down, 6);
    assert_eq!(core.state.gauge_factory.pubkey, "factory");
    assert_eq!(core.state.gauge_factory.current_voting_epoch, 7);
    assert_eq!(core.state.gauges.len(), 1);
    assert_eq!(core.state.gauges[0].pubkey, "g1");
    // A later initialization with a newer epoch keeps the persisted cursor.
    let factory_later = GaugeFactoryAccount {
        rewarder: "rewarder".to_string(),
        locker: "locker".to_string(),
        foreman: "foreman".to_string(),
        epoch_duration_seconds: 604800,
        current_voting_epoch: 9,
        next_epoch_starts_at: 456,
        bribe_index: 2,
    };
    core.init(factory_later, "factory".to_string(), vec![], vec![]);
    let config = core.store.crawl_config.unwrap();
    assert_eq!(config.voting_epoch_up, 7);
    assert_eq!(config.voting_epoch_down, 6);
}

#[test]
fn test_filter_factory_gauges() {
    let gauges = vec![
        ("g1".to_string(), gauge_account("factory", "q1")),
        ("g2".to_string(), gauge_account("other", "q2")),
        ("g3".to_string(), gauge_account("factory", "q3")),
    ];
    let kept = keeper::state::filter_factory_gauges(&gauges, &"factory".to_string());
    assert_eq!(kept.len(), 2);
    assert_eq!(kept[0].0, "g1");
    assert_eq!(kept[1].0, "g3");
}

#[test]
fn test_save_gauges_and_quarries_replaces() {
    let mut state = init_state();
    state.save_gauges_and_quarries(
        vec![
            ("g1".to_string(), gauge_account("factory", "q1")),
            ("g2".to_string(), gauge_account("factory", "q2")),
        ],
        vec![("q1".to_string(), quarry_record("p1", 5))],
    );
    assert_eq!(state.gauges.len(), 2);
    state.save_gauges_and_quarries(
        vec![("g3".to_string(), gauge_account("factory", "q3"))],
        vec![("q3".to_string(), quarry_record("p3", 6))],
    );
    assert_eq!(state.gauges.len(), 1);
    assert_eq!(state.gauges[0].pubkey, "g3");
    assert_eq!(state.quarries.len(), 1);
    assert_eq!(state.quarries[0].0, "q3");
}

#[test]
fn test_get_gauge() {
    let gauges = vec![gauge_state("g1", "q1", "p1", false), gauge_state("g2", "q2", "p2", false)];
    let found = DaoState::get_gauge(&gauges, "g2".to_string()).unwrap();
    assert_eq!(found.pubkey, "g2");
    assert_eq!(found.quarry, "q2");
    let missing = DaoState::get_gauge(&gauges, "g9".to_string()).unwrap_err();
    assert_eq!(missing, KeeperError::GaugeNotFound);
}

#[test]
fn test_build_pg_connection_str() {
    let args = PostgresArgs {
        postgres_user: "user".to_string(),
        postgres_password: "pw".to_string(),
        postgres_db: "db".to_string(),
        postgres_socket_address: "127.0.0.1:5432".to_string(),
    };
    assert_eq!(build_pg_connection_str(args), "postgres://user:pw@127.0.0.1:5432/db");
}

#[test]
fn test_get_all_pools_defaults() {
    let mut core = fresh_core();
    core.state.gauges.push(gauge_state("g1", "q1", "p1", false));
    core.state.gauges.push(gauge_state("g2", "q2", "p2", false));
    core.state.pools.push(PoolDynamicInfo {
        pubkey: "p1".to_string(),
        tvl: "5".to_string(),
        quarry_tvl: "6".to_string(),
    });
    let pools = core.get_all_pools();
    assert_eq!(pools.len(), 2);
    assert_eq!(pools[0].pubkey, "p1");
    assert_eq!(pools[0].tvl, "5");
    assert_eq!(pools[0].quarry_tvl, "6");
    assert_eq!(pools[1].pubkey, "p2");
    assert_eq!(pools[1].tvl, "0");
    assert_eq!(pools[1].quarry_tvl, "0");
}

#[test]
fn test_get_all_quarries_defaults() {
    let mut core = fresh_core();
    core.state.quarries.push(("q1".to_string(), quarry_record("p1", 50)));
    core.state.quarries.push(("q2".to_string(), quarry_record("p2", 60)));
    core.state.quarry_infos.push(QuarryDynamicInfo {
        pubkey: "q2".to_string(),
        tvl: "7".to_string(),
        quarry_tvl: "8".to_string(),
        apy: "9".to_string(),
    });
    let quarries = core.get_all_quarries();
    assert_eq!(quarries.len(), 2);
    assert_eq!(quarries[0].pubkey, "q1");
    assert_eq!(quarries[0].apy, "0");
    assert_eq!(quarries[0].quarry_tvl, "0");
    assert_eq!(quarries[0].rewards_share, 50);
    assert_eq!(quarries[1].pubkey, "q2");
    assert_eq!(quarries[1].apy, "9");
    assert_eq!(quarries[1].quarry_tvl, "8");
}

#[test]
fn test_get_latest_epoches() {
    let mut core = fresh_core();
    mirror_factory(&mut core, 1, 0);
    core.epochs.save_epoch(1, cached_marker("current"));
    let latest = core.get_latest_epoches().unwrap();
    assert_eq!(latest.current_epoch.epoch, 1);
    assert_eq!(latest.current_epoch.gauges, cached_marker("current"));
    let last = latest.last_epoch.unwrap();
    assert_eq!(last.epoch, 0);
    assert_eq!(last.gauges, vec![]);
}

#[test]
fn test_get_latest_epoches_first_epoch() {
    let mut core = fresh_core();
    mirror_factory(&mut core, 0, 0);
    let latest = core.get_latest_epoches().unwrap();
    assert_eq!(latest.current_epoch.epoch, 0);
    assert_eq!(latest.current_epoch.gauges, vec![]);
    assert!(latest.last_epoch.is_none());
}
