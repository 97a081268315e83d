use cyberswap::staking::asset::AssetInfo;
use cyberswap::staking::asset::Denom;
use cyberswap::staking::contract::calc_ratio;
use cyberswap::staking::contract::calc_reward;
use cyberswap::staking::contract::check_enabled;
use cyberswap::staking::contract::check_lock;
use cyberswap::staking::contract::check_owner;
use cyberswap::staking::contract::credit_referral;
use cyberswap::staking::contract::detail_closed;
use cyberswap::staking::contract::detail_opened;
use cyberswap::staking::contract::execute as staking_execute;
use cyberswap::staking::contract::execute_claim_referral_reward;
use cyberswap::staking::contract::execute_claim_reward;
use cyberswap::staking::contract::execute_receive;
use cyberswap::staking::contract::execute_stake;
use cyberswap::staking::contract::execute_unstake;
use cyberswap::staking::contract::execute_update_config;
use cyberswap::staking::contract::execute_withdraw;
use cyberswap::staking::contract::instantiate as staking_instantiate;
use cyberswap::staking::contract::migrate as staking_migrate;
use cyberswap::staking::contract::page_limit;
use cyberswap::staking::contract::position_weights;
use cyberswap::staking::contract::withdrawn_share;
use cyberswap::staking::util::tax_due;
use cyberswap::staking::contract::query as staking_query;
use cyberswap::staking::contract::query_config as staking_query_config;
use cyberswap::staking::contract::query_get_now;
use cyberswap::staking::contract::query_get_staking_list;
use cyberswap::staking::contract::query_staked_detail;
use cyberswap::staking::contract::query_staking_info;
use cyberswap::staking::contract::referral_locked as staking_referral_locked;
use cyberswap::staking::contract::referral_share;
use cyberswap::staking::contract::update_reward;
use cyberswap::staking::contract::Oracle;
use cyberswap::staking::contract::DEFAULT_LIMIT;
use cyberswap::staking::contract::DEFAULT_PRECISION;
use cyberswap::staking::contract::MAX_LIMIT;
use cyberswap::staking::contract::ONE_DAY as STAKING_ONE_DAY;
use cyberswap::staking::contract::ONE_MONTH;
use cyberswap::staking::contract::ONE_MONTH_DAY;
use cyberswap::staking::contract::ONE_WEEK;
use cyberswap::staking::contract::ONE_WEEK_DAY;
use cyberswap::staking::contract::ONE_YEAR;
use cyberswap::staking::contract::ONE_YEAR_MONTH;
use cyberswap::staking::error::ContractError as StakingError;
use cyberswap::staking::msg::Cw20ReceiveMsg as StakingReceive;
use cyberswap::staking::msg::ExecuteMsg as StakingExecuteMsg;
use cyberswap::staking::msg::InstantiateMsg as StakingInstantiateMsg;
use cyberswap::staking::msg::MigrateMsg as StakingMigrateMsg;
use cyberswap::staking::msg::QueryMsg as StakingQueryMsg;
use cyberswap::staking::msg::QueryResponse as StakingQueryResponse;
use cyberswap::staking::msg::ReceiveMsg;
use cyberswap::staking::msg::Response as StakingResponse;
use cyberswap::staking::msg::StakedDetail;
use cyberswap::staking::msg::StakerInfo as Position;
use cyberswap::staking::msg::TestBalanceResponse;
use cyberswap::staking::msg::TransferMsg as Payment;
use cyberswap::staking::state::Config as StakingConfig;
use cyberswap::staking::state::Store as StakingStore;
use cyberswap::staking::util::after_tax;
use cyberswap::staking::util::get_simulate_swap_operations;
use cyberswap::staking::util::needs_router;
use cyberswap::staking::util::transfer_token_message;
use cyberswap::math::MathError as Arithmetic;

fn t(text: &str) -> String {
    String::from(text)
}

fn token(address: &str) -> AssetInfo {
    AssetInfo::Token { contract_addr: t(address) }
}

fn native(denom: &str) -> AssetInfo {
    AssetInfo::NativeToken { denom: t(denom) }
}

fn curve(min_lock_week: u64, max_lock_week: u64, min_ratio: u64, max_ratio: u64) -> StakingConfig {
    StakingConfig {
        owner: t("owner"),
        staking_asset: token("cyber"),
        reward_asset: native("uluna"),
        router_address: t("router"),
        min_lock_week,
        max_lock_week,
        min_ratio,
        max_ratio,
        referral_rate: 10,
        referral_lock_days: 7,
        enabled: true,
    }
}

fn pool() -> StakingStore {
    staking_instantiate(t("owner"), opening(1, 52, 5, 50)).unwrap()
}

fn opening(min_lock_week: u64, max_lock_week: u64, min_ratio: u64, max_ratio: u64) -> StakingInstantiateMsg {
    StakingInstantiateMsg {
        staking_asset: token("cyber"),
        reward_asset: native("uluna"),
        router_address: t("router"),
        min_lock_week,
        max_lock_week,
        min_ratio,
        max_ratio,
        referral_rate: 10,
        referral_lock_days: 7,
        enabled: true,
    }
}

/// Answers in which the caller is rich, a staked unit is worth two reward
/// units, and nothing is taxed.
fn quotes(staked_value: u128, referral_value: u128) -> Oracle {
    Oracle {
        sender_balance: u128::MAX,
        staked_value,
        referral_value,
        pool_staking_balance: 0,
        pool_reward_balance: 0,
        staking_tax: 0,
        reward_tax: 0,
    }
}

#[test]
fn time_constants() {
    assert_eq!(STAKING_ONE_DAY, 86_400);
    assert_eq!(ONE_WEEK, 7 * STAKING_ONE_DAY);
    assert_eq!(ONE_MONTH, 30 * STAKING_ONE_DAY);
    assert_eq!(ONE_YEAR, 12 * ONE_MONTH);
    assert_eq!((ONE_YEAR_MONTH, ONE_MONTH_DAY, ONE_WEEK_DAY), (12, 30, 7));
    assert_eq!(DEFAULT_PRECISION, 1_000_000_000);
    assert_eq!((DEFAULT_LIMIT, MAX_LIMIT), (10, 30));
}

#[test]
fn staking_ratio_scenario() {
    let config = curve(1, 52, 5, 50);
    assert_eq!(calc_ratio(&config, 1), Ok(5 * DEFAULT_PRECISION));
    assert_eq!(calc_ratio(&config, 52), Ok(50 * DEFAULT_PRECISION));
    assert_eq!(calc_ratio(&config, 52).unwrap() / DEFAULT_PRECISION, 50);
    // 45 * 10^9 * k^2 / 51^2, rounded down once
    assert_eq!(calc_ratio(&config, 2), Ok(5_017_301_038));
    assert_eq!(calc_ratio(&config, 4), Ok(5_155_709_342));
    assert_eq!(calc_ratio(&config, 26), Ok(15_813_148_788));
    assert_eq!(calc_ratio(&config, 51), Ok(48_252_595_155));
    for week in 2u64..52 {
        let ratio = calc_ratio(&config, week).unwrap() as u128;
        let rise = (ratio - 5_000_000_000) * 51;
        let line = 45_000_000_000u128 * (week as u128 - 1);
        assert!(rise < line);
        assert!(ratio > calc_ratio(&config, week - 1).unwrap() as u128);
    }
}

#[test]
fn ratio_reaches_the_top_whatever_the_span() {
    let config = curve(1, 11, 0, 100);
    assert_eq!(calc_ratio(&config, 1), Ok(0));
    assert_eq!(calc_ratio(&config, 11), Ok(100 * DEFAULT_PRECISION));
    assert_eq!(calc_ratio(&config, 6), Ok(25 * DEFAULT_PRECISION));
    let thirds = curve(1, 4, 10, 40);
    assert_eq!(calc_ratio(&thirds, 1), Ok(10 * DEFAULT_PRECISION));
    assert_eq!(calc_ratio(&thirds, 4), Ok(40 * DEFAULT_PRECISION));
    assert_eq!(calc_ratio(&thirds, 2), Ok(13_333_333_333));
    for (low, high) in [(1u64, 2u64), (3, 10), (1, 52), (7, 1000), (0, u32::MAX as u64)] {
        let config = curve(low, high, 3, 97);
        assert_eq!(calc_ratio(&config, low), Ok(3 * DEFAULT_PRECISION));
        assert_eq!(calc_ratio(&config, high), Ok(97 * DEFAULT_PRECISION));
    }
}

#[test]
fn ratio_goes_on_beyond_the_longest_lock() {
    let config = curve(1, 11, 0, 100);
    assert_eq!(calc_ratio(&config, 21), Ok(400 * DEFAULT_PRECISION));
}

#[test]
fn ratio_errors() {
    assert_eq!(calc_ratio(&curve(4, 4, 5, 50), 4), Err(StakingError::DivideByZero));
    assert_eq!(calc_ratio(&curve(5, 4, 5, 50), 4), Err(StakingError::OverflowError));
    assert_eq!(calc_ratio(&curve(1, 4, 50, 5), 2), Err(StakingError::OverflowError));
    assert_eq!(calc_ratio(&curve(2, 4, 5, 50), 1), Err(StakingError::OverflowError));
    assert_eq!(calc_ratio(&curve(0, 1, 0, u64::MAX), 1), Err(StakingError::OverflowError));
    assert_eq!(calc_ratio(&curve(0, 1, 0, 1), u64::MAX), Err(StakingError::OverflowError));
    assert_eq!(calc_ratio(&curve(0, 1, 0, 18_446_744_073), 1), Ok(18_446_744_073_000_000_000));
    assert_eq!(calc_ratio(&curve(0, 1, 0, 18_446_744_074), 1), Err(StakingError::OverflowError));
    assert_eq!(StakingError::from_math(Arithmetic::Overflow), StakingError::OverflowError);
    assert_eq!(StakingError::from_math(Arithmetic::DivideByZero), StakingError::DivideByZero);
}

#[test]
fn reward_formula() {
    let config = curve(1, 52, 5, 50);
    // yearly 500_000; per second 16_075_102 scaled; over a year 499_999
    assert_eq!(calc_reward(&config, ONE_YEAR, 52, 1_000_000, 0), Ok(499_999));
    assert_eq!(calc_reward(&config, ONE_YEAR / 2, 52, 1_000_000, 0), Ok(249_999));
    assert_eq!(calc_reward(&config, 100 + 4 * ONE_WEEK, 4, 1_000_000_000_000, 100), Ok(4_009_996_154));
    assert_eq!(calc_reward(&config, 100, 4, 1_000_000_000_000, 100), Ok(0));
    assert_eq!(calc_reward(&config, ONE_YEAR, 1, 0, 0), Ok(0));
}

#[test]
fn reward_before_the_clock_is_zero() {
    let config = curve(1, 52, 5, 50);
    assert_eq!(calc_reward(&config, 99, 4, 1_000_000, 100), Ok(0));
    // not even a broken curve is looked at
    assert_eq!(calc_reward(&curve(4, 4, 5, 50), 99, 4, 1_000_000, 100), Ok(0));
    assert_eq!(calc_reward(&curve(4, 4, 5, 50), 100, 4, 1_000_000, 100), Err(StakingError::DivideByZero));
}

#[test]
fn reward_overflow_is_reported() {
    let config = curve(1, 52, 5, 50);
    assert_eq!(calc_reward(&config, 10, 52, u128::MAX, 0), Err(StakingError::OverflowError));
    assert_eq!(calc_reward(&config, 10, 0, 5, 0), Err(StakingError::OverflowError));
    assert_eq!(
        calc_reward(&config, u64::MAX, 52, u128::MAX / 50_000_000_000, 0),
        Err(StakingError::OverflowError)
    );
}

#[test]
fn lock_scenario() {
    assert!(!check_lock(3 * ONE_WEEK, 0, 4));
    assert!(check_lock(4 * ONE_WEEK, 0, 4));
    assert!(!check_lock(4 * ONE_WEEK - 1, 0, 4));
    assert!(check_lock(4 * ONE_WEEK + 1, 0, 4));
    assert!(check_lock(0, 0, 0));
    assert!(!check_lock(1000 + ONE_WEEK - 1, 1000, 1));
    assert!(check_lock(1000 + ONE_WEEK, 1000, 1));
    assert!(!check_lock(u64::MAX, 1, u64::MAX));
    assert!(!check_lock(u64::MAX, u64::MAX, 1));
}

#[test]
fn unstake_waits_for_the_lock() {
    let mut store = pool();
    let staked = execute_stake(&mut store, 0, t("alice"), 4, 1_000_000_000_000, t("bob"), quotes(0, 7));
    assert_eq!(staked, Ok(StakingResponse::Stake { stake_amount: 1_000_000_000_000 }));
    let early = execute_unstake(&mut store, 3 * ONE_WEEK, t("alice"), 1_000_000_000_000, quotes(1_000_000_000_000, 0));
    assert_eq!(early, Err(StakingError::StillInLock));
    assert_eq!(store.staker(&t("alice")).reward_amount, 0);
    assert_eq!(store.staker(&t("alice")).stake_amount, 1_000_000_000_000);
    let due = execute_unstake(&mut store, 4 * ONE_WEEK, t("alice"), 1_000_000_000_000, quotes(1_000_000_000_000, 0));
    assert_eq!(
        due,
        Ok(StakingResponse::Unstake {
            staking_payout: Payment { denom: Denom::Cw20(t("cyber")), amount: 1_000_000_000_000, receiver: t("alice") },
            reward_payout: Payment { denom: Denom::Native(t("uluna")), amount: 4_009_996_154, receiver: t("alice") },
            unstaked_amount: 1_000_000_000_000,
        })
    );
    let alice = store.staker(&t("alice"));
    assert_eq!(alice.stake_amount, 0);
    assert_eq!((alice.reward_amount, alice.last_reward), (0, 0));
    assert_eq!(alice.reward_timestamp, 4 * ONE_WEEK);
    assert_eq!(alice.staked_timestamp, 0);
    assert_eq!(store.detail, StakedDetail { total_acc: 0, total_wcc: 0, total_staked: 0 });
}

#[test]
fn instantiate_makes_the_sender_owner() {
    let store = pool();
    assert_eq!(store.config, curve(1, 52, 5, 50));
    assert_eq!(store.detail, StakedDetail { total_acc: 0, total_wcc: 0, total_staked: 0 });
    assert_eq!(store.stakers.len(), 0);
    let reported = staking_query_config(&store);
    assert_eq!(reported.owner, "owner");
    assert_eq!(reported.staking_asset, token("cyber"));
    assert_eq!(reported.reward_asset, native("uluna"));
    assert_eq!(reported.router_address, "router");
    assert_eq!((reported.min_lock_week, reported.max_lock_week), (1, 52));
    assert_eq!((reported.min_ratio, reported.max_ratio), (5, 50));
    assert_eq!((reported.referral_rate, reported.referral_lock_days, reported.enabled), (10, 7, true));
}

#[test]
fn default_position_is_empty() {
    let d = Position::default();
    assert_eq!(
        d,
        Position {
            lock_week: 0,
            stake_amount: 0,
            reward_amount: 0,
            last_reward: 0,
            referral_addr: t(""),
            referral_reward: 0,
            referral_count: 0,
            staked_timestamp: 0,
            reward_timestamp: 0,
            referral_timestamp: 0,
            ratio_weight: 0,
            week_weight: 0,
        }
    );
    assert_eq!(TestBalanceResponse { balance: 3 }.balance, 3);
}

#[test]
fn stake_opens_a_position_and_feeds_the_totals() {
    let mut store = pool();
    let out = execute_stake(&mut store, 1000, t("alice"), 4, 1000, t("bob"), quotes(999, 55));
    assert_eq!(out, Ok(StakingResponse::Stake { stake_amount: 1000 }));
    assert_eq!(
        store.staker(&t("alice")),
        Position {
            lock_week: 4,
            stake_amount: 1000,
            reward_amount: 0,
            last_reward: 0,
            referral_addr: t("bob"),
            referral_reward: 0,
            referral_count: 0,
            staked_timestamp: 1000,
            reward_timestamp: 1000,
            referral_timestamp: 0,
            ratio_weight: 5155,
            week_weight: 4000,
        }
    );
    // the bonus is the router's quote for a tenth of the stake
    let bob = store.staker(&t("bob"));
    assert_eq!((bob.referral_reward, bob.referral_count, bob.referral_timestamp), (55, 1, 1000));
    assert_eq!(bob.stake_amount, 0);
    // ratio(4) = 5_155_709_342
    assert_eq!(store.detail, StakedDetail { total_acc: 5155, total_wcc: 4000, total_staked: 1000 });
}

#[test]
fn restake_carries_the_running_reward_over() {
    let mut store = pool();
    execute_stake(&mut store, 0, t("alice"), 52, 500_000, t("bob"), quotes(0, 0)).unwrap();
    // after a year the stake is worth a million reward units
    let out = execute_stake(&mut store, ONE_YEAR, t("alice"), 1, 10, t("carol"), quotes(1_000_000, 0));
    assert_eq!(out, Ok(StakingResponse::Stake { stake_amount: 10 }));
    let alice = store.staker(&t("alice"));
    assert_eq!(alice.last_reward, 499_999);
    // 50 * 500_000 from the first stake, 5 * 10 from the second
    assert_eq!((alice.ratio_weight, alice.week_weight), (25_000_050, 26_000_010));
    assert_eq!(
        store.detail,
        StakedDetail { total_acc: 25_000_050, total_wcc: 26_000_010, total_staked: 500_010 }
    );
    assert_eq!(alice.reward_amount, 0);
    assert_eq!(alice.lock_week, 1);
    assert_eq!(alice.stake_amount, 500_010);
    assert_eq!((alice.staked_timestamp, alice.reward_timestamp), (ONE_YEAR, ONE_YEAR));
    assert_eq!(alice.referral_addr, "bob");
}

#[test]
fn staking_referral_is_sticky() {
    let mut store = pool();
    execute_stake(&mut store, 10, t("alice"), 4, 1000, t("bob"), quotes(0, 100)).unwrap();
    execute_stake(&mut store, 20, t("alice"), 4, 500, t("carol"), quotes(2000, 50)).unwrap();
    assert_eq!(store.staker(&t("alice")).referral_addr, "bob");
    let bob = store.staker(&t("bob"));
    assert_eq!((bob.referral_reward, bob.referral_count, bob.referral_timestamp), (150, 1, 10));
    assert!(!store.stakers.contains(&t("carol")));
}

#[test]
fn stake_rejections() {
    let mut store = pool();
    let rich = quotes(0, 0);
    assert_eq!(
        execute_stake(&mut store, 0, t("alice"), 4, 10, t(""), rich),
        Err(StakingError::InvalidReferralAddr)
    );
    assert_eq!(
        execute_stake(&mut store, 0, t("alice"), 4, 10, t("alice"), rich),
        Err(StakingError::InvalidReferralAddr)
    );
    assert_eq!(
        execute_stake(&mut store, 0, t("alice"), 0, 10, t("bob"), rich),
        Err(StakingError::InvalidInput)
    );
    assert_eq!(
        execute_stake(&mut store, 0, t("alice"), 53, 10, t("bob"), rich),
        Err(StakingError::InvalidInput)
    );
    let poor = Oracle { sender_balance: 9, ..rich };
    assert_eq!(
        execute_stake(&mut store, 0, t("alice"), 4, 10, t("bob"), poor),
        Err(StakingError::Insufficient)
    );
    assert_eq!(
        execute_stake(&mut store, 0, t("alice"), 4, u128::MAX, t("bob"), rich),
        Err(StakingError::OverflowError)
    );
    assert_eq!(store.stakers.len(), 0);
    assert_eq!(store.detail, StakedDetail { total_acc: 0, total_wcc: 0, total_staked: 0 });
    let exact = Oracle { sender_balance: 10, ..rich };
    assert!(execute_stake(&mut store, 0, t("alice"), 1, 10, t("bob"), exact).is_ok());
    assert!(execute_stake(&mut store, 0, t("alice"), 52, 10, t("bob"), exact).is_ok());
}

#[test]
fn stake_on_a_flat_curve_divides_by_zero() {
    let mut store = pool();
    store.config.max_lock_week = 1;
    assert_eq!(
        execute_stake(&mut store, 0, t("alice"), 1, 10, t("bob"), quotes(0, 0)),
        Err(StakingError::DivideByZero)
    );
    assert_eq!(store.stakers.len(), 0);
}

#[test]
fn totals_open_and_close_symmetrically() {
    let config = curve(1, 52, 5, 50);
    let start = StakedDetail { total_acc: 7, total_wcc: 8, total_staked: 9 };
    let weights = position_weights(&config, 4, 1000).unwrap();
    assert_eq!(weights, (5155, 4000));
    let opened = detail_opened(start, weights, 1000).unwrap();
    assert_eq!(opened, StakedDetail { total_acc: 5162, total_wcc: 4008, total_staked: 1009 });
    assert_eq!(detail_closed(opened, weights, 1000), Some(start));
    assert_eq!(detail_closed(start, weights, 1000), None);
    assert_eq!(detail_opened(start, (u128::MAX, 0), 1), None);
    assert_eq!(detail_opened(start, (0, 0), u128::MAX), None);
    assert_eq!(position_weights(&config, 4, u128::MAX), Err(StakingError::OverflowError));
    assert_eq!(position_weights(&config, 0, 1), Err(StakingError::OverflowError));
    assert_eq!(position_weights(&curve(3, 3, 5, 50), 3, 1), Err(StakingError::DivideByZero));
}

#[test]
fn withdrawn_share_is_proportional_and_whole_at_the_end() {
    assert_eq!(withdrawn_share(5155, 1000, 1000), 5155);
    assert_eq!(withdrawn_share(5155, 500, 1000), 2577);
    assert_eq!(withdrawn_share(5155, 0, 1000), 0);
    assert_eq!(withdrawn_share(5155, 1, 3), 1718);
    assert_eq!(withdrawn_share(0, 0, 0), 0);
    assert_eq!(withdrawn_share(u128::MAX, u128::MAX - 1, u128::MAX), u128::MAX - 1);
    assert_eq!(withdrawn_share(u128::MAX, u128::MAX, u128::MAX), u128::MAX);
    assert_eq!(withdrawn_share(7, 4, 3), 0);
}

#[test]
fn unstake_takes_off_what_the_position_put_on() {
    let mut store = staking_instantiate(t("owner"), opening(1, 2, 5, 50)).unwrap();
    let before = store.detail;
    execute_stake(&mut store, 0, t("alice"), 2, 1_000_000_000, t("bob"), quotes(0, 0)).unwrap();
    assert_eq!(
        store.detail,
        StakedDetail { total_acc: 50_000_000_000, total_wcc: 2_000_000_000, total_staked: 1_000_000_000 }
    );
    // the owner flattens the curve while the position is open
    execute_update_config(
        &mut store, t("owner"), None, None, None, None, None, None, None, Some(5), None, None, None,
    )
    .unwrap();
    let out = execute_unstake(&mut store, ONE_YEAR, t("alice"), 1_000_000_000, quotes(1_000_000_000, 0));
    assert!(out.is_ok());
    assert_eq!(store.detail, before);
    let alice = store.staker(&t("alice"));
    assert_eq!((alice.stake_amount, alice.ratio_weight, alice.week_weight), (0, 0, 0));
}

#[test]
fn partial_unstakes_leave_the_totals_a_sum_over_positions() {
    let mut store = pool();
    execute_stake(&mut store, 0, t("alice"), 4, 1000, t("zed"), quotes(0, 0)).unwrap();
    execute_stake(&mut store, 0, t("bob"), 52, 333, t("zed"), quotes(0, 0)).unwrap();
    execute_stake(&mut store, 10, t("alice"), 9, 77, t("zed"), quotes(5000, 0)).unwrap();
    let sum = |store: &StakingStore| {
        let (a, b) = (store.staker(&t("alice")), store.staker(&t("bob")));
        StakedDetail {
            total_acc: a.ratio_weight + b.ratio_weight,
            total_wcc: a.week_weight + b.week_weight,
            total_staked: a.stake_amount + b.stake_amount,
        }
    };
    assert_eq!(store.detail, sum(&store));
    let mut now = 2 * ONE_YEAR;
    for (who, amount) in [("alice", 100u128), ("bob", 1), ("alice", 977), ("bob", 332)] {
        execute_unstake(&mut store, now, t(who), amount, quotes(1_000_000_000, 0)).unwrap();
        assert_eq!(store.detail, sum(&store));
        execute_stake(&mut store, now, t("carol"), 1, 1, t("zed"), quotes(0, 0)).unwrap();
        execute_unstake(&mut store, now + ONE_YEAR, t("carol"), 1, quotes(1_000_000_000_000, 0)).unwrap();
        assert_eq!(store.detail, sum(&store));
        now += 2 * ONE_YEAR;
    }
    assert_eq!(store.detail, StakedDetail { total_acc: 0, total_wcc: 0, total_staked: 0 });
}

#[test]
fn bounds_out_of_order_are_refused() {
    assert_eq!(
        staking_instantiate(t("owner"), opening(10, 5, 5, 50)).err(),
        Some(StakingError::InvalidInput)
    );
    assert_eq!(
        staking_instantiate(t("owner"), opening(1, 52, 50, 5)).err(),
        Some(StakingError::InvalidInput)
    );
    assert!(staking_instantiate(t("owner"), opening(4, 4, 7, 7)).is_ok());
    let mut store = pool();
    let weeks = |store: &mut StakingStore, min: Option<u64>, max: Option<u64>| {
        execute_update_config(
            store, t("owner"), None, None, None, None, min, max, None, None, None, None, None,
        )
    };
    assert_eq!(weeks(&mut store, Some(10), Some(5)), Err(StakingError::InvalidInput));
    assert_eq!(weeks(&mut store, Some(53), None), Err(StakingError::InvalidInput));
    assert_eq!(weeks(&mut store, None, Some(0)), Err(StakingError::InvalidInput));
    assert_eq!(store.config, curve(1, 52, 5, 50));
    assert_eq!(
        execute_update_config(
            &mut store, t("owner"), Some(t("heir")), None, None, None, None, None, Some(51), None, None,
            None, Some(false),
        ),
        Err(StakingError::InvalidInput)
    );
    assert_eq!(store.config, curve(1, 52, 5, 50));
    assert_eq!(weeks(&mut store, Some(52), None), Ok(StakingResponse::UpdateConfig));
    assert_eq!(weeks(&mut store, Some(60), Some(60)), Ok(StakingResponse::UpdateConfig));
    assert_eq!(store.config, curve(60, 60, 5, 50));
    // a stranger learns nothing about the bounds
    assert_eq!(
        execute_update_config(
            &mut store, t("alice"), None, None, None, None, Some(9), Some(1), None, None, None, None, None,
        ),
        Err(StakingError::Unauthorized)
    );
}

#[test]
fn tax_is_the_rate_on_the_amount_up_to_the_cap() {
    let percent = cyberswap::math::Decimal { atomics: 10_000_000_000_000_000 };
    assert_eq!(tax_due(1000, percent, 100), 10);
    assert_eq!(tax_due(1099, percent, 100), 10);
    assert_eq!(tax_due(1_000_000, percent, 100), 100);
    assert_eq!(tax_due(99, percent, 100), 0);
    assert_eq!(tax_due(1000, cyberswap::math::Decimal::zero(), 100), 0);
    assert_eq!(tax_due(1000, percent, 0), 0);
    let tenfold = cyberswap::math::Decimal { atomics: 10_000_000_000_000_000_000 };
    assert_eq!(tax_due(u128::MAX, tenfold, 77), 77);
    assert_eq!(tax_due(u128::MAX, tenfold, u128::MAX), u128::MAX);
}

#[test]
fn referral_share_and_credit() {
    assert_eq!(referral_share(1005, 10), Ok(100));
    assert_eq!(referral_share(9, 10), Ok(0));
    assert_eq!(referral_share(u128::MAX, 2), Err(StakingError::OverflowError));
    let mut referrer = Position::default();
    assert_eq!(credit_referral(true, &mut referrer, 30, 500), Ok(()));
    assert_eq!((referrer.referral_reward, referrer.referral_count, referrer.referral_timestamp), (30, 1, 500));
    assert_eq!(credit_referral(false, &mut referrer, 5, 900), Ok(()));
    assert_eq!((referrer.referral_reward, referrer.referral_count, referrer.referral_timestamp), (35, 1, 500));
    assert_eq!(credit_referral(true, &mut referrer, u128::MAX, 900), Err(StakingError::OverflowError));
    referrer.referral_count = u64::MAX;
    assert_eq!(credit_referral(true, &mut referrer, 1, 900), Err(StakingError::OverflowError));
    assert_eq!((referrer.referral_reward, referrer.referral_count), (35, u64::MAX));
}

#[test]
fn update_reward_refreshes_the_running_reward() {
    let mut store = pool();
    assert_eq!(update_reward(&mut store, 50, t("alice"), 123), Ok(StakingResponse::Empty));
    assert_eq!(store.stakers.len(), 0);
    execute_stake(&mut store, 0, t("alice"), 52, 500_000, t("bob"), quotes(0, 0)).unwrap();
    assert_eq!(update_reward(&mut store, ONE_YEAR, t("alice"), 1_000_000), Ok(StakingResponse::UpdateReward));
    assert_eq!(store.staker(&t("alice")).reward_amount, 499_999);
    assert_eq!(update_reward(&mut store, ONE_YEAR / 2, t("alice"), 1_000_000), Ok(StakingResponse::UpdateReward));
    assert_eq!(store.staker(&t("alice")).reward_amount, 249_999);
    assert_eq!(store.staker(&t("alice")).reward_timestamp, 0);
    assert_eq!(
        update_reward(&mut store, ONE_YEAR, t("alice"), u128::MAX),
        Err(StakingError::OverflowError)
    );
    assert_eq!(store.staker(&t("alice")).reward_amount, 249_999);
}

#[test]
fn claim_reward_pays_running_and_carried_rewards() {
    let mut store = pool();
    execute_stake(&mut store, 0, t("alice"), 1, 500_000, t("bob"), quotes(0, 0)).unwrap();
    assert_eq!(
        execute_claim_reward(&mut store, ONE_WEEK - 1, t("alice"), quotes(1_000_000, 0)),
        Err(StakingError::StillInLock)
    );
    assert_eq!(
        execute_claim_reward(&mut store, ONE_WEEK, t("alice"), quotes(0, 0)),
        Err(StakingError::NotEnoughReward)
    );
    assert_eq!(store.staker(&t("alice")).reward_timestamp, 0);
    // ratio(1) is five percent: 50_000 a year on a million
    let out = execute_claim_reward(&mut store, ONE_YEAR, t("alice"), quotes(1_000_000, 0));
    assert_eq!(
        out,
        Ok(StakingResponse::ClaimReward {
            payout: Payment { denom: Denom::Native(t("uluna")), amount: 49_999, receiver: t("alice") },
            reward_amount: 49_999,
        })
    );
    let alice = store.staker(&t("alice"));
    assert_eq!((alice.reward_amount, alice.last_reward, alice.reward_timestamp), (0, 0, ONE_YEAR));
    assert_eq!(alice.stake_amount, 500_000);
    assert_eq!(
        execute_claim_reward(&mut store, ONE_YEAR, t("alice"), quotes(1_000_000, 0)),
        Err(StakingError::NotEnoughReward)
    );
}

#[test]
fn referral_reward_claim() {
    let mut store = pool();
    execute_stake(&mut store, 1000, t("alice"), 4, 1000, t("bob"), quotes(0, 77)).unwrap();
    let unlock = 1000 + 7 * STAKING_ONE_DAY;
    assert_eq!(
        execute_claim_referral_reward(&mut store, unlock - 1, t("bob"), quotes(0, 0)),
        Err(StakingError::StillInLock)
    );
    assert_eq!(
        execute_claim_referral_reward(&mut store, unlock, t("bob"), quotes(0, 0)),
        Ok(StakingResponse::ClaimReferralReward {
            payout: Payment { denom: Denom::Native(t("uluna")), amount: 77, receiver: t("bob") },
            reward_amount: 77,
        })
    );
    assert_eq!(store.staker(&t("bob")).referral_reward, 0);
    assert_eq!(
        execute_claim_referral_reward(&mut store, unlock, t("bob"), quotes(0, 0)),
        Err(StakingError::NotEnoughReward)
    );
    assert!(staking_referral_locked(86_399, 0, 1));
    assert!(!staking_referral_locked(86_400, 0, 1));
    assert!(staking_referral_locked(u64::MAX, 1, u64::MAX));
}

#[test]
fn disabled_pool_refuses_withdrawals_and_claims() {
    let mut store = pool();
    execute_stake(&mut store, 0, t("alice"), 1, 500_000, t("bob"), quotes(0, 9)).unwrap();
    store.config.enabled = false;
    assert_eq!(check_enabled(&store), Err(StakingError::Disabled));
    let q = quotes(1_000_000, 0);
    assert_eq!(execute_unstake(&mut store, ONE_YEAR, t("alice"), 1, q), Err(StakingError::Disabled));
    assert_eq!(execute_claim_reward(&mut store, ONE_YEAR, t("alice"), q), Err(StakingError::Disabled));
    assert_eq!(
        execute_claim_referral_reward(&mut store, ONE_YEAR, t("bob"), q),
        Err(StakingError::Disabled)
    );
    // staking goes on
    assert!(execute_stake(&mut store, 5, t("carol"), 1, 5, t("bob"), quotes(0, 0)).is_ok());
    store.config.enabled = true;
    assert_eq!(check_enabled(&store), Ok(StakingResponse::CheckEnabled));
}

#[test]
fn unstake_rejections() {
    let mut store = pool();
    execute_stake(&mut store, 0, t("alice"), 1, 500_000, t("bob"), quotes(0, 0)).unwrap();
    assert_eq!(
        execute_unstake(&mut store, ONE_YEAR, t("alice"), 500_001, quotes(1_000_000, 0)),
        Err(StakingError::InvalidInput)
    );
    assert_eq!(
        execute_unstake(&mut store, ONE_WEEK, t("alice"), 500_000, quotes(0, 0)),
        Err(StakingError::NotEnoughReward)
    );
    let taxed = Oracle { staking_tax: 0, reward_tax: 50_000, ..quotes(1_000_000, 0) };
    assert_eq!(
        execute_unstake(&mut store, ONE_YEAR, t("alice"), 500_000, taxed),
        Err(StakingError::OverflowError)
    );
    assert_eq!(store.staker(&t("alice")).stake_amount, 500_000);
    assert_eq!(store.staker(&t("alice")).reward_amount, 0);
    assert_eq!(store.detail.total_staked, 500_000);
}

#[test]
fn unstake_takes_tax_off_native_payouts_only() {
    let mut store = pool();
    execute_stake(&mut store, 0, t("alice"), 1, 500_000, t("bob"), quotes(0, 0)).unwrap();
    let taxed = Oracle { staking_tax: 400_000, reward_tax: 999, ..quotes(1_000_000, 0) };
    let out = execute_unstake(&mut store, ONE_YEAR, t("alice"), 200_000, taxed);
    assert_eq!(
        out,
        Ok(StakingResponse::Unstake {
            staking_payout: Payment { denom: Denom::Cw20(t("cyber")), amount: 200_000, receiver: t("alice") },
            reward_payout: Payment { denom: Denom::Native(t("uluna")), amount: 49_000, receiver: t("alice") },
            unstaked_amount: 200_000,
        })
    );
    assert_eq!(store.staker(&t("alice")).stake_amount, 300_000);
    // ratio(1) is five percent
    assert_eq!(store.detail, StakedDetail { total_acc: 1_500_000, total_wcc: 300_000, total_staked: 300_000 });
}

#[test]
fn withdraw_sweeps_balances_to_the_owner() {
    let mut store = pool();
    let held = Oracle {
        pool_staking_balance: 700,
        pool_reward_balance: 900,
        staking_tax: 5,
        reward_tax: 9,
        ..quotes(0, 0)
    };
    assert_eq!(execute_withdraw(&mut store, t("alice"), held), Err(StakingError::Unauthorized));
    assert_eq!(
        execute_withdraw(&mut store, t("owner"), held),
        Ok(StakingResponse::Withdraw {
            staking_payout: Payment { denom: Denom::Cw20(t("cyber")), amount: 700, receiver: t("owner") },
            second_payout: Some(Payment { denom: Denom::Native(t("uluna")), amount: 891, receiver: t("owner") }),
            amount1: 700,
            amount2: 891,
        })
    );
    let overtaxed = Oracle { reward_tax: 901, ..held };
    assert_eq!(execute_withdraw(&mut store, t("owner"), overtaxed), Err(StakingError::OverflowError));
    store.config.staking_asset = native("uluna");
    assert_eq!(
        execute_withdraw(&mut store, t("owner"), held),
        Ok(StakingResponse::Withdraw {
            staking_payout: Payment { denom: Denom::Native(t("uluna")), amount: 695, receiver: t("owner") },
            second_payout: None,
            amount1: 695,
            amount2: 0,
        })
    );
}

#[test]
fn owner_check() {
    let store = pool();
    assert_eq!(check_owner(&store, &t("owner")), Ok(StakingResponse::CheckOwner));
    assert_eq!(check_owner(&store, &t("Owner")), Err(StakingError::Unauthorized));
    assert_eq!(check_owner(&store, &t("")), Err(StakingError::Unauthorized));
}

#[test]
fn config_update_replaces_only_what_is_given() {
    let mut store = pool();
    assert_eq!(
        execute_update_config(
            &mut store, t("alice"), None, None, None, None, None, None, None, None, None, None, Some(false)
        ),
        Err(StakingError::Unauthorized)
    );
    assert_eq!(store.config, curve(1, 52, 5, 50));
    assert_eq!(
        execute_update_config(
            &mut store, t("owner"), None, None, None, None, Some(2), None, None, Some(60), None, None, None
        ),
        Ok(StakingResponse::UpdateConfig)
    );
    assert_eq!(store.config, curve(2, 52, 5, 60));
    assert_eq!(
        execute_update_config(
            &mut store,
            t("owner"),
            Some(t("heir")),
            Some(native("uusd")),
            Some(token("gold")),
            Some(t("other")),
            None,
            Some(9),
            Some(1),
            None,
            Some(3),
            Some(4),
            Some(false),
        ),
        Ok(StakingResponse::UpdateConfig)
    );
    assert_eq!(
        store.config,
        StakingConfig {
            owner: t("heir"),
            staking_asset: native("uusd"),
            reward_asset: token("gold"),
            router_address: t("other"),
            min_lock_week: 2,
            max_lock_week: 9,
            min_ratio: 1,
            max_ratio: 60,
            referral_rate: 3,
            referral_lock_days: 4,
            enabled: false,
        }
    );
}

#[test]
fn receive_checks_amount_token_and_payload() {
    let mut store = pool();
    let notice = |amount: u128, msg: Option<ReceiveMsg>| StakingReceive { sender: t("alice"), amount, msg };
    let stake_msg = || Some(ReceiveMsg::Stake { lock_week: 4, referral_addr: t("bob") });
    let q = quotes(0, 0);
    assert_eq!(
        execute_receive(&mut store, 0, t("cyber"), notice(0, stake_msg()), q),
        Err(StakingError::InvalidInput)
    );
    assert_eq!(
        execute_receive(&mut store, 0, t("other"), notice(5, stake_msg()), q),
        Err(StakingError::UnacceptableToken)
    );
    assert_eq!(
        execute_receive(&mut store, 0, t("cyber"), notice(5, None), q),
        Err(StakingError::InvalidInput)
    );
    assert_eq!(
        execute_receive(&mut store, 0, t("cyber"), notice(5, stake_msg()), q),
        Ok(StakingResponse::Stake { stake_amount: 5 })
    );
    assert_eq!(store.staker(&t("alice")).stake_amount, 5);
    store.config.staking_asset = native("cyber");
    assert_eq!(
        execute_receive(&mut store, 0, t("cyber"), notice(5, stake_msg()), q),
        Err(StakingError::UnacceptableToken)
    );
}

#[test]
fn staking_execute_dispatches_every_request() {
    let mut store = pool();
    let q = quotes(1_000_000, 3);
    assert_eq!(
        staking_execute(
            &mut store,
            0,
            t("alice"),
            StakingExecuteMsg::Stake { lock_week: 1, amount: 500_000, referral_addr: t("bob") },
            q,
        ),
        Ok(StakingResponse::Stake { stake_amount: 500_000 })
    );
    assert_eq!(
        staking_execute(
            &mut store,
            0,
            t("cyber"),
            StakingExecuteMsg::Receive(StakingReceive {
                sender: t("carol"),
                amount: 7,
                msg: Some(ReceiveMsg::Stake { lock_week: 2, referral_addr: t("bob") }),
            }),
            q,
        ),
        Ok(StakingResponse::Stake { stake_amount: 7 })
    );
    assert!(matches!(
        staking_execute(&mut store, ONE_YEAR, t("alice"), StakingExecuteMsg::ClaimReward {}, q),
        Ok(StakingResponse::ClaimReward { reward_amount: 49_999, .. })
    ));
    assert!(matches!(
        staking_execute(&mut store, 2 * ONE_YEAR, t("alice"), StakingExecuteMsg::Unstake { amount: 500_000 }, q),
        Ok(StakingResponse::Unstake { unstaked_amount: 500_000, .. })
    ));
    assert!(matches!(
        staking_execute(&mut store, ONE_YEAR, t("bob"), StakingExecuteMsg::ClaimReferralReward {}, q),
        Ok(StakingResponse::ClaimReferralReward { reward_amount: 3, .. })
    ));
    assert_eq!(
        staking_execute(&mut store, 0, t("alice"), StakingExecuteMsg::Withdraw {}, q),
        Err(StakingError::Unauthorized)
    );
    assert!(matches!(
        staking_execute(&mut store, 0, t("owner"), StakingExecuteMsg::Withdraw {}, q),
        Ok(StakingResponse::Withdraw { amount1: 0, amount2: 0, .. })
    ));
    assert_eq!(
        staking_execute(
            &mut store,
            0,
            t("owner"),
            StakingExecuteMsg::UpdateConfig {
                owner: None,
                staking_asset: None,
                reward_asset: None,
                router_address: None,
                min_lock_week: None,
                max_lock_week: None,
                min_ratio: None,
                max_ratio: None,
                referral_rate: Some(20),
                referral_lock_days: None,
                enabled: None,
            },
            q,
        ),
        Ok(StakingResponse::UpdateConfig)
    );
    assert_eq!(store.config.referral_rate, 20);
    assert_eq!(staking_migrate(StakingMigrateMsg {}), Ok(StakingResponse::Empty));
}

#[test]
fn position_query_projects_the_reward() {
    let mut store = pool();
    execute_stake(&mut store, 0, t("alice"), 52, 500_000, t("bob"), quotes(0, 0)).unwrap();
    let seen = query_staking_info(&store, ONE_YEAR, t("alice"), 1_000_000);
    assert_eq!(seen.address, "alice");
    assert_eq!(seen.info.reward_amount, 499_999);
    assert_eq!(seen.info.stake_amount, 500_000);
    assert_eq!(store.staker(&t("alice")).reward_amount, 0);
    // a reward that cannot be computed shows as zero
    assert_eq!(query_staking_info(&store, ONE_YEAR, t("alice"), u128::MAX).info.reward_amount, 0);
    let nobody = query_staking_info(&store, ONE_YEAR, t("nobody"), 1_000_000);
    assert_eq!(nobody.info, Position::default());
    assert_eq!(query_staked_detail(&store), store.detail);
    assert_eq!(query_get_now(5), 5);
}

#[test]
fn page_limit_is_bounded() {
    assert_eq!(page_limit(None), 10);
    assert_eq!(page_limit(Some(0)), 0);
    assert_eq!(page_limit(Some(29)), 29);
    assert_eq!(page_limit(Some(30)), 30);
    assert_eq!(page_limit(Some(31)), 30);
    assert_eq!(page_limit(Some(u32::MAX)), 30);
}

#[test]
fn staking_list_is_paged_in_address_order() {
    let mut store = pool();
    for who in ["delta", "alpha", "echo", "charlie", "bravo"] {
        execute_stake(&mut store, 0, t(who), 1, 10, t("zulu"), quotes(0, 0)).unwrap();
    }
    let names = |start: Option<&str>, limit: Option<u32>| -> Vec<String> {
        query_get_staking_list(&store, start.map(t), limit)
            .list
            .into_iter()
            .map(|entry| entry.address)
            .collect()
    };
    assert_eq!(names(None, None), vec!["alpha", "bravo", "charlie", "delta", "echo", "zulu"]);
    assert_eq!(names(None, Some(2)), vec!["alpha", "bravo"]);
    assert_eq!(names(Some("bravo"), Some(2)), vec!["charlie", "delta"]);
    assert_eq!(names(Some("bz"), Some(2)), vec!["charlie", "delta"]);
    assert_eq!(names(Some("echo"), None), vec!["zulu"]);
    assert_eq!(names(Some("zulu"), None), Vec::<String>::new());
    assert_eq!(names(None, Some(0)), Vec::<String>::new());
    assert_eq!(names(Some(""), Some(1)), vec!["alpha"]);
    let page = query_get_staking_list(&store, Some(t("delta")), Some(1));
    assert_eq!(page.list.len(), 1);
    assert_eq!(page.list[0].info, store.staker(&t("echo")));
}

#[test]
fn staking_list_never_exceeds_thirty() {
    let mut store = pool();
    for i in 0..40u32 {
        let who = format!("staker{:02}", i);
        execute_stake(&mut store, 0, who, 1, 10, t("zulu"), quotes(0, 0)).unwrap();
    }
    assert_eq!(query_get_staking_list(&store, None, None).list.len(), 10);
    let full = query_get_staking_list(&store, None, Some(1000));
    assert_eq!(full.list.len(), 30);
    assert_eq!(full.list[0].address, "staker00");
    assert_eq!(full.list[29].address, "staker29");
    let rest = query_get_staking_list(&store, Some(t("staker29")), Some(1000));
    assert_eq!(rest.list.len(), 11);
    assert_eq!(rest.list[10].address, "zulu");
}

#[test]
fn staking_query_dispatches_every_request() {
    let mut store = pool();
    execute_stake(&mut store, 0, t("alice"), 52, 500_000, t("bob"), quotes(0, 0)).unwrap();
    assert_eq!(
        staking_query(&store, 3, StakingQueryMsg::Config {}, 0),
        StakingQueryResponse::Config(staking_query_config(&store))
    );
    assert_eq!(
        staking_query(&store, ONE_YEAR, StakingQueryMsg::StakerInfo { address: t("alice") }, 1_000_000),
        StakingQueryResponse::StakerInfo(query_staking_info(&store, ONE_YEAR, t("alice"), 1_000_000))
    );
    assert_eq!(
        staking_query(&store, 3, StakingQueryMsg::StakingList { start_after: None, limit: Some(1) }, 0),
        StakingQueryResponse::StakingList(query_get_staking_list(&store, None, Some(1)))
    );
    assert_eq!(
        staking_query(&store, 3, StakingQueryMsg::StakedDetail {}, 0),
        StakingQueryResponse::StakedDetail(store.detail)
    );
    assert_eq!(staking_query(&store, 3, StakingQueryMsg::Now {}, 0), StakingQueryResponse::Now(3));
}

#[test]
fn swap_value_needs_the_router_only_for_a_real_conversion() {
    let cyber = token("cyber");
    let luna = native("uluna");
    assert_eq!(get_simulate_swap_operations(0, &cyber, &luna, 99), 0);
    assert_eq!(get_simulate_swap_operations(50, &cyber, &cyber, 99), 50);
    assert_eq!(get_simulate_swap_operations(50, &cyber, &luna, 99), 99);
    assert_eq!(get_simulate_swap_operations(50, &luna, &native("uluna"), 99), 50);
    assert_eq!(get_simulate_swap_operations(50, &token("uluna"), &luna, 99), 99);
    assert!(!needs_router(0, &cyber, &luna));
    assert!(!needs_router(50, &cyber, &token("cyber")));
    assert!(needs_router(50, &cyber, &luna));
}

#[test]
fn tax_and_payment_helpers() {
    assert_eq!(after_tax(&native("uluna"), 100, 30), Ok(70));
    assert_eq!(after_tax(&native("uluna"), 100, 100), Ok(0));
    assert_eq!(after_tax(&native("uluna"), 100, 101), Err(StakingError::OverflowError));
    assert_eq!(after_tax(&token("cyber"), 100, 101), Ok(100));
    assert_eq!(
        transfer_token_message(Denom::Native(t("uluna")), 5, t("alice")),
        Payment { denom: Denom::Native(t("uluna")), amount: 5, receiver: t("alice") }
    );
}

#[test]
fn asset_helpers() {
    let cyber = token("cyber");
    let luna = native("uluna");
    assert!(cyber.equal(&token("cyber")));
    assert!(!cyber.equal(&token("other")));
    assert!(!cyber.equal(&native("cyber")));
    assert!(luna.equal(&native("uluna")));
    assert!(luna.is_native_token());
    assert!(!cyber.is_native_token());
    assert_eq!(cyber.to_denom(), Denom::Cw20(t("cyber")));
    assert_eq!(luna.to_denom(), Denom::Native(t("uluna")));
    assert_eq!(cyber.to_addr(), Ok(t("cyber")));
    assert_eq!(luna.to_addr(), Err(StakingError::UnacceptableToken));
    assert_eq!(cyber.clone(), cyber);
}
