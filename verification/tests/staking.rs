use cw20_token_staking::contract::{
    claim_rewards, execute, instantiate, query, stake, unlock, unstake,
};
use cw20_token_staking::engine::{settle, update_accumulator};
use cw20_token_staking::error::ContractError;
use cw20_token_staking::helpers::check_available_balance;
use cw20_token_staking::msg::{ExecuteMsg, ExecuteOutcome, InstantiateMsg, QueryAnswer, QueryMsg};
use cw20_token_staking::query::{query_available_balance, query_reward, query_staked_balance};
use cw20_token_staking::state::{LockedEntry, RewardAccumulator, StakedPosition, StakingConfig};

fn cfg(rate: u128, delay: u64) -> StakingConfig {
    StakingConfig { reward_rate: rate, unlock_delay: delay }
}

fn acc(per_unit: u128, height: u64, total: u128) -> RewardAccumulator {
    RewardAccumulator {
        acc_reward_per_unit: per_unit,
        last_update_height: height,
        total_staked: total,
    }
}

fn pos(amount: u128, debt: u128, pending: u128) -> StakedPosition {
    StakedPosition { amount, reward_debt: debt, pending_reward: pending }
}

#[test]
fn instantiate_sets_config_and_zero_accumulator() {
    let msg = InstantiateMsg {
        name: "Staking Token".to_string(),
        symbol: "STK".to_string(),
        decimals: 6,
        initial_supply: 1_000_000,
        reward_per_block: 7,
        unlock_delay: 5,
        owner: "owner".to_string(),
    };
    let (c, a) = instantiate(&msg, 42);
    assert_eq!(c.reward_rate, 7);
    assert_eq!(c.unlock_delay, 5);
    assert_eq!(a.acc_reward_per_unit, 0);
    assert_eq!(a.last_update_height, 42);
    assert_eq!(a.total_staked, 0);
}

#[test]
fn accumulator_advances_per_unit_rate() {
    let c = cfg(3, 5);
    let a = acc(10, 100, 8);
    let a2 = update_accumulator(&c, &a, 104).unwrap();
    // 4 blocks at rate 3 per unit: +12, independent of the staked total
    assert_eq!(a2.acc_reward_per_unit, 22);
    assert_eq!(a2.last_update_height, 104);
    assert_eq!(a2.total_staked, 8);
}

#[test]
fn accumulator_without_stake_only_advances_height() {
    let c = cfg(3, 5);
    let a = acc(10, 100, 0);
    let a2 = update_accumulator(&c, &a, 200).unwrap();
    assert_eq!(a2.acc_reward_per_unit, 10);
    assert_eq!(a2.last_update_height, 200);
}

#[test]
fn accumulator_overflow_is_reported() {
    let c = cfg(u128::MAX, 5);
    let a = acc(0, 0, 1);
    assert_eq!(update_accumulator(&c, &a, 2), Err(ContractError::ArithmeticOverflow));
}

#[test]
fn settle_moves_accrued_reward_to_pending() {
    let c = cfg(2, 5);
    let a = acc(0, 0, 10);
    let p = pos(10, 0, 0);
    let (a2, p2) = settle(&c, &a, &p, 3).unwrap();
    // per-unit 6 after 3 blocks; earned 6 * 10 - 0 = 60
    assert_eq!(a2.acc_reward_per_unit, 6);
    assert_eq!(p2.pending_reward, 60);
    assert_eq!(p2.reward_debt, 60);
    assert_eq!(p2.amount, 10);
}

#[test]
fn settle_twice_at_same_height_accrues_nothing_more() {
    let c = cfg(2, 5);
    let a = acc(0, 0, 10);
    let p = pos(10, 0, 0);
    let (a2, p2) = settle(&c, &a, &p, 3).unwrap();
    let (a3, p3) = settle(&c, &a2, &p2, 3).unwrap();
    assert_eq!(a3, a2);
    assert_eq!(p3, p2);
    assert_eq!(p3.pending_reward, 60);
}

#[test]
fn lone_staker_earns_rate_times_blocks_per_unit() {
    // one staker, one staked unit, 9 blocks at rate 4: pending == 36
    let c = cfg(4, 5);
    let a = acc(0, 0, 1);
    let p = pos(1, 0, 0);
    let (_, p2) = settle(&c, &a, &p, 9).unwrap();
    assert_eq!(p2.pending_reward, 36);
    // with 5 staked units the same accrual is per unit: 5 times as much
    let a5 = acc(0, 0, 5);
    let p5 = pos(5, 0, 0);
    let (_, p6) = settle(&c, &a5, &p5, 9).unwrap();
    assert_eq!(p6.pending_reward, 180);
}

#[test]
fn stake_encumbers_and_updates_totals() {
    let c = cfg(1, 5);
    let a = acc(0, 0, 0);
    let p = pos(0, 0, 0);
    let locked: Vec<LockedEntry> = Vec::new();
    let (a2, p2) = stake(&c, &a, &p, &locked, 100, 10, 40).unwrap();
    assert_eq!(p2.amount, 40);
    assert_eq!(a2.total_staked, 40);
    assert_eq!(a2.last_update_height, 10);
    // no retroactive reward: debt checkpoints the post-increment product
    assert_eq!(p2.reward_debt, 0);
    assert_eq!(p2.pending_reward, 0);
}

#[test]
fn stake_zero_is_invalid() {
    let c = cfg(1, 5);
    let a = acc(0, 0, 0);
    let p = pos(0, 0, 0);
    let locked: Vec<LockedEntry> = Vec::new();
    assert_eq!(stake(&c, &a, &p, &locked, 100, 10, 0), Err(ContractError::InvalidAmount));
}

#[test]
fn stake_beyond_available_is_rejected() {
    let c = cfg(1, 5);
    let a = acc(0, 0, 40);
    let p = pos(40, 0, 0);
    let locked = vec![LockedEntry { amount: 20, maturity_height: 3 }];
    // total 100, staked 40, locked 20: available 40
    assert_eq!(
        stake(&c, &a, &p, &locked, 100, 10, 41),
        Err(ContractError::InsufficientAvailableBalance)
    );
    let (_, p2) = stake(&c, &a, &p, &locked, 100, 10, 40).unwrap();
    assert_eq!(p2.amount, 80);
}

#[test]
fn unstake_moves_stake_into_lock_queue() {
    let c = cfg(1, 5);
    let a = acc(0, 10, 40);
    let p = pos(40, 0, 0);
    let locked: Vec<LockedEntry> = Vec::new();
    let (a2, p2, q2) = unstake(&c, &a, &p, &locked, 10, 15).unwrap();
    assert_eq!(p2.amount, 25);
    assert_eq!(a2.total_staked, 25);
    assert_eq!(q2.len(), 1);
    assert_eq!(q2[0].amount, 15);
    assert_eq!(q2[0].maturity_height, 15);
}

#[test]
fn unstake_more_than_staked_is_rejected() {
    let c = cfg(1, 5);
    let a = acc(0, 10, 40);
    let p = pos(40, 0, 0);
    let locked: Vec<LockedEntry> = Vec::new();
    assert_eq!(unstake(&c, &a, &p, &locked, 10, 41), Err(ContractError::InsufficientStaked));
    assert_eq!(unstake(&c, &a, &p, &locked, 10, 0), Err(ContractError::InvalidAmount));
}

#[test]
fn stake_then_unstake_conserves() {
    let c = cfg(1, 5);
    let a = acc(0, 0, 0);
    let p = pos(0, 0, 0);
    let locked: Vec<LockedEntry> = Vec::new();
    let (a1, p1) = stake(&c, &a, &p, &locked, 100, 10, 30).unwrap();
    let (a2, p2, q2) = unstake(&c, &a1, &p1, &locked, 10, 30).unwrap();
    assert_eq!(p2.amount, 0);
    assert_eq!(a2.total_staked, 0);
    assert_eq!(q2.len(), 1);
    assert_eq!(q2[0].amount, 30);
    assert_eq!(q2[0].maturity_height, 15);
}

#[test]
fn unstaked_position_keeps_pending_reward_claimable() {
    let c = cfg(2, 5);
    let a = acc(0, 0, 10);
    let p = pos(10, 0, 0);
    // 3 blocks of accrual, then a full unstake at height 3
    let locked: Vec<LockedEntry> = Vec::new();
    let (a1, p1, _) = unstake(&c, &a, &p, &locked, 3, 10).unwrap();
    assert_eq!(p1.amount, 0);
    assert_eq!(p1.pending_reward, 60);
    let (_, p2, total, credited) = claim_rewards(&c, &a1, &p1, 1000, 3, 0).unwrap();
    assert_eq!(credited, 60);
    assert_eq!(total, 1060);
    assert_eq!(p2.pending_reward, 0);
}

#[test]
fn partial_claim_leaves_remainder_pending() {
    let c = cfg(1, 5);
    let a = acc(0, 7, 0);
    let p = pos(0, 0, 100);
    let (_, p2, total, credited) = claim_rewards(&c, &a, &p, 500, 7, 30).unwrap();
    assert_eq!(p2.pending_reward, 70);
    assert_eq!(credited, 30);
    assert_eq!(total, 530);
}

#[test]
fn claim_zero_claims_all() {
    let c = cfg(1, 5);
    let a = acc(0, 7, 0);
    let p = pos(0, 0, 100);
    let (_, p2, total, credited) = claim_rewards(&c, &a, &p, 500, 7, 0).unwrap();
    assert_eq!(p2.pending_reward, 0);
    assert_eq!(credited, 100);
    assert_eq!(total, 600);
}

#[test]
fn claim_beyond_pending_is_rejected() {
    let c = cfg(1, 5);
    let a = acc(0, 7, 0);
    let p = pos(0, 0, 100);
    assert_eq!(claim_rewards(&c, &a, &p, 500, 7, 101), Err(ContractError::InsufficientReward));
}

#[test]
fn unlock_releases_only_matured_entries() {
    let locked = vec![
        LockedEntry { amount: 10, maturity_height: 15 },
        LockedEntry { amount: 20, maturity_height: 18 },
    ];
    // at height 14 nothing has matured: a no-op, not an error
    let (q, released) = unlock(&locked, 14);
    assert_eq!(released, 0);
    assert_eq!(q.len(), 2);
    // at height 15 the first entry is released
    let (q, released) = unlock(&locked, 15);
    assert_eq!(released, 10);
    assert_eq!(q.len(), 1);
    assert_eq!(q[0].amount, 20);
    // at height 18 both go
    let (q, released) = unlock(&locked, 18);
    assert_eq!(released, 30);
    assert!(q.is_empty());
}

#[test]
fn unlock_widens_available_balance() {
    // unstake at height 10 with delay 5 matures at 15
    let c = cfg(0, 5);
    let a = acc(0, 10, 40);
    let p = pos(40, 0, 0);
    let empty: Vec<LockedEntry> = Vec::new();
    let (_, p1, q1) = unstake(&c, &a, &p, &empty, 10, 15).unwrap();
    assert_eq!(q1[0].maturity_height, 15);
    let before = query_available_balance(100, &p1, &q1);
    assert_eq!(before, 100 - 25 - 15);
    let (q2, released) = unlock(&q1, 15);
    assert_eq!(released, 15);
    let after = query_available_balance(100, &p1, &q2);
    assert_eq!(after, before + 15);
}

#[test]
fn guard_rejects_debit_beyond_available() {
    // total 100, staked 40, locked 20: available is 40
    let p = pos(40, 0, 0);
    let locked = vec![LockedEntry { amount: 20, maturity_height: 15 }];
    assert_eq!(
        check_available_balance(100, &p, &locked, 45),
        Err(ContractError::InsufficientAvailableBalance)
    );
    assert_eq!(check_available_balance(100, &p, &locked, 40), Ok(()));
}

#[test]
fn matured_but_not_unlocked_still_counts_as_locked() {
    let p = pos(0, 0, 0);
    let locked = vec![LockedEntry { amount: 20, maturity_height: 5 }];
    // height is far past maturity, yet the entry still encumbers
    assert_eq!(query_available_balance(100, &p, &locked), 80);
    assert_eq!(
        check_available_balance(100, &p, &locked, 81),
        Err(ContractError::InsufficientAvailableBalance)
    );
}

#[test]
fn queries_report_staked_reward_and_available() {
    let c = cfg(2, 5);
    let a = acc(0, 0, 10);
    let p = pos(10, 0, 5);
    let locked = vec![LockedEntry { amount: 3, maturity_height: 9 }];
    assert_eq!(query_staked_balance(&p), 10);
    // pending 5 plus 3 blocks * rate 2 * 10 staked units
    assert_eq!(query_reward(&c, &a, &p, 3), Ok(65));
    assert_eq!(query_available_balance(100, &p, &locked), 87);
}

#[test]
fn reward_query_does_not_mutate() {
    let c = cfg(2, 5);
    let a = acc(0, 0, 10);
    let p = pos(10, 0, 0);
    assert_eq!(query_reward(&c, &a, &p, 3), Ok(60));
    // the same query again sees unchanged inputs and answers the same
    assert_eq!(query_reward(&c, &a, &p, 3), Ok(60));
}

#[test]
fn execute_routes_staking_messages() {
    let c = cfg(1, 5);
    let a = acc(0, 0, 0);
    let p = pos(0, 0, 0);
    let locked: Vec<LockedEntry> = Vec::new();
    let out = execute(&c, &a, &p, &locked, 100, 10, ExecuteMsg::Stake { amount: 40 }).unwrap();
    match out {
        ExecuteOutcome::Staking { accumulator, position, locked, total_balance, credited, released } => {
            assert_eq!(position.amount, 40);
            assert_eq!(accumulator.total_staked, 40);
            assert!(locked.is_empty());
            assert_eq!(total_balance, 100);
            assert_eq!(credited, 0);
            assert_eq!(released, 0);
        }
        _ => panic!("expected a staking outcome"),
    }
}

#[test]
fn execute_unlock_reports_released_amount() {
    let c = cfg(1, 5);
    let a = acc(0, 20, 0);
    let p = pos(0, 0, 0);
    let locked = vec![
        LockedEntry { amount: 10, maturity_height: 15 },
        LockedEntry { amount: 20, maturity_height: 24 },
    ];
    let out = execute(&c, &a, &p, &locked, 100, 20, ExecuteMsg::Unlock {}).unwrap();
    match out {
        ExecuteOutcome::Staking { locked, released, credited, .. } => {
            assert_eq!(released, 10);
            assert_eq!(credited, 0);
            assert_eq!(locked.len(), 1);
        }
        _ => panic!("expected a staking outcome"),
    }
}

#[test]
fn execute_guards_balance_reducing_messages() {
    let c = cfg(1, 5);
    let a = acc(0, 0, 40);
    let p = pos(40, 0, 0);
    let locked = vec![LockedEntry { amount: 20, maturity_height: 15 }];
    let ok = execute(&c, &a, &p, &locked, 100, 10, ExecuteMsg::Transfer { amount: 40 }).unwrap();
    assert!(matches!(ok, ExecuteOutcome::Guarded));
    let err = execute(&c, &a, &p, &locked, 100, 10, ExecuteMsg::Transfer { amount: 45 });
    assert_eq!(err.unwrap_err(), ContractError::InsufficientAvailableBalance);
    let err = execute(&c, &a, &p, &locked, 100, 10, ExecuteMsg::BurnFrom { amount: 41 });
    assert_eq!(err.unwrap_err(), ContractError::InsufficientAvailableBalance);
    let ok = execute(&c, &a, &p, &locked, 100, 10, ExecuteMsg::Send { amount: 1 }).unwrap();
    assert!(matches!(ok, ExecuteOutcome::Guarded));
}

#[test]
fn execute_forwards_unguarded_messages() {
    let c = cfg(1, 5);
    let a = acc(0, 0, 0);
    let p = pos(0, 0, 0);
    let locked: Vec<LockedEntry> = Vec::new();
    let out = execute(&c, &a, &p, &locked, 0, 10, ExecuteMsg::IncreaseAllowance {}).unwrap();
    assert!(matches!(out, ExecuteOutcome::Forward));
    let out = execute(&c, &a, &p, &locked, 0, 10, ExecuteMsg::UploadLogo {}).unwrap();
    assert!(matches!(out, ExecuteOutcome::Forward));
}

#[test]
fn query_routes_staking_and_forwards_the_rest() {
    let c = cfg(2, 5);
    let a = acc(0, 0, 10);
    let p = pos(10, 0, 0);
    let locked: Vec<LockedEntry> = Vec::new();
    match query(&c, &a, &p, &locked, 100, 3, QueryMsg::StakedBalance {}).unwrap() {
        QueryAnswer::StakedBalance(resp) => assert_eq!(resp.balance, 10),
        _ => panic!("expected a staked-balance answer"),
    }
    match query(&c, &a, &p, &locked, 100, 3, QueryMsg::Reward {}).unwrap() {
        QueryAnswer::Reward(resp) => assert_eq!(resp.reward, 60),
        _ => panic!("expected a reward answer"),
    }
    match query(&c, &a, &p, &locked, 100, 3, QueryMsg::AvailableBalance {}).unwrap() {
        QueryAnswer::AvailableBalance(v) => assert_eq!(v, 90),
        _ => panic!("expected an available-balance answer"),
    }
    assert!(matches!(
        query(&c, &a, &p, &locked, 100, 3, QueryMsg::Balance {}).unwrap(),
        QueryAnswer::Forward
    ));
    assert!(matches!(
        query(&c, &a, &p, &locked, 100, 3, QueryMsg::TokenInfo {}).unwrap(),
        QueryAnswer::Forward
    ));
}

#[test]
fn total_balance_always_covers_staked_plus_locked() {
    // drive one account through a whole life cycle and check the
    // encumbrance invariant after every step
    let c = cfg(2, 5);
    let mut a = acc(0, 0, 0);
    let mut p = pos(0, 0, 0);
    let mut locked: Vec<LockedEntry> = Vec::new();
    let mut total: u128 = 100;
    let covers = |total: u128, p: &StakedPosition, locked: &Vec<LockedEntry>| {
        let locked_sum: u128 = locked.iter().map(|e| e.amount).sum();
        p.amount + locked_sum <= total
    };
    let (a1, p1) = stake(&c, &a, &p, &locked, total, 10, 60).unwrap();
    a = a1;
    p = p1;
    assert!(covers(total, &p, &locked));
    let (a2, p2, q2) = unstake(&c, &a, &p, &locked, 12, 25).unwrap();
    a = a2;
    p = p2;
    locked = q2;
    assert!(covers(total, &p, &locked));
    let (a3, p3, t3, _) = claim_rewards(&c, &a, &p, total, 14, 0).unwrap();
    a = a3;
    p = p3;
    total = t3;
    assert!(covers(total, &p, &locked));
    let (q4, _) = unlock(&locked, 17);
    locked = q4;
    assert!(covers(total, &p, &locked));
    assert_eq!(a.last_update_height, 14);
}

#[test]
fn empty_position_is_all_zero() {
    let p = StakedPosition::empty();
    assert_eq!(p.amount, 0);
    assert_eq!(p.reward_debt, 0);
    assert_eq!(p.pending_reward, 0);
    assert_eq!(query_staked_balance(&p), 0);
}

#[test]
fn error_labels_are_stable() {
    assert_eq!(ContractError::InvalidAmount.label(), "invalid amount");
    assert_eq!(ContractError::ArithmeticOverflow.label(), "arithmetic overflow");
    assert_eq!(ContractError::Uninitialized.label(), "uninitialized");
}
