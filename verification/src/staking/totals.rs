//! The running totals are sums over the positions.
//!
//! Each position keeps what it has put on the ratio-weighted and on the
//! week-weighted total. Over any sequence of requests the three totals are
//! what the positions hold, added up, whatever becomes of the
//! configuration in between.

use vstd::prelude::*;
use crate::math::lemma_share_within_whole;
use crate::staking::contract::spec_execute;
use crate::staking::contract::spec_execute_stake;
use crate::staking::contract::spec_execute_unstake;
use crate::staking::contract::spec_instantiate;
use crate::staking::contract::spec_real_referral;
use crate::staking::contract::spec_update_reward;
use crate::staking::contract::Oracle;
use crate::staking::msg::spec_default_staker;
use crate::staking::msg::ExecuteMsg;
use crate::staking::msg::InstantiateMsg;
use crate::staking::msg::ReceiveMsg;
use crate::staking::msg::StakerInfoView;
use crate::staking::state::staker_or_default;
use crate::staking::state::StoreView;

verus! {

/// One request to the pool, with the time, the caller and what the
/// outside world answered.
pub struct Call {
    pub now: u64,
    pub sender: Seq<char>,
    pub msg: ExecuteMsg,
    pub oracle: Oracle,
}

/// The store after `call`; a call that fails leaves it as it was.
pub open spec fn store_after(pre: StoreView, call: Call) -> StoreView {
    match spec_execute(pre, call.now, call.sender, call.msg, call.oracle) {
        Ok((store, _)) => store,
        Err(_) => pre,
    }
}

/// The store after `calls`, one after the other.
pub open spec fn run_store(start: StoreView, calls: Seq<Call>) -> StoreView
    decreases calls.len(),
{
    if calls.len() == 0 {
        start
    } else {
        store_after(run_store(start, calls.drop_last()), calls.last())
    }
}

/// What is summed over the positions.
pub enum Measure {
    /// The stake.
    Stake,
    /// What the position has put on the ratio-weighted total.
    RatioWeight,
    /// What the position has put on the week-weighted total.
    WeekWeight,
}

/// The measure of one position.
pub open spec fn measure(m: Measure, staker: StakerInfoView) -> int {
    match m {
        Measure::Stake => staker.stake_amount as int,
        Measure::RatioWeight => staker.ratio_weight as int,
        Measure::WeekWeight => staker.week_weight as int,
    }
}

/// The measure summed over the positions of `addrs`.
pub open spec fn total(m: Measure, addrs: Seq<Seq<char>>, stakers: Map<Seq<char>, StakerInfoView>) -> int
    decreases addrs.len(),
{
    if addrs.len() == 0 {
        0
    } else {
        total(m, addrs.drop_last(), stakers) + measure(m, staker_or_default(stakers, addrs.last()))
    }
}

/// Whether `addrs` holds every address that has a record.
pub open spec fn covers(addrs: Seq<Seq<char>>, stakers: Map<Seq<char>, StakerInfoView>) -> bool {
    forall|k: Seq<char>| #[trigger] stakers.contains_key(k) ==> addrs.contains(k)
}

/// Whether the three totals are what the positions of `addrs` hold,
/// added up.
pub open spec fn totals_add_up(addrs: Seq<Seq<char>>, store: StoreView) -> bool {
    &&& total(Measure::Stake, addrs, store.stakers) == store.detail.total_staked
    &&& total(Measure::RatioWeight, addrs, store.stakers) == store.detail.total_acc
    &&& total(Measure::WeekWeight, addrs, store.stakers) == store.detail.total_wcc
}

proof fn lemma_total_insert_absent(
    m: Measure,
    addrs: Seq<Seq<char>>,
    stakers: Map<Seq<char>, StakerInfoView>,
    key: Seq<char>,
    value: StakerInfoView,
)
    requires
        !addrs.contains(key),
    ensures
        total(m, addrs, stakers.insert(key, value)) == total(m, addrs, stakers),
    decreases addrs.len(),
{
    if addrs.len() > 0 {
        let front = addrs.drop_last();
        assert forall|a: Seq<char>| front.contains(a) implies addrs.contains(a) by {
            let i = choose|i: int| 0 <= i < front.len() && front[i] == a;
            assert(addrs[i] == a);
        }
        assert(addrs[addrs.len() - 1] == addrs.last());
        assert(addrs.contains(addrs.last()));
        lemma_total_insert_absent(m, front, stakers, key, value);
    }
}

proof fn lemma_total_after_insert(
    m: Measure,
    addrs: Seq<Seq<char>>,
    stakers: Map<Seq<char>, StakerInfoView>,
    key: Seq<char>,
    value: StakerInfoView,
)
    requires
        addrs.no_duplicates(),
        addrs.contains(key),
    ensures
        total(m, addrs, stakers.insert(key, value)) == total(m, addrs, stakers) - measure(
            m,
            staker_or_default(stakers, key),
        ) + measure(m, value),
    decreases addrs.len(),
{
    let front = addrs.drop_last();
    let last = addrs.last();
    assert(front.no_duplicates());
    if last == key {
        assert(!front.contains(key)) by {
            if front.contains(key) {
                let i = choose|i: int| 0 <= i < front.len() && front[i] == key;
                assert(addrs[i] == addrs[addrs.len() - 1]);
            }
        }
        lemma_total_insert_absent(m, front, stakers, key, value);
    } else {
        assert(front.contains(key)) by {
            let i = choose|i: int| 0 <= i < addrs.len() && addrs[i] == key;
            assert(front[i] == key);
        }
        lemma_total_after_insert(m, front, stakers, key, value);
    }
}

proof fn lemma_total_without_records(m: Measure, addrs: Seq<Seq<char>>)
    ensures
        total(m, addrs, Map::<Seq<char>, StakerInfoView>::empty()) == 0,
    decreases addrs.len(),
{
    if addrs.len() > 0 {
        lemma_total_without_records(m, addrs.drop_last());
        assert(staker_or_default(Map::<Seq<char>, StakerInfoView>::empty(), addrs.last())
            == spec_default_staker());
    }
}

/// The totals after a record was replaced: each moves by what the new
/// record holds more than the old.
proof fn lemma_totals_after_insert(
    addrs: Seq<Seq<char>>,
    stakers: Map<Seq<char>, StakerInfoView>,
    key: Seq<char>,
    value: StakerInfoView,
)
    requires
        addrs.no_duplicates(),
        covers(addrs, stakers.insert(key, value)),
    ensures
        covers(addrs, stakers),
        total(Measure::Stake, addrs, stakers.insert(key, value)) == total(Measure::Stake, addrs, stakers)
            - staker_or_default(stakers, key).stake_amount + value.stake_amount,
        total(Measure::RatioWeight, addrs, stakers.insert(key, value)) == total(
            Measure::RatioWeight,
            addrs,
            stakers,
        ) - staker_or_default(stakers, key).ratio_weight + value.ratio_weight,
        total(Measure::WeekWeight, addrs, stakers.insert(key, value)) == total(
            Measure::WeekWeight,
            addrs,
            stakers,
        ) - staker_or_default(stakers, key).week_weight + value.week_weight,
{
    assert(stakers.insert(key, value).contains_key(key));
    assert forall|k: Seq<char>| #[trigger] stakers.contains_key(k) implies addrs.contains(k) by {
        assert(stakers.insert(key, value).contains_key(k));
    }
    lemma_total_after_insert(Measure::Stake, addrs, stakers, key, value);
    lemma_total_after_insert(Measure::RatioWeight, addrs, stakers, key, value);
    lemma_total_after_insert(Measure::WeekWeight, addrs, stakers, key, value);
}

proof fn lemma_stake_keeps_totals(
    addrs: Seq<Seq<char>>,
    pre: StoreView,
    now: u64,
    sender: Seq<char>,
    lock_week: u64,
    amount: u128,
    referral: Seq<char>,
    oracle: Oracle,
)
    requires
        addrs.no_duplicates(),
        spec_execute_stake(pre, now, sender, lock_week, amount, referral, oracle).is_ok(),
        covers(addrs, spec_execute_stake(pre, now, sender, lock_week, amount, referral, oracle).unwrap().0.stakers),
        totals_add_up(addrs, pre),
    ensures
        totals_add_up(addrs, spec_execute_stake(pre, now, sender, lock_week, amount, referral, oracle).unwrap().0),
{
    let post = spec_execute_stake(pre, now, sender, lock_week, amount, referral, oracle).unwrap().0;
    let staker = staker_or_default(pre.stakers, sender);
    let credited = spec_real_referral(staker, referral);
    let staked = post.stakers[sender];
    // where the staker is their own referrer, the staker's record is the last written
    let credit = if credited == sender {
        staker
    } else {
        post.stakers[credited]
    };
    let first = pre.stakers.insert(credited, credit);
    assert(post.stakers =~= first.insert(sender, staked));
    lemma_totals_after_insert(addrs, first, sender, staked);
    lemma_totals_after_insert(addrs, pre.stakers, credited, credit);
}

proof fn lemma_unstake_keeps_totals(
    addrs: Seq<Seq<char>>,
    pre: StoreView,
    now: u64,
    sender: Seq<char>,
    amount: u128,
    oracle: Oracle,
)
    requires
        addrs.no_duplicates(),
        spec_execute_unstake(pre, now, sender, amount, oracle).is_ok(),
        covers(addrs, spec_execute_unstake(pre, now, sender, amount, oracle).unwrap().0.stakers),
        totals_add_up(addrs, pre),
    ensures
        totals_add_up(addrs, spec_execute_unstake(pre, now, sender, amount, oracle).unwrap().0),
{
    let post = spec_execute_unstake(pre, now, sender, amount, oracle).unwrap().0;
    let mid = spec_update_reward(pre, now, sender, oracle.staked_value).unwrap().0;
    let staker = staker_or_default(mid.stakers, sender);
    let left = post.stakers[sender];
    if staker.stake_amount > 0 {
        lemma_share_within_whole(staker.ratio_weight as int, amount as int, staker.stake_amount as int);
        lemma_share_within_whole(staker.week_weight as int, amount as int, staker.stake_amount as int);
    }
    assert(post.stakers =~= pre.stakers.insert(sender, left));
    lemma_totals_after_insert(addrs, pre.stakers, sender, left);
}

/// Every request leaves the totals the sums over the positions.
pub proof fn law_call_keeps_totals(addrs: Seq<Seq<char>>, pre: StoreView, call: Call)
    requires
        addrs.no_duplicates(),
        covers(addrs, store_after(pre, call).stakers),
        totals_add_up(addrs, pre),
    ensures
        totals_add_up(addrs, store_after(pre, call)),
        covers(addrs, pre.stakers),
{
    let post = store_after(pre, call);
    assert forall|k: Seq<char>| #[trigger] pre.stakers.contains_key(k) implies addrs.contains(k) by {
        assert(post.stakers.contains_key(k));
    }
    if spec_execute(pre, call.now, call.sender, call.msg, call.oracle).is_ok() {
        match call.msg {
            ExecuteMsg::Stake { lock_week, amount, referral_addr } => {
                lemma_stake_keeps_totals(
                    addrs,
                    pre,
                    call.now,
                    call.sender,
                    lock_week,
                    amount,
                    referral_addr@,
                    call.oracle,
                );
            },
            ExecuteMsg::Receive(wrapper) => {
                match wrapper.msg {
                    Some(ReceiveMsg::Stake { lock_week, referral_addr }) => {
                        lemma_stake_keeps_totals(
                            addrs,
                            pre,
                            call.now,
                            wrapper.sender@,
                            lock_week,
                            wrapper.amount,
                            referral_addr@,
                            call.oracle,
                        );
                    },
                    None => {},
                }
            },
            ExecuteMsg::Unstake { amount } => {
                lemma_unstake_keeps_totals(addrs, pre, call.now, call.sender, amount, call.oracle);
            },
            ExecuteMsg::ClaimReward {  } => {
                let left = post.stakers[call.sender];
                assert(post.stakers =~= pre.stakers.insert(call.sender, left));
                lemma_totals_after_insert(addrs, pre.stakers, call.sender, left);
            },
            ExecuteMsg::ClaimReferralReward {  } => {
                let left = post.stakers[call.sender];
                assert(post.stakers =~= pre.stakers.insert(call.sender, left));
                lemma_totals_after_insert(addrs, pre.stakers, call.sender, left);
            },
            ExecuteMsg::UpdateConfig { .. } => {},
            ExecuteMsg::Withdraw {  } => {},
        }
    }
}

/// The totals are sums over the positions. Start from a store of which
/// that holds, as it does of a new pool, and make any requests. Then over
/// every list of distinct addresses that holds each address with a record,
/// the total stake, the ratio-weighted total and the week-weighted total
/// are what the positions hold, added up.
pub proof fn law_totals_are_sums(addrs: Seq<Seq<char>>, start: StoreView, calls: Seq<Call>)
    requires
        addrs.no_duplicates(),
        covers(addrs, run_store(start, calls).stakers),
        totals_add_up(addrs, start),
    ensures
        totals_add_up(addrs, run_store(start, calls)),
        covers(addrs, start.stakers),
    decreases calls.len(),
{
    if calls.len() > 0 {
        let before = run_store(start, calls.drop_last());
        assert forall|k: Seq<char>| #[trigger] before.stakers.contains_key(k) implies addrs.contains(k) by {
            lemma_records_stay(before, calls.last(), k);
        }
        law_totals_are_sums(addrs, start, calls.drop_last());
        law_call_keeps_totals(addrs, before, calls.last());
    }
}

/// An address with a record before a request has one after it.
proof fn lemma_records_stay(pre: StoreView, call: Call, key: Seq<char>)
    requires
        pre.stakers.contains_key(key),
    ensures
        store_after(pre, call).stakers.contains_key(key),
{
}

/// Of a new pool the totals are sums over the positions: there are none
/// of either.
pub proof fn law_new_pool_totals_add_up(sender: Seq<char>, msg: InstantiateMsg, addrs: Seq<Seq<char>>)
    requires
        spec_instantiate(sender, msg).is_ok(),
    ensures
        totals_add_up(addrs, spec_instantiate(sender, msg).unwrap()),
{
    lemma_total_without_records(Measure::Stake, addrs);
    lemma_total_without_records(Measure::RatioWeight, addrs);
    lemma_total_without_records(Measure::WeekWeight, addrs);
}

} // verus!
