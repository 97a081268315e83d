//! The parts of balance, payment and price lookups that need no outside
//! answer.

use vstd::prelude::*;
use crate::math::lemma_scale_floor_bounds;
use crate::math::scale_floor;
use crate::math::Decimal;
use crate::staking::asset::AssetInfo;
use crate::staking::asset::AssetInfoView;
use crate::staking::asset::Denom;
use crate::staking::error::ContractError;
use crate::staking::msg::TransferMsg;
use crate::staking::msg::TransferMsgView;

verus! {

/// Whether the value of `offer_amount` of one asset in another has to be
/// asked of the router: not for nothing, and not for the same asset.
pub open spec fn spec_needs_router(
    offer_amount: u128,
    offer_asset_info: AssetInfoView,
    ask_asset_info: AssetInfoView,
) -> bool {
    offer_amount != 0 && offer_asset_info != ask_asset_info
}

/// The value of `offer_amount` of one asset in another, where `quoted` is
/// what the router answers.
pub open spec fn spec_simulate_swap(
    offer_amount: u128,
    offer_asset_info: AssetInfoView,
    ask_asset_info: AssetInfoView,
    quoted: u128,
) -> u128 {
    if offer_amount == 0 {
        0
    } else if offer_asset_info == ask_asset_info {
        offer_amount
    } else {
        quoted
    }
}

/// What is paid out of `amount` of `asset` when `tax` is due on native
/// coins; `None` when the tax exceeds the amount.
pub open spec fn spec_after_tax(asset: AssetInfoView, amount: u128, tax: u128) -> Option<u128> {
    if !asset.is_native() {
        Some(amount)
    } else if tax > amount {
        None
    } else {
        Some((amount - tax) as u128)
    }
}

/// The tax due on a payment of `amount` in a native coin: `rate` on the
/// amount, rounded down, and no more than `cap`.
pub open spec fn spec_tax_due(amount: u128, rate: Decimal, cap: u128) -> u128 {
    if scale_floor(amount as int, rate.atomics as int) < cap {
        scale_floor(amount as int, rate.atomics as int) as u128
    } else {
        cap
    }
}

/// The tax due on a payment of `amount` in a native coin, at the rate
/// and up to the cap that the treasury gives for the coin.
pub fn tax_due(amount: u128, rate: Decimal, cap: u128) -> (r: u128)
    ensures
        r == spec_tax_due(amount, rate, cap),
        r <= cap,
{
    proof {
        lemma_scale_floor_bounds(amount as int, rate.atomics as int);
    }
    match rate.checked_mul_floor(amount) {
        Some(tax) => if tax < cap {
            tax
        } else {
            cap
        },
        None => cap,
    }
}

/// The instruction that pays `amount` of `denom` to `receiver`.
pub fn transfer_token_message(denom: Denom, amount: u128, receiver: String) -> (r: TransferMsg)
    ensures
        r@ == (TransferMsgView { denom: denom@, amount, receiver: receiver@ }),
{
    TransferMsg { denom, amount, receiver }
}

/// Whether the router has to be asked for this conversion.
pub fn needs_router(offer_amount: u128, offer_asset_info: &AssetInfo, ask_asset_info: &AssetInfo) -> (r: bool)
    ensures
        r == spec_needs_router(offer_amount, offer_asset_info@, ask_asset_info@),
{
    offer_amount != 0 && !offer_asset_info.equal(ask_asset_info)
}

/// The value of `offer_amount` of the offered asset in the asked one:
/// nothing is worth nothing, an asset is worth itself, and otherwise the
/// router's quote stands.
pub fn get_simulate_swap_operations(
    offer_amount: u128,
    offer_asset_info: &AssetInfo,
    ask_asset_info: &AssetInfo,
    quoted: u128,
) -> (r: u128)
    ensures
        r == spec_simulate_swap(offer_amount, offer_asset_info@, ask_asset_info@, quoted),
{
    if offer_amount == 0 {
        return 0;
    }
    if offer_asset_info.equal(ask_asset_info) {
        return offer_amount;
    }
    quoted
}

/// Takes the tax off a payment in native coins.
pub fn after_tax(asset: &AssetInfo, amount: u128, tax: u128) -> (r: Result<u128, ContractError>)
    ensures
        match r {
            Ok(net) => spec_after_tax(asset@, amount, tax) == Some(net),
            Err(e) => e == ContractError::OverflowError && spec_after_tax(asset@, amount, tax).is_none(),
        },
{
    if !asset.is_native_token() {
        return Ok(amount);
    }
    match amount.checked_sub(tax) {
        Some(net) => Ok(net),
        None => Err(ContractError::OverflowError),
    }
}

} // verus!
