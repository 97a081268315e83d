//! How the pool names an asset: a token contract or a native coin.

use vstd::prelude::*;
use crate::staking::error::ContractError;

verus! {

#[derive(Debug, PartialEq, Eq)]
pub enum AssetInfo {
    Token { contract_addr: String },
    NativeToken { denom: String },
}

pub enum AssetInfoView {
    Token { contract_addr: Seq<char> },
    NativeToken { denom: Seq<char> },
}

impl View for AssetInfo {
    type V = AssetInfoView;

    open spec fn view(&self) -> AssetInfoView {
        match self {
            AssetInfo::Token { contract_addr } => AssetInfoView::Token { contract_addr: contract_addr@ },
            AssetInfo::NativeToken { denom } => AssetInfoView::NativeToken { denom: denom@ },
        }
    }
}

/// The asset as a payment names it.
#[derive(Debug, PartialEq, Eq)]
pub enum Denom {
    Native(String),
    Cw20(String),
}

pub enum DenomView {
    Native(Seq<char>),
    Cw20(Seq<char>),
}

impl View for Denom {
    type V = DenomView;

    open spec fn view(&self) -> DenomView {
        match self {
            Denom::Native(denom) => DenomView::Native(denom@),
            Denom::Cw20(address) => DenomView::Cw20(address@),
        }
    }
}

impl AssetInfoView {
    /// Whether the asset is a native coin.
    pub open spec fn is_native(self) -> bool {
        self is NativeToken
    }

    /// The asset as a payment names it.
    pub open spec fn to_denom(self) -> DenomView {
        match self {
            AssetInfoView::Token { contract_addr } => DenomView::Cw20(contract_addr),
            AssetInfoView::NativeToken { denom } => DenomView::Native(denom),
        }
    }
}

impl Clone for AssetInfo {
    fn clone(&self) -> (r: Self)
        ensures
            r@ == self@,
    {
        match self {
            AssetInfo::Token { contract_addr } => AssetInfo::Token { contract_addr: contract_addr.clone() },
            AssetInfo::NativeToken { denom } => AssetInfo::NativeToken { denom: denom.clone() },
        }
    }
}

impl AssetInfo {
    /// Whether both name the same asset.
    pub fn equal(&self, asset: &AssetInfo) -> (r: bool)
        ensures
            r == (self@ == asset@),
    {
        match self {
            AssetInfo::Token { contract_addr } => match asset {
                AssetInfo::Token { contract_addr: other } => *contract_addr == *other,
                AssetInfo::NativeToken { denom: _ } => false,
            },
            AssetInfo::NativeToken { denom } => match asset {
                AssetInfo::Token { contract_addr: _ } => false,
                AssetInfo::NativeToken { denom: other } => *denom == *other,
            },
        }
    }

    /// Whether the asset is a native coin.
    pub fn is_native_token(&self) -> (r: bool)
        ensures
            r == self@.is_native(),
    {
        match self {
            AssetInfo::Token { contract_addr: _ } => false,
            AssetInfo::NativeToken { denom: _ } => true,
        }
    }

    /// The asset as a payment names it.
    pub fn to_denom(&self) -> (r: Denom)
        ensures
            r@ == self@.to_denom(),
    {
        match self {
            AssetInfo::Token { contract_addr } => Denom::Cw20(contract_addr.clone()),
            AssetInfo::NativeToken { denom } => Denom::Native(denom.clone()),
        }
    }

    /// The address of the token contract; a native coin has none.
    pub fn to_addr(&self) -> (r: Result<String, ContractError>)
        ensures
            match r {
                Ok(address) => self@ == (AssetInfoView::Token { contract_addr: address@ }),
                Err(e) => e == ContractError::UnacceptableToken && self@.is_native(),
            },
    {
        match self {
            AssetInfo::Token { contract_addr } => Ok(contract_addr.clone()),
            AssetInfo::NativeToken { denom: _ } => Err(ContractError::UnacceptableToken),
        }
    }
}

} // verus!
