//! Gas price estimation for Ethereum-style transactions.
//!
//! The crate models an estimated gas price (legacy single-price or
//! EIP-1559 base-fee/priority-fee), the pure transformations a caller
//! applies to it (effective price, cap, scale-up, round-up, clamp), and
//! the decision logic of a priority-ordered walk over several price
//! oracles with an overall time budget.
//!
//! Fees are carried as fixed-point integers: a fee field counts
//! sub-units, with [`gas_price::FEE_SCALE`] sub-units to one whole unit
//! of the chain's smallest denomination.

pub mod gas_price;
pub mod priority;

pub use gas_price::EstimatedGasPrice;
pub use priority::PriorityWalk;

use vstd::prelude::*;
use crate::gas_price::{
    effective_price, mul_by_factor, price_scaled, scaled, DynFeeModel, PriceModel,
};

verus! {

/// Gas amount of a plain value transfer, the default when a caller
/// asks for an estimate without naming one.
pub const DEFAULT_GAS_LIMIT: u64 = 21_000;

/// Generous default time budget for one estimation, in milliseconds.
pub const DEFAULT_TIME_LIMIT_MILLIS: u64 = 30_000;

/// EIP-1559 fee components of a [`GasPrice`].
#[derive(Debug, Default, Clone, Copy, PartialEq)]
pub struct GasPrice1559 {
    /// Estimated base fee for the pending block, network-determined.
    pub base_fee_per_gas: u64,
    /// Maximum fee per unit gas the sender is willing to pay.
    pub max_fee_per_gas: u64,
    /// Priority fee offered to the block producer.
    pub max_priority_fee_per_gas: u64,
}

impl View for GasPrice1559 {
    type V = DynFeeModel;

    open spec fn view(&self) -> DynFeeModel {
        DynFeeModel {
            base_fee_per_gas: self.base_fee_per_gas as int,
            max_fee_per_gas: self.max_fee_per_gas as int,
            max_priority_fee_per_gas: self.max_priority_fee_per_gas as int,
        }
    }
}

/// An estimated price as one estimation call returns it: the legacy
/// single price, and the EIP-1559 components when the source supports
/// them.
#[derive(Debug, Default, Clone, Copy, PartialEq)]
pub struct GasPrice {
    /// Estimated gas price for legacy transactions.
    pub legacy: u64,
    /// Estimated price for EIP-1559 transactions, when the source
    /// supports them.
    pub eip1559: Option<GasPrice1559>,
}

impl View for GasPrice {
    type V = PriceModel;

    open spec fn view(&self) -> PriceModel {
        PriceModel {
            legacy: self.legacy as int,
            eip1559: match self.eip1559 {
                Some(d) => Some(d@),
                None => None,
            },
        }
    }
}

impl GasPrice {
    /// Estimate the price per unit gas under current network
    /// conditions: the fee ceiling, or the priority fee plus the base
    /// fee when that is lower. The mined price can differ, because the
    /// base fee changes between estimation and mining.
    pub fn estimate_gas_price(&self) -> (r: u64)
        ensures
            r as int == effective_price(self@),
    {
        match &self.eip1559 {
            Some(gas_price) => {
                let sum: u128 = gas_price.max_priority_fee_per_gas as u128
                    + gas_price.base_fee_per_gas as u128;
                if gas_price.max_fee_per_gas as u128 <= sum {
                    gas_price.max_fee_per_gas
                } else {
                    sum as u64
                }
            },
            None => self.legacy,
        }
    }

    /// Bump the legacy price and, when present, the fee ceiling and the
    /// priority fee by a fixed-point factor; the network-set base fee
    /// is left unchanged.
    pub fn bump(self, factor: u64) -> (r: Self)
        requires
            scaled(self.legacy as int, factor as int) <= u64::MAX,
            self.eip1559 matches Some(d) ==> {
                &&& scaled(d.max_fee_per_gas as int, factor as int) <= u64::MAX
                &&& scaled(d.max_priority_fee_per_gas as int, factor as int) <= u64::MAX
            },
        ensures
            r@ == price_scaled(self@, factor as int),
    {
        Self {
            legacy: mul_by_factor(self.legacy, factor),
            eip1559: match self.eip1559 {
                Some(x) => Some(
                    GasPrice1559 {
                        base_fee_per_gas: x.base_fee_per_gas,
                        max_fee_per_gas: mul_by_factor(x.max_fee_per_gas, factor),
                        max_priority_fee_per_gas: mul_by_factor(
                            x.max_priority_fee_per_gas,
                            factor,
                        ),
                    },
                ),
                None => None,
            },
        }
    }
}

} // verus!
