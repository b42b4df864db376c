//! Estimated gas prices and their transformation algebra.
//!
//! A fee is a non-negative amount per unit of gas, carried as a
//! fixed-point integer: [`FEE_SCALE`] sub-units make one whole unit of
//! the chain's smallest denomination. All transformations return new
//! values; nothing is mutated in place.

use vstd::prelude::*;
use vstd::arithmetic::div_mod::{
    lemma_div_is_ordered, lemma_div_multiples_vanish, lemma_div_multiples_vanish_fancy,
    lemma_div_pos_is_pos, lemma_fundamental_div_mod, lemma_mod_division_less_than_divisor,
    lemma_mod_multiples_basic,
};
use vstd::arithmetic::mul::{lemma_mul_inequality, lemma_mul_nonnegative, lemma_mul_upper_bound};
use vstd::math::min;

verus! {

/// Number of fixed-point sub-units in one whole fee unit.
///
/// A scale factor handed to `bump` uses the same representation, so a
/// factor equal to `FEE_SCALE` means "multiply by one".
pub const FEE_SCALE: u64 = 1_000_000;

/// Mathematical model of an EIP-1559 fee triple, over unbounded integers.
pub ghost struct DynFeeModel {
    pub base_fee_per_gas: int,
    pub max_fee_per_gas: int,
    pub max_priority_fee_per_gas: int,
}

/// Mathematical model of a full estimated price: the legacy single
/// price plus, when the source supports EIP-1559, the fee triple.
pub ghost struct PriceModel {
    pub legacy: int,
    pub eip1559: Option<DynFeeModel>,
}

/// A fee multiplied by a fixed-point factor, rounded toward zero.
pub open spec fn scaled(v: int, factor: int) -> int {
    v * factor / (FEE_SCALE as int)
}

/// A fee rounded up to the nearest multiple of [`FEE_SCALE`], i.e. to a
/// whole unit of the smallest on-chain denomination.
pub open spec fn rounded_up_to_unit(v: int) -> int {
    ((v + FEE_SCALE - 1) / (FEE_SCALE as int)) * (FEE_SCALE as int)
}

/// The cross-field invariant of an EIP-1559 triple: all fees are
/// non-negative and the priority fee never exceeds the fee ceiling.
pub open spec fn dyn_wf(d: DynFeeModel) -> bool {
    &&& 0 <= d.base_fee_per_gas
    &&& 0 <= d.max_priority_fee_per_gas
    &&& d.max_priority_fee_per_gas <= d.max_fee_per_gas
}

/// Scaling a fee triple: the ceiling and the priority fee are
/// multiplied; the base fee is network-determined and left unchanged.
pub open spec fn dyn_scaled(d: DynFeeModel, factor: int) -> DynFeeModel {
    DynFeeModel {
        max_fee_per_gas: scaled(d.max_fee_per_gas, factor),
        max_priority_fee_per_gas: scaled(d.max_priority_fee_per_gas, factor),
        ..d
    }
}

/// Rounding a fee triple up: only the ceiling is rounded to a whole
/// unit; the base fee and the priority fee are left as they are.
pub open spec fn dyn_rounded_up(d: DynFeeModel) -> DynFeeModel {
    DynFeeModel { max_fee_per_gas: rounded_up_to_unit(d.max_fee_per_gas), ..d }
}

/// Clamping a fee triple against a budget ceiling: the fee ceiling is
/// lowered to at most `cap`, and the priority fee is re-clamped to the
/// new ceiling, restoring the cross-field invariant.
pub open spec fn dyn_capped(d: DynFeeModel, cap: int) -> DynFeeModel {
    DynFeeModel {
        max_fee_per_gas: min(d.max_fee_per_gas, cap),
        max_priority_fee_per_gas: min(d.max_priority_fee_per_gas, min(d.max_fee_per_gas, cap)),
        ..d
    }
}

/// The price actually charged per unit gas if the estimate were exact:
/// the fee ceiling caps the sender's cost, but when the priority fee
/// plus the base fee is lower, that lower amount is what is paid.
pub open spec fn effective_price(p: PriceModel) -> int {
    match p.eip1559 {
        Some(d) => min(d.max_fee_per_gas, d.max_priority_fee_per_gas + d.base_fee_per_gas),
        None => p.legacy,
    }
}

/// The most the sender is willing to pay per unit gas.
pub open spec fn price_cap(p: PriceModel) -> int {
    match p.eip1559 {
        Some(d) => d.max_fee_per_gas,
        None => p.legacy,
    }
}

/// Scaling a full price: the legacy price and, when present, the fee
/// triple's ceiling and priority fee are multiplied by the factor.
pub open spec fn price_scaled(p: PriceModel, factor: int) -> PriceModel {
    PriceModel {
        legacy: scaled(p.legacy, factor),
        eip1559: match p.eip1559 {
            Some(d) => Some(dyn_scaled(d, factor)),
            None => None,
        },
    }
}

/// Rounding a full price up: the legacy price and, when present, the
/// fee triple's ceiling go up to a whole unit.
pub open spec fn price_rounded_up(p: PriceModel) -> PriceModel {
    PriceModel {
        legacy: rounded_up_to_unit(p.legacy),
        eip1559: match p.eip1559 {
            Some(d) => Some(dyn_rounded_up(d)),
            None => None,
        },
    }
}

/// Clamping a full price against a budget ceiling.
pub open spec fn price_capped(p: PriceModel, cap: int) -> PriceModel {
    PriceModel {
        legacy: min(p.legacy, cap),
        eip1559: match p.eip1559 {
            Some(d) => Some(dyn_capped(d, cap)),
            None => None,
        },
    }
}

/// The cross-field invariant lifted to a full price.
pub open spec fn price_wf(p: PriceModel) -> bool {
    &&& 0 <= p.legacy
    &&& (p.eip1559 matches Some(d) ==> dyn_wf(d))
}

/// Gas price structure for EIP-1559 transactions.
/// Contains `base_fee_per_gas` as an essential part of the estimate.
#[derive(Debug, Default, Clone, Copy, PartialEq, PartialOrd)]
pub struct GasPrice1559 {
    /// Estimated base fee for the pending block, network-determined.
    pub base_fee_per_gas: u64,
    /// Maximum fee per unit gas the sender is willing to pay.
    pub max_fee_per_gas: u64,
    /// Priority fee offered to the block producer.
    pub max_priority_fee_per_gas: u64,
}

impl View for GasPrice1559 {
    type V = DynFeeModel;

    open spec fn view(&self) -> DynFeeModel {
        DynFeeModel {
            base_fee_per_gas: self.base_fee_per_gas as int,
            max_fee_per_gas: self.max_fee_per_gas as int,
            max_priority_fee_per_gas: self.max_priority_fee_per_gas as int,
        }
    }
}

/// One fee multiplied by a fixed-point factor, in wide arithmetic.
pub(crate) fn mul_by_factor(v: u64, factor: u64) -> (r: u64)
    requires
        scaled(v as int, factor as int) <= u64::MAX,
    ensures
        r as int == scaled(v as int, factor as int),
{
    proof {
        lemma_mul_upper_bound(v as int, u64::MAX as int, factor as int, u64::MAX as int);
        lemma_mul_nonnegative(v as int, factor as int);
        lemma_div_pos_is_pos(v as int * factor as int, FEE_SCALE as int);
    }
    let prod: u128 = (v as u128) * (factor as u128);
    let q: u128 = prod / (FEE_SCALE as u128);
    q as u64
}

/// One fee rounded up to a whole unit, in wide arithmetic.
fn round_up_fee(v: u64) -> (r: u64)
    requires
        rounded_up_to_unit(v as int) <= u64::MAX,
    ensures
        r as int == rounded_up_to_unit(v as int),
{
    let num: u128 = v as u128 + (FEE_SCALE as u128 - 1);
    let q: u128 = num / (FEE_SCALE as u128);
    proof {
        lemma_fundamental_div_mod(num as int, FEE_SCALE as int);
        lemma_mod_division_less_than_divisor(num as int, FEE_SCALE as int);
        lemma_div_pos_is_pos(num as int, FEE_SCALE as int);
    }
    let r: u128 = q * (FEE_SCALE as u128);
    r as u64
}

impl GasPrice1559 {
    /// Bump the ceiling and the priority fee by a fixed-point factor;
    /// the network-set base fee is left unchanged. Products round
    /// toward zero.
    pub fn bump(self, factor: u64) -> (r: Self)
        requires
            scaled(self.max_fee_per_gas as int, factor as int) <= u64::MAX,
            scaled(self.max_priority_fee_per_gas as int, factor as int) <= u64::MAX,
        ensures
            r@ == dyn_scaled(self@, factor as int),
    {
        Self {
            max_fee_per_gas: mul_by_factor(self.max_fee_per_gas, factor),
            max_priority_fee_per_gas: mul_by_factor(self.max_priority_fee_per_gas, factor),
            ..self
        }
    }

    /// Round the fee ceiling up to a whole unit; the base fee and the
    /// priority fee are left as they are.
    pub fn ceil(self) -> (r: Self)
        requires
            rounded_up_to_unit(self.max_fee_per_gas as int) <= u64::MAX,
        ensures
            r@ == dyn_rounded_up(self@),
    {
        Self { max_fee_per_gas: round_up_fee(self.max_fee_per_gas), ..self }
    }

    /// If the current fee ceiling is higher than `cap`, lower it to
    /// `cap`, then re-clamp the priority fee so it never exceeds the
    /// new ceiling.
    pub fn limit_cap(self, cap: u64) -> (r: Self)
        ensures
            r@ == dyn_capped(self@, cap as int),
            r.max_fee_per_gas <= cap,
            r.max_priority_fee_per_gas <= r.max_fee_per_gas,
            r.base_fee_per_gas == self.base_fee_per_gas,
            dyn_wf(r@),
    {
        let new_max = if self.max_fee_per_gas <= cap {
            self.max_fee_per_gas
        } else {
            cap
        };
        let new_priority = if self.max_priority_fee_per_gas <= new_max {
            self.max_priority_fee_per_gas
        } else {
            new_max
        };
        Self {
            base_fee_per_gas: self.base_fee_per_gas,
            max_fee_per_gas: new_max,
            max_priority_fee_per_gas: new_priority,
        }
    }
}

/// Main gas price structure.
/// Provides estimated gas prices for both legacy and EIP-1559
/// transactions.
#[derive(Debug, Default, Clone, Copy, PartialEq, PartialOrd)]
pub struct EstimatedGasPrice {
    /// Estimated gas price for legacy transactions.
    pub legacy: u64,
    /// Estimated price for EIP-1559 transactions. Optional because not
    /// all estimators support EIP-1559.
    pub eip1559: Option<GasPrice1559>,
}

impl View for EstimatedGasPrice {
    type V = PriceModel;

    open spec fn view(&self) -> PriceModel {
        PriceModel {
            legacy: self.legacy as int,
            eip1559: match self.eip1559 {
                Some(d) => Some(d@),
                None => None,
            },
        }
    }
}

impl EstimatedGasPrice {
    /// Estimate the price per unit gas under current network
    /// conditions. Beware that the price of the mined transaction can
    /// differ from this estimate for an EIP-1559 transaction, because
    /// `base_fee_per_gas` can change between estimation and mining.
    pub fn estimate(&self) -> (r: u64)
        ensures
            r as int == effective_price(self@),
    {
        match &self.eip1559 {
            Some(gas_price) => {
                let sum: u128 = gas_price.max_priority_fee_per_gas as u128
                    + gas_price.base_fee_per_gas as u128;
                if gas_price.max_fee_per_gas as u128 <= sum {
                    gas_price.max_fee_per_gas
                } else {
                    sum as u64
                }
            },
            None => self.legacy,
        }
    }

    /// Maximum price per unit gas the sender is willing to pay for the
    /// transaction.
    pub fn cap(&self) -> (r: u64)
        ensures
            r as int == price_cap(self@),
    {
        match &self.eip1559 {
            Some(gas_price) => gas_price.max_fee_per_gas,
            None => self.legacy,
        }
    }

    /// Bump the price by a fixed-point factor: the legacy price and,
    /// when present, the EIP-1559 ceiling and priority fee are
    /// multiplied; the base fee is left unchanged.
    pub fn bump(self, factor: u64) -> (r: Self)
        requires
            scaled(self.legacy as int, factor as int) <= u64::MAX,
            self.eip1559 matches Some(d) ==> {
                &&& scaled(d.max_fee_per_gas as int, factor as int) <= u64::MAX
                &&& scaled(d.max_priority_fee_per_gas as int, factor as int) <= u64::MAX
            },
        ensures
            r@ == price_scaled(self@, factor as int),
    {
        Self {
            legacy: mul_by_factor(self.legacy, factor),
            eip1559: match self.eip1559 {
                Some(x) => Some(x.bump(factor)),
                None => None,
            },
        }
    }

    /// Round the price up to a whole unit: the legacy price and, when
    /// present, the EIP-1559 ceiling go up; the base fee and the
    /// priority fee are left as they are.
    pub fn ceil(self) -> (r: Self)
        requires
            rounded_up_to_unit(self.legacy as int) <= u64::MAX,
            self.eip1559 matches Some(d) ==> rounded_up_to_unit(d.max_fee_per_gas as int)
                <= u64::MAX,
        ensures
            r@ == price_rounded_up(self@),
    {
        Self {
            legacy: round_up_fee(self.legacy),
            eip1559: match self.eip1559 {
                Some(x) => Some(x.ceil()),
                None => None,
            },
        }
    }

    /// If the current cap is higher than the input, lower it to the
    /// input; the EIP-1559 priority fee is re-clamped to the new
    /// ceiling.
    pub fn limit_cap(self, cap: u64) -> (r: Self)
        ensures
            r@ == price_capped(self@, cap as int),
            r.legacy <= cap,
            r.eip1559 matches Some(d) ==> d.max_fee_per_gas <= cap
                && d.max_priority_fee_per_gas <= d.max_fee_per_gas,
            price_wf(r@),
    {
        Self {
            legacy: if self.legacy <= cap {
                self.legacy
            } else {
                cap
            },
            eip1559: match self.eip1559 {
                Some(x) => Some(x.limit_cap(cap)),
                None => None,
            },
        }
    }
}

/// Scaling by the unit factor leaves a fee unchanged.
pub proof fn lemma_scaled_by_one(v: int)
    ensures
        scaled(v, FEE_SCALE as int) == v,
{
    lemma_div_multiples_vanish(v, FEE_SCALE as int);
}

/// Law: bumping by a factor of one is the identity on a full price,
/// whether or not the EIP-1559 triple is present.
pub proof fn lemma_bump_by_one_is_identity(p: EstimatedGasPrice)
    ensures
        price_scaled(p@, FEE_SCALE as int) == p@,
{
    lemma_scaled_by_one(p.legacy as int);
    match p.eip1559 {
        Some(d) => {
            lemma_scaled_by_one(d.max_fee_per_gas as int);
            lemma_scaled_by_one(d.max_priority_fee_per_gas as int);
        },
        None => {},
    }
}

/// Rounding up to a unit never lowers a non-negative fee, and the
/// result is a whole number of units.
pub proof fn lemma_rounded_up_bounds(v: int)
    requires
        0 <= v,
    ensures
        v <= rounded_up_to_unit(v),
        rounded_up_to_unit(v) % (FEE_SCALE as int) == 0,
        0 <= rounded_up_to_unit(v),
{
    let s = FEE_SCALE as int;
    let x = v + s - 1;
    let q = x / s;
    lemma_fundamental_div_mod(x, s);
    lemma_mod_division_less_than_divisor(x, s);
    lemma_div_pos_is_pos(x, s);
    lemma_mod_multiples_basic(q, s);
}

/// Rounding up to a unit is idempotent on non-negative fees.
pub proof fn lemma_rounded_up_idempotent(v: int)
    requires
        0 <= v,
    ensures
        rounded_up_to_unit(rounded_up_to_unit(v)) == rounded_up_to_unit(v),
{
    let s = FEE_SCALE as int;
    let q = (v + s - 1) / s;
    lemma_div_pos_is_pos(v + s - 1, s);
    lemma_div_multiples_vanish_fancy(q, s - 1, s);
}

/// Law: rounding a full price up is idempotent.
pub proof fn lemma_ceil_idempotent(p: EstimatedGasPrice)
    ensures
        price_rounded_up(price_rounded_up(p@)) == price_rounded_up(p@),
{
    lemma_rounded_up_idempotent(p.legacy as int);
    match p.eip1559 {
        Some(d) => {
            lemma_rounded_up_idempotent(d.max_fee_per_gas as int);
        },
        None => {},
    }
}

/// Scaling by a non-negative factor keeps fees non-negative and keeps
/// their order.
pub proof fn lemma_scaled_monotone(a: int, b: int, factor: int)
    requires
        0 <= a,
        a <= b,
        0 <= factor,
    ensures
        0 <= scaled(a, factor),
        scaled(a, factor) <= scaled(b, factor),
{
    lemma_mul_nonnegative(a, factor);
    lemma_mul_inequality(a, b, factor);
    lemma_div_pos_is_pos(a * factor, FEE_SCALE as int);
    lemma_div_is_ordered(a * factor, b * factor, FEE_SCALE as int);
}

/// One transformation of an EIP-1559 triple, for reasoning about whole
/// chains of transformations.
pub ghost enum FeeOp {
    /// Bump by a non-negative fixed-point factor.
    Scale { factor: int },
    /// Round the fee ceiling up to a whole unit.
    RoundUp,
    /// Clamp the fee ceiling to at most `ceiling`.
    Cap { ceiling: int },
}

/// The arguments a transformation is allowed to take: a non-negative
/// scale factor, and a non-negative budget ceiling.
pub open spec fn fee_op_valid(op: FeeOp) -> bool {
    match op {
        FeeOp::Scale { factor } => 0 <= factor,
        FeeOp::RoundUp => true,
        FeeOp::Cap { ceiling } => 0 <= ceiling,
    }
}

/// Apply one transformation to a fee triple.
pub open spec fn apply_fee_op(d: DynFeeModel, op: FeeOp) -> DynFeeModel {
    match op {
        FeeOp::Scale { factor } => dyn_scaled(d, factor),
        FeeOp::RoundUp => dyn_rounded_up(d),
        FeeOp::Cap { ceiling } => dyn_capped(d, ceiling),
    }
}

/// Apply a chain of transformations to a fee triple, front first.
pub open spec fn apply_fee_ops(d: DynFeeModel, ops: Seq<FeeOp>) -> DynFeeModel
    decreases ops.len(),
{
    if ops.len() == 0 {
        d
    } else {
        apply_fee_ops(apply_fee_op(d, ops[0]), ops.drop_first())
    }
}

/// Each single transformation preserves the cross-field invariant.
pub proof fn lemma_fee_op_preserves_wf(d: DynFeeModel, op: FeeOp)
    requires
        dyn_wf(d),
        fee_op_valid(op),
    ensures
        dyn_wf(apply_fee_op(d, op)),
{
    match op {
        FeeOp::Scale { factor } => {
            lemma_scaled_monotone(
                d.max_priority_fee_per_gas,
                d.max_fee_per_gas,
                factor,
            );
        },
        FeeOp::RoundUp => {
            lemma_rounded_up_bounds(d.max_fee_per_gas);
        },
        FeeOp::Cap { .. } => {},
    }
}

/// Law: however long a chain of bump, round-up and clamp
/// transformations is applied to a well-formed EIP-1559 triple, the
/// result still satisfies `max_priority_fee_per_gas <= max_fee_per_gas`
/// and all fees stay non-negative.
pub proof fn lemma_fee_ops_preserve_wf(d: DynFeeModel, ops: Seq<FeeOp>)
    requires
        dyn_wf(d),
        forall|i: int| 0 <= i < ops.len() ==> fee_op_valid(#[trigger] ops[i]),
    ensures
        dyn_wf(apply_fee_ops(d, ops)),
    decreases ops.len(),
{
    if ops.len() > 0 {
        lemma_fee_op_preserves_wf(d, ops[0]);
        assert forall|i: int| 0 <= i < ops.drop_first().len() implies fee_op_valid(
            #[trigger] ops.drop_first()[i],
        ) by {
            assert(ops.drop_first()[i] == ops[i + 1]);
        }
        lemma_fee_ops_preserve_wf(apply_fee_op(d, ops[0]), ops.drop_first());
    }
}

} // verus!
