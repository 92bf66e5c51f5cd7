//! The platform's commission on what a campaign raised.
use vstd::prelude::*;

use crate::error::ContractError;
use crate::project::state::{FeeConfig, FeeView};
use crate::wide::{pow2_128, pow2_256, Wide};

verus! {

/// The commission on `total` at the rate `nom / denom`: the product is
/// divided with rounding down, and of the quotient the low 128 bits count.
pub open spec fn commission_of(total: nat, nom: nat, denom: nat) -> nat {
    ((total * nom) / denom) % pow2_128()
}

/// How `total` is split between the creator, first, and the platform.
///
/// At a rate of zero, and where the commission is within what the creator
/// paid up front, all goes to the creator. Else the platform gets the
/// commission less what was paid up front, and the creator the rest. The
/// split fails with `DivisionByZero` for a rate with denominator zero, and
/// with `Overflow` where the platform's part is more than there is.
pub open spec fn payout_split(total: nat, fee: FeeView) -> Result<(nat, nat), ContractError> {
    if fee.commission_rate_nom == 0 {
        Ok((total, 0nat))
    } else if fee.commission_rate_denom == 0 {
        Err(ContractError::DivisionByZero)
    } else {
        let commission = commission_of(total, fee.commission_rate_nom, fee.commission_rate_denom);
        if commission <= fee.upfront {
            Ok((total, 0nat))
        } else {
            let adjusted = (commission - fee.upfront) as nat;
            if adjusted > total {
                Err(ContractError::Overflow)
            } else {
                Ok(((total - adjusted) as nat, adjusted))
            }
        }
    }
}

/// What the creator and the platform get of what was raised.
#[derive(Clone, Copy, Debug, PartialEq, Eq, Structural)]
pub struct PayoutSplit {
    pub payment: u128,
    pub commission: u128,
}

/// The commission on `total` at the rate `nom / denom`, see
/// [`commission_of`]. Fails with `DivisionByZero` exactly when `denom` is
/// zero.
pub fn compute_commission(total: u128, nom: u128, denom: u128) -> (r: Result<u128, ContractError>)
    ensures
        match r {
            Ok(commission) => denom != 0 && commission == commission_of(
                total as nat,
                nom as nat,
                denom as nat,
            ),
            Err(e) => e == ContractError::DivisionByZero && denom == 0,
        },
{
    let product = match Wide::from_u128(total).checked_mul(Wide::from_u128(nom)) {
        Some(p) => p,
        None => {
            proof {
                assert((total as nat) * (nom as nat) < pow2_256()) by (nonlinear_arith)
                    requires
                        total < 0x1_0000_0000_0000_0000_0000_0000_0000_0000,
                        nom < 0x1_0000_0000_0000_0000_0000_0000_0000_0000,
                ;
            }
            return Err(ContractError::DivisionByZero);
        },
    };
    match product.checked_div(Wide::from_u128(denom)) {
        Some(quotient) => Ok(quotient.low_u128()),
        None => Err(ContractError::DivisionByZero),
    }
}

/// Splits `total` between the creator and the platform, see
/// [`payout_split`].
pub fn compute_payout(total: u128, fee: &FeeConfig) -> (r: Result<PayoutSplit, ContractError>)
    ensures
        match r {
            Ok(split) => payout_split(total as nat, fee@) == Ok::<(nat, nat), ContractError>(
                (split.payment as nat, split.commission as nat),
            ),
            Err(e) => payout_split(total as nat, fee@) == Err::<(nat, nat), ContractError>(e),
        },
{
    if fee.commission_rate_nom == 0 {
        return Ok(PayoutSplit { payment: total, commission: 0 });
    }
    let commission = compute_commission(total, fee.commission_rate_nom, fee.commission_rate_denom)?;
    if commission <= fee.upfront {
        return Ok(PayoutSplit { payment: total, commission: 0 });
    }
    let adjusted = commission - fee.upfront;
    if adjusted > total {
        return Err(ContractError::Overflow);
    }
    Ok(PayoutSplit { payment: total - adjusted, commission: adjusted })
}

} // verus!
