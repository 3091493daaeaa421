use vstd::prelude::*;

use crate::error::MintError;

verus! {

/// How one payment is divided between the treasury and the registry.
#[derive(Debug, Clone, Copy, PartialEq, Eq, Structural)]
pub struct FeeSplit {
    /// Amount forwarded to the treasury account, in yoctoNEAR.
    pub treasury_amount: u128,
    /// Amount attached to the registry's issue call, in yoctoNEAR.
    pub registry_amount: u128,
}

/// A configuration is consistent when the required deposit covers the mint price.
pub open spec fn valid_pricing(mint_price: u128, required_deposit: u128) -> bool {
    required_deposit >= mint_price
}

/// The split that a consistent configuration and a sufficient payment give.
pub open spec fn split_of(total: u128, mint_price: u128) -> FeeSplit {
    FeeSplit { treasury_amount: (total - mint_price) as u128, registry_amount: mint_price }
}

/// Divides `total` into a treasury transfer and a registry fee.
///
/// An inconsistent configuration is reported first, before the payment is
/// looked at; a payment below the required deposit is refused next.
pub fn split_fee(total: u128, mint_price: u128, required_deposit: u128) -> (r: Result<
    FeeSplit,
    MintError,
>)
    ensures
        !valid_pricing(mint_price, required_deposit) ==> r == Err::<FeeSplit, MintError>(
            MintError::ConfigurationError,
        ),
        valid_pricing(mint_price, required_deposit) && total < required_deposit ==> r == Err::<
            FeeSplit,
            MintError,
        >(MintError::InsufficientDepositError),
        valid_pricing(mint_price, required_deposit) && total >= required_deposit ==> r == Ok::<
            FeeSplit,
            MintError,
        >(split_of(total, mint_price)),
        r matches Ok(s) ==> s.treasury_amount + s.registry_amount == total && s.registry_amount
            == mint_price,
{
    if required_deposit < mint_price {
        return Err(MintError::ConfigurationError);
    }
    if total < required_deposit {
        return Err(MintError::InsufficientDepositError);
    }
    Ok(FeeSplit { treasury_amount: total - mint_price, registry_amount: mint_price })
}

/// For every payment that reaches the required deposit under a consistent
/// configuration, the two amounts add up to the payment and the registry
/// receives exactly the mint price.
pub proof fn lemma_split_conserves_payment(total: u128, mint_price: u128, required_deposit: u128)
    requires
        valid_pricing(mint_price, required_deposit),
        total >= required_deposit,
    ensures
        split_of(total, mint_price).treasury_amount + split_of(total, mint_price).registry_amount
            == total,
        split_of(total, mint_price).registry_amount == mint_price,
{
}

} // verus!
