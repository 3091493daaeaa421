use vstd::prelude::*;

use crate::error::MintError;

verus! {

/// Price that the proxy attaches to the registry's issue call by default:
/// 0.027 NEAR in yoctoNEAR.
pub const DEFAULT_NFT_MINT_PRICE: u128 = 27_000_000_000_000_000_000_000;

/// Payment that a user must attach to a mint request by default: 0.2 NEAR
/// in yoctoNEAR.
pub const DEFAULT_REQUIRED_DEPOSIT: u128 = 200_000_000_000_000_000_000_000;

/// The orchestrator's configuration: where the registry and the treasury
/// live, what a mint costs, and who may change any of it.
#[derive(Debug, Clone)]
pub struct ProxyContract {
    pub nft_contract_account_id: String,
    pub treasury_id: String,
    /// Fee attached to the registry's issue call, in yoctoNEAR.
    pub nft_mint_price: u128,
    /// Payment a user must attach to a mint request, in yoctoNEAR.
    pub required_deposit: u128,
    pub owner_id: String,
}

/// One call of an owner-gated setter by `caller` led from `pre` to `post`:
/// a caller other than the owner leaves the configuration as it was.
pub open spec fn gated_step(pre: ProxyContract, post: ProxyContract, caller: Seq<char>) -> bool {
    caller != pre.owner_id@ ==> post == pre
}

impl ProxyContract {
    /// A proxy owned by `caller`, the account that deploys it, with the
    /// default prices.
    pub fn new(nft_contract_account_id: String, treasury_id: String, caller: String) -> (r: Self)
        ensures
            r.nft_contract_account_id == nft_contract_account_id,
            r.treasury_id == treasury_id,
            r.nft_mint_price == DEFAULT_NFT_MINT_PRICE,
            r.required_deposit == DEFAULT_REQUIRED_DEPOSIT,
            r.owner_id == caller,
    {
        ProxyContract {
            nft_contract_account_id,
            treasury_id,
            nft_mint_price: DEFAULT_NFT_MINT_PRICE,
            required_deposit: DEFAULT_REQUIRED_DEPOSIT,
            owner_id: caller,
        }
    }

    /// Sets the fee attached to the registry's issue call; owner only.
    pub fn set_nft_mint_price(&mut self, caller: &String, price: u128) -> (r: Result<
        (),
        MintError,
    >)
        ensures
            gated_step(*old(self), *final(self), caller@),
            caller@ == old(self).owner_id@ ==> r is Ok && *final(self) == (ProxyContract {
                nft_mint_price: price,
                ..*old(self)
            }),
            caller@ != old(self).owner_id@ ==> r == Err::<(), MintError>(
                MintError::AuthorizationError,
            ),
    {
        if *caller != self.owner_id {
            return Err(MintError::AuthorizationError);
        }
        self.nft_mint_price = price;
        Ok(())
    }

    /// Sets the payment that a mint request must carry; owner only.
    pub fn set_required_deposit(&mut self, caller: &String, deposit: u128) -> (r: Result<
        (),
        MintError,
    >)
        ensures
            gated_step(*old(self), *final(self), caller@),
            caller@ == old(self).owner_id@ ==> r is Ok && *final(self) == (ProxyContract {
                required_deposit: deposit,
                ..*old(self)
            }),
            caller@ != old(self).owner_id@ ==> r == Err::<(), MintError>(
                MintError::AuthorizationError,
            ),
    {
        if *caller != self.owner_id {
            return Err(MintError::AuthorizationError);
        }
        self.required_deposit = deposit;
        Ok(())
    }

    /// Points the proxy at another registry account; owner only.
    pub fn set_nft_contract_account_id(&mut self, caller: &String, new_account_id: String) -> (r:
        Result<(), MintError>)
        ensures
            gated_step(*old(self), *final(self), caller@),
            caller@ == old(self).owner_id@ ==> r is Ok && *final(self) == (ProxyContract {
                nft_contract_account_id: new_account_id,
                ..*old(self)
            }),
            caller@ != old(self).owner_id@ ==> r == Err::<(), MintError>(
                MintError::AuthorizationError,
            ),
    {
        if *caller != self.owner_id {
            return Err(MintError::AuthorizationError);
        }
        self.nft_contract_account_id = new_account_id;
        Ok(())
    }

    /// Points the proxy at another treasury account; owner only.
    pub fn set_treasury_id(&mut self, caller: &String, new_treasury_id: String) -> (r: Result<
        (),
        MintError,
    >)
        ensures
            gated_step(*old(self), *final(self), caller@),
            caller@ == old(self).owner_id@ ==> r is Ok && *final(self) == (ProxyContract {
                treasury_id: new_treasury_id,
                ..*old(self)
            }),
            caller@ != old(self).owner_id@ ==> r == Err::<(), MintError>(
                MintError::AuthorizationError,
            ),
    {
        if *caller != self.owner_id {
            return Err(MintError::AuthorizationError);
        }
        self.treasury_id = new_treasury_id;
        Ok(())
    }

    /// Hands ownership of the proxy to `new_owner_id`; owner only.
    pub fn set_owner(&mut self, caller: &String, new_owner_id: String) -> (r: Result<
        (),
        MintError,
    >)
        ensures
            gated_step(*old(self), *final(self), caller@),
            caller@ == old(self).owner_id@ ==> r is Ok && *final(self) == (ProxyContract {
                owner_id: new_owner_id,
                ..*old(self)
            }),
            caller@ != old(self).owner_id@ ==> r == Err::<(), MintError>(
                MintError::AuthorizationError,
            ),
    {
        if *caller != self.owner_id {
            return Err(MintError::AuthorizationError);
        }
        self.owner_id = new_owner_id;
        Ok(())
    }
}

/// However many setter calls are made by accounts other than the owner, the
/// configuration read afterwards is the one read before: only the owner's
/// calls can change it.
pub proof fn lemma_non_owner_calls_keep_config(
    states: Seq<ProxyContract>,
    callers: Seq<Seq<char>>,
)
    requires
        states.len() == callers.len() + 1,
        forall|i: int|
            0 <= i < callers.len() ==> gated_step(#[trigger] states[i], states[i + 1], callers[i]),
        forall|i: int| 0 <= i < callers.len() ==> #[trigger] callers[i] != states[0].owner_id@,
    ensures
        forall|i: int| 0 <= i < states.len() ==> #[trigger] states[i] == states[0],
    decreases callers.len(),
{
    if callers.len() > 0 {
        let n = callers.len() - 1;
        let s = states.drop_last();
        let c = callers.drop_last();
        assert forall|i: int| 0 <= i < c.len() implies gated_step(
            #[trigger] s[i],
            s[i + 1],
            c[i],
        ) by {
            assert(gated_step(states[i], states[i + 1], callers[i]));
        }
        assert forall|i: int| 0 <= i < c.len() implies #[trigger] c[i] != s[0].owner_id@ by {
            assert(callers[i] != states[0].owner_id@);
        }
        lemma_non_owner_calls_keep_config(s, c);
        assert(s[n] == states[0]);
        assert(gated_step(states[n], states[n + 1], callers[n]));
        assert(callers[n] != states[0].owner_id@);
        assert forall|i: int| 0 <= i < states.len() implies #[trigger] states[i] == states[0] by {
            if i < n + 1 {
                assert(s[i] == states[i]);
            }
        }
    }
}

} // verus!
