use vstd::prelude::*;

use crate::error::MintError;
use crate::token::{decimal, decimal_string, Token, TokenMetadata};

verus! {

/// Minimum payment asked for a new record: 0.027 NEAR in yoctoNEAR.
pub const DEFAULT_MIN_MINT_PRICE: u128 = 27_000_000_000_000_000_000_000;

/// The registry-side gate: who may issue records, at what price, and the
/// counter that numbers them.
#[derive(Debug, Clone)]
pub struct Contract {
    pub owner_id: String,
    /// The one caller allowed to mint (usually the orchestrating proxy).
    pub authorized_minter: String,
    /// Lowest attached deposit that `nft_mint` accepts, in yoctoNEAR.
    pub min_mint_price: u128,
    /// Id of the next record; starts at zero and grows by one per issue.
    pub next_token_id: u64,
}

/// `post` is the minter state after one successful issue from `pre`: the counter
/// moved on by one and nothing else changed.
pub open spec fn issued_one(pre: Contract, post: Contract) -> bool {
    &&& post.next_token_id == pre.next_token_id + 1
    &&& post.owner_id == pre.owner_id
    &&& post.authorized_minter == pre.authorized_minter
    &&& post.min_mint_price == pre.min_mint_price
}

impl Contract {
    /// A gate owned by `owner_id` that lets `authorized_minter` issue records.
    pub fn new(owner_id: String, authorized_minter: String) -> (r: Self)
        ensures
            r.owner_id == owner_id,
            r.authorized_minter == authorized_minter,
            r.min_mint_price == DEFAULT_MIN_MINT_PRICE,
            r.next_token_id == 0,
    {
        Contract {
            owner_id,
            authorized_minter,
            min_mint_price: DEFAULT_MIN_MINT_PRICE,
            next_token_id: 0,
        }
    }

    /// Replaces the authorized minter; only the owner may do so.
    pub fn set_authorized_minter(&mut self, caller: &String, new_minter: String) -> (r: Result<
        (),
        MintError,
    >)
        ensures
            caller@ == old(self).owner_id@ ==> r is Ok && *final(self) == (Contract {
                authorized_minter: new_minter,
                ..*old(self)
            }),
            caller@ != old(self).owner_id@ ==> r == Err::<(), MintError>(
                MintError::AuthorizationError,
            ) && *final(self) == *old(self),
    {
        if *caller != self.owner_id {
            return Err(MintError::AuthorizationError);
        }
        self.authorized_minter = new_minter;
        Ok(())
    }

    /// Replaces the minimum mint price; only the owner may do so.
    pub fn set_min_mint_price(&mut self, caller: &String, price: u128) -> (r: Result<
        (),
        MintError,
    >)
        ensures
            caller@ == old(self).owner_id@ ==> r is Ok && *final(self) == (Contract {
                min_mint_price: price,
                ..*old(self)
            }),
            caller@ != old(self).owner_id@ ==> r == Err::<(), MintError>(
                MintError::AuthorizationError,
            ) && *final(self) == *old(self),
    {
        if *caller != self.owner_id {
            return Err(MintError::AuthorizationError);
        }
        self.min_mint_price = price;
        Ok(())
    }

    /// Issues the next record to `caller`, who must be the authorized minter
    /// and attach at least the minimum mint price.
    ///
    /// The record's id is the counter in decimal, and the record belongs to
    /// the caller itself, which hands it on. A refused call changes nothing.
    pub fn nft_mint(&mut self, caller: String, deposit: u128, token_metadata: TokenMetadata) -> (r:
        Result<Token, MintError>)
        requires
            old(self).next_token_id < u64::MAX,
        ensures
            caller@ != old(self).authorized_minter@ ==> r == Err::<Token, MintError>(
                MintError::AuthorizationError,
            ),
            caller@ == old(self).authorized_minter@ && deposit < old(self).min_mint_price ==> r
                == Err::<Token, MintError>(MintError::InsufficientDepositError),
            r is Err ==> *final(self) == *old(self),
            caller@ == old(self).authorized_minter@ && deposit >= old(self).min_mint_price ==> {
                &&& r is Ok
                &&& r->Ok_0.token_id@ == decimal(old(self).next_token_id as nat)
                &&& r->Ok_0.owner_id == caller
                &&& r->Ok_0.metadata == Some(token_metadata)
                &&& issued_one(*old(self), *final(self))
            },
    {
        if caller != self.authorized_minter {
            return Err(MintError::AuthorizationError);
        }
        if deposit < self.min_mint_price {
            return Err(MintError::InsufficientDepositError);
        }
        let token_id = decimal_string(self.next_token_id);
        self.next_token_id = self.next_token_id + 1;
        Ok(Token { token_id, owner_id: caller, metadata: Some(token_metadata) })
    }
}

/// Over a run of successful issues that starts from a fresh gate, the id
/// handed out by the `i`-th issue is `i`: no gaps and no repeats.
pub proof fn lemma_ids_consecutive(gates: Seq<Contract>)
    requires
        gates.len() >= 1,
        gates[0].next_token_id == 0,
        forall|i: int| 0 <= i < gates.len() - 1 ==> issued_one(#[trigger] gates[i], gates[i + 1]),
    ensures
        forall|i: int| 0 <= i < gates.len() ==> #[trigger] gates[i].next_token_id == i,
        forall|i: int, j: int|
            0 <= i < j < gates.len() ==> #[trigger] gates[i].next_token_id
                != #[trigger] gates[j].next_token_id,
    decreases gates.len(),
{
    if gates.len() > 1 {
        let prefix = gates.drop_last();
        assert forall|i: int| 0 <= i < prefix.len() - 1 implies issued_one(
            #[trigger] prefix[i],
            prefix[i + 1],
        ) by {
            assert(issued_one(gates[i], gates[i + 1]));
        }
        lemma_ids_consecutive(prefix);
        assert(issued_one(gates[gates.len() - 2], gates[gates.len() - 1]));
        assert forall|i: int| 0 <= i < gates.len() implies #[trigger] gates[i].next_token_id
            == i by {
            if i < gates.len() - 1 {
                assert(prefix[i] == gates[i]);
                assert(prefix[i].next_token_id == i);
            } else {
                assert(prefix[i - 1] == gates[i - 1]);
                assert(prefix[i - 1].next_token_id == i - 1);
            }
        }
    }
}

} // verus!
