use vstd::prelude::*;

use crate::error::MintError;
use crate::fee::{split_fee, split_of, valid_pricing};
use crate::proxy::ProxyContract;
use crate::token::{Token, TokenMetadata};

verus! {

/// Gas, in teragas, reserved for the continuation that follows the issue call.
pub const MINT_CALLBACK_GAS_TGAS: u64 = 35;

/// Gas, in teragas, reserved for the continuation that follows the transfer.
pub const TRANSFER_CALLBACK_GAS_TGAS: u64 = 20;

/// Gas, in teragas, reserved for the continuation that follows the read-back.
pub const FINALIZE_CALLBACK_GAS_TGAS: u64 = 10;

/// Deposit attached to the ownership transfer, in yoctoNEAR: it pays for the
/// registry's approval bookkeeping.
pub const TRANSFER_ATTACHED_DEPOSIT: u128 = 1;

/// Where one mint saga stands.
#[derive(Debug, Clone, Copy, PartialEq, Eq, Structural)]
pub enum SagaState {
    Received,
    TreasurySent,
    Issuing,
    Issued,
    IssueFailed,
    Transferring,
    Transferred,
    TransferFailed,
    ReadingBack,
    Finalized,
    ReadFailed,
}

/// A remote call that resolved with an error or ran out of its budget.
#[derive(Debug, Clone, Copy, PartialEq, Eq, Structural)]
pub struct RemoteError;

/// Money sent to the treasury at the start of a saga.
#[derive(Debug, Clone, PartialEq, Eq)]
pub struct TreasuryTransfer {
    pub receiver_id: String,
    pub amount: u128,
}

/// The registry's issue call, with the fee it carries.
#[derive(Debug, Clone, PartialEq, Eq)]
pub struct IssueCall {
    pub registry_id: String,
    pub attached_deposit: u128,
    pub token_metadata: TokenMetadata,
}

/// What an accepted mint request schedules: the treasury transfer, then
/// the issue call, then a continuation that carries the original caller.
#[derive(Debug, Clone, PartialEq, Eq)]
pub struct MintPlan {
    pub treasury: TreasuryTransfer,
    pub issue: IssueCall,
    pub original_caller: String,
    pub callback_gas_tgas: u64,
}

/// The ownership transfer scheduled after a successful issue, followed by a
/// continuation that carries `token_id` and `receiver_id`.
#[derive(Debug, Clone, PartialEq, Eq)]
pub struct TransferPlan {
    pub registry_id: String,
    pub receiver_id: String,
    pub token_id: String,
    pub attached_deposit: u128,
    pub callback_gas_tgas: u64,
}

/// The read-back scheduled once the transfer resolved, either way.
#[derive(Debug, Clone, PartialEq, Eq)]
pub struct ReadPlan {
    pub registry_id: String,
    pub token_id: String,
    /// `false` when the transfer failed: a warning, the saga goes on.
    pub transfer_succeeded: bool,
    pub callback_gas_tgas: u64,
}

/// The saga's result once the read-back resolved with `outcome`.
pub open spec fn read_back_result(outcome: Result<Option<Token>, RemoteError>) -> Result<Token, MintError> {
    match outcome {
        Ok(Some(t)) => Ok(t),
        Ok(None) => Err(MintError::RecordMissingError),
        Err(_) => Err(MintError::RemoteFailure),
    }
}

/// How one saga run ended, given what each remote call resolved with.
#[derive(Debug, PartialEq, Eq)]
pub struct SagaOutcome {
    /// The terminal state reached.
    pub state: SagaState,
    /// The record returned to the caller, or the fatal error.
    pub result: Result<Token, MintError>,
    /// What went to the treasury; it is never taken back.
    pub treasury_sent: Option<u128>,
    /// Remote operations scheduled: treasury transfer, issue, ownership
    /// transfer and read-back, as far as the saga got.
    pub remote_calls: u64,
    /// Set when the ownership transfer failed and the saga went on anyway.
    pub transfer_warning: bool,
}

impl ProxyContract {
    /// Accepts a mint request from `caller` carrying `deposit`, or refuses it
    /// before anything is sent.
    ///
    /// A payment below the required deposit is refused first, an inconsistent
    /// configuration next. Otherwise the payment less the mint price goes to
    /// the treasury and the mint price goes with the issue call.
    pub fn nft_mint_proxy(&self, caller: String, deposit: u128, token_metadata: TokenMetadata) -> (r:
        Result<MintPlan, MintError>)
        ensures
            deposit < self.required_deposit ==> r == Err::<MintPlan, MintError>(
                MintError::InsufficientDepositError,
            ),
            deposit >= self.required_deposit && !valid_pricing(
                self.nft_mint_price,
                self.required_deposit,
            ) ==> r == Err::<MintPlan, MintError>(MintError::ConfigurationError),
            deposit >= self.required_deposit && valid_pricing(
                self.nft_mint_price,
                self.required_deposit,
            ) ==> r == Ok::<MintPlan, MintError>(
                MintPlan {
                    treasury: TreasuryTransfer {
                        receiver_id: self.treasury_id,
                        amount: split_of(deposit, self.nft_mint_price).treasury_amount,
                    },
                    issue: IssueCall {
                        registry_id: self.nft_contract_account_id,
                        attached_deposit: self.nft_mint_price,
                        token_metadata,
                    },
                    original_caller: caller,
                    callback_gas_tgas: MINT_CALLBACK_GAS_TGAS,
                },
            ),
    {
        if deposit < self.required_deposit {
            return Err(MintError::InsufficientDepositError);
        }
        let split = match split_fee(deposit, self.nft_mint_price, self.required_deposit) {
            Ok(s) => s,
            Err(e) => {
                return Err(e);
            },
        };
        Ok(
            MintPlan {
                treasury: TreasuryTransfer {
                    receiver_id: self.treasury_id.clone(),
                    amount: split.treasury_amount,
                },
                issue: IssueCall {
                    registry_id: self.nft_contract_account_id.clone(),
                    attached_deposit: split.registry_amount,
                    token_metadata,
                },
                original_caller: caller,
                callback_gas_tgas: MINT_CALLBACK_GAS_TGAS,
            },
        )
    }

    /// Continuation of the issue call. An issued record is handed to the
    /// original caller by a transfer; a failed issue ends the saga, and the
    /// treasury transfer already made stays made.
    pub fn callback_mint_complete(
        &self,
        original_caller: String,
        mint_result: Result<Token, RemoteError>,
    ) -> (r: Result<TransferPlan, MintError>)
        ensures
            mint_result is Err ==> r == Err::<TransferPlan, MintError>(MintError::RemoteFailure),
            mint_result is Ok ==> r == Ok::<TransferPlan, MintError>(
                TransferPlan {
                    registry_id: self.nft_contract_account_id,
                    receiver_id: original_caller,
                    token_id: mint_result->Ok_0.token_id,
                    attached_deposit: TRANSFER_ATTACHED_DEPOSIT,
                    callback_gas_tgas: TRANSFER_CALLBACK_GAS_TGAS,
                },
            ),
    {
        match mint_result {
            Ok(token) => Ok(
                TransferPlan {
                    registry_id: self.nft_contract_account_id.clone(),
                    receiver_id: original_caller,
                    token_id: token.token_id,
                    attached_deposit: TRANSFER_ATTACHED_DEPOSIT,
                    callback_gas_tgas: TRANSFER_CALLBACK_GAS_TGAS,
                },
            ),
            Err(_) => Err(MintError::RemoteFailure),
        }
    }

    /// Continuation of the ownership transfer. Whether it succeeded or not,
    /// the record is read back; a failed transfer is only reported.
    pub fn callback_transfer_complete(
        &self,
        token_id: String,
        original_caller: String,
        transfer_result: Result<(), RemoteError>,
    ) -> (r: ReadPlan)
        ensures
            r == (ReadPlan {
                registry_id: self.nft_contract_account_id,
                token_id,
                transfer_succeeded: transfer_result is Ok,
                callback_gas_tgas: FINALIZE_CALLBACK_GAS_TGAS,
            }),
    {
        ReadPlan {
            registry_id: self.nft_contract_account_id.clone(),
            token_id,
            transfer_succeeded: transfer_result.is_ok(),
            callback_gas_tgas: FINALIZE_CALLBACK_GAS_TGAS,
        }
    }

    /// Continuation of the read-back: the saga's result. A present record is
    /// returned; an absent one, or a failed read, is fatal.
    pub fn finalize_get_token_complete(token_result: Result<Option<Token>, RemoteError>) -> (r:
        Result<Token, MintError>)
        ensures
            token_result matches Ok(Some(t)) ==> r == Ok::<Token, MintError>(t),
            token_result matches Ok(None) ==> r == Err::<Token, MintError>(
                MintError::RecordMissingError,
            ),
            token_result is Err ==> r == Err::<Token, MintError>(MintError::RemoteFailure),
            r == read_back_result(token_result),
    {
        match token_result {
            Ok(Some(token)) => Ok(token),
            Ok(None) => Err(MintError::RecordMissingError),
            Err(_) => Err(MintError::RemoteFailure),
        }
    }
    /// Runs one whole saga for a request of `caller` carrying `deposit`, with
    /// the outcomes that the issue, the transfer and the read-back resolve
    /// with. Each hop sees only what the one before handed on.
    pub fn run_saga(
        &self,
        caller: String,
        deposit: u128,
        token_metadata: TokenMetadata,
        issue_outcome: Result<Token, RemoteError>,
        transfer_outcome: Result<(), RemoteError>,
        read_outcome: Result<Option<Token>, RemoteError>,
    ) -> (r: SagaOutcome)
        ensures
            deposit < self.required_deposit ==> r == (SagaOutcome {
                state: SagaState::Received,
                result: Err(MintError::InsufficientDepositError),
                treasury_sent: None,
                remote_calls: 0,
                transfer_warning: false,
            }),
            deposit >= self.required_deposit && !valid_pricing(
                self.nft_mint_price,
                self.required_deposit,
            ) ==> r == (SagaOutcome {
                state: SagaState::Received,
                result: Err(MintError::ConfigurationError),
                treasury_sent: None,
                remote_calls: 0,
                transfer_warning: false,
            }),
            deposit >= self.required_deposit && valid_pricing(
                self.nft_mint_price,
                self.required_deposit,
            ) ==> {
                &&& r.treasury_sent == Some((deposit - self.nft_mint_price) as u128)
                &&& issue_outcome is Err ==> {
                    &&& r.state == SagaState::IssueFailed
                    &&& r.result == Err::<Token, MintError>(MintError::RemoteFailure)
                    &&& r.remote_calls == 2
                    &&& !r.transfer_warning
                }
                &&& issue_outcome is Ok ==> {
                    &&& r.remote_calls == 4
                    &&& r.transfer_warning == transfer_outcome is Err
                    &&& r.result == read_back_result(read_outcome)
                    &&& r.state == if r.result is Ok {
                        SagaState::Finalized
                    } else {
                        SagaState::ReadFailed
                    }
                }
            },
    {
        let plan = match self.nft_mint_proxy(caller, deposit, token_metadata) {
            Ok(p) => p,
            Err(e) => {
                return SagaOutcome {
                    state: SagaState::Received,
                    result: Err(e),
                    treasury_sent: None,
                    remote_calls: 0,
                    transfer_warning: false,
                };
            },
        };
        let treasury_sent = Some(plan.treasury.amount);
        let transfer = match self.callback_mint_complete(plan.original_caller, issue_outcome) {
            Ok(t) => t,
            Err(e) => {
                return SagaOutcome {
                    state: SagaState::IssueFailed,
                    result: Err(e),
                    treasury_sent,
                    remote_calls: 2,
                    transfer_warning: false,
                };
            },
        };
        let read = self.callback_transfer_complete(
            transfer.token_id,
            transfer.receiver_id,
            transfer_outcome,
        );
        let result = Self::finalize_get_token_complete(read_outcome);
        let state = if result.is_ok() {
            SagaState::Finalized
        } else {
            SagaState::ReadFailed
        };
        SagaOutcome {
            state,
            result,
            treasury_sent,
            remote_calls: 4,
            transfer_warning: !read.transfer_succeeded,
        }
    }
}

} // verus!
