use crate::address::Address;
use crate::transaction::{
    initialize_token_account, initialize_token_mint, mint_to_account, mint_to_transaction_view,
    mint_transaction_view, token_account_transaction_view, ComposeError, Transaction,
    TransactionView,
};
use vstd::prelude::*;

verus! {

/// Where the token lifecycle stands: each stage names the transaction that
/// is to be submitted next. Every transaction is atomic on its own; there is
/// no atomicity across them.
#[derive(Clone, Copy, Debug, PartialEq, Eq, Structural)]
pub enum MintStage {
    /// Create and initialize the mint.
    CreateMint,
    /// Create and initialize the token account.
    CreateTokenAccount,
    /// Mint into the token account.
    MintTo,
    /// Nothing left to submit.
    Finished,
}

/// Accounts and amounts of one run of the token lifecycle.
#[derive(Clone, Copy, Debug)]
pub struct MintPlan {
    pub payer: Address,
    pub mint: Address,
    pub token_account: Address,
    pub mint_rent: u64,
    pub token_account_rent: u64,
    pub amount: u64,
}

impl MintStage {
    /// The mint account exists once its transaction was finalized.
    pub open spec fn mint_persisted(self) -> bool {
        self != MintStage::CreateMint
    }

    /// The token account exists once its transaction was finalized.
    pub open spec fn token_account_persisted(self) -> bool {
        self == MintStage::MintTo || self == MintStage::Finished
    }

    /// The stage after this one.
    pub open spec fn successor(self) -> MintStage {
        match self {
            MintStage::CreateMint => MintStage::CreateTokenAccount,
            MintStage::CreateTokenAccount => MintStage::MintTo,
            MintStage::MintTo => MintStage::Finished,
            MintStage::Finished => MintStage::Finished,
        }
    }

    /// The stage once the submission of this stage's transaction came back:
    /// finalized moves on; rejected stays, so that the failed step alone is
    /// retried and no finished step is submitted again.
    pub fn advance(self, finalized: bool) -> (r: MintStage)
        ensures
            finalized ==> r == self.successor(),
            !finalized ==> r == self,
            self.mint_persisted() ==> r.mint_persisted(),
            self.token_account_persisted() ==> r.token_account_persisted(),
    {
        if !finalized {
            return self;
        }
        match self {
            MintStage::CreateMint => MintStage::CreateTokenAccount,
            MintStage::CreateTokenAccount => MintStage::MintTo,
            MintStage::MintTo => MintStage::Finished,
            MintStage::Finished => MintStage::Finished,
        }
    }

    /// The transaction that this stage submits, if any is left.
    pub open spec fn transaction_view(self, plan: &MintPlan, recent_blockhash: Seq<u8>) -> Option<TransactionView> {
        match self {
            MintStage::CreateMint => Some(
                mint_transaction_view(plan.payer@, plan.mint@, plan.mint_rent, recent_blockhash),
            ),
            MintStage::CreateTokenAccount => Some(
                token_account_transaction_view(
                    plan.payer@,
                    plan.mint@,
                    plan.token_account@,
                    plan.token_account_rent,
                    recent_blockhash,
                ),
            ),
            MintStage::MintTo => Some(
                mint_to_transaction_view(
                    plan.payer@,
                    plan.mint@,
                    plan.token_account@,
                    plan.amount,
                    recent_blockhash,
                ),
            ),
            MintStage::Finished => None,
        }
    }

    /// The transaction to submit at this stage, if any is left.
    pub fn next_transaction(self, plan: &MintPlan, recent_blockhash: [u8; 32]) -> (r: Option<Result<Transaction, ComposeError>>)
        ensures
            match self.transaction_view(plan, recent_blockhash@) {
                Some(v) => r matches Some(Ok(t)) && t@ == v,
                None => r is None,
            },
    {
        match self {
            MintStage::CreateMint => Some(initialize_token_mint(&plan.payer, &plan.mint, plan.mint_rent, recent_blockhash)),
            MintStage::CreateTokenAccount => Some(initialize_token_account(
                &plan.payer,
                &plan.mint,
                &plan.token_account,
                plan.token_account_rent,
                recent_blockhash,
            )),
            MintStage::MintTo => Some(mint_to_account(
                &plan.payer,
                &plan.mint,
                &plan.token_account,
                plan.amount,
                recent_blockhash,
            )),
            MintStage::Finished => None,
        }
    }
}

} // verus!
