//! The reward transfer: its model, its construction and its signing.
use crate::chain::{
    address_of, key_address, transfer_data, transfer_instruction, try_sign, unsigned_transaction,
};
use solana_sdk::instruction::Instruction;
use solana_sdk::pubkey::Pubkey;
use solana_sdk::signer::keypair::Keypair;
use solana_sdk::transaction::Transaction;
use vstd::prelude::*;

verus! {

/// Amount, in minor units, sent to each detected counterparty.
pub const REWARD_AMOUNT: u64 = 500_000_000;

/// Why one reward submission failed. Neither stops the pipeline.
#[derive(Debug, Clone, Copy, PartialEq, Eq, Structural)]
pub enum SubmissionError {
    /// No recent checkpoint reference could be fetched.
    FreshnessUnavailable,
    /// The network rejected the transaction or did not confirm it in time.
    RejectedOrTimedOut,
}

/// The process's key pair, which signs every reward and pays its fee. The
/// secret stays inside: only its address and the signing step reach it.
pub struct SigningIdentity {
    keypair: Keypair,
    address: Pubkey,
}

impl SigningIdentity {
    /// The stored address is the key pair's own.
    #[verifier::type_invariant]
    closed spec fn inv(&self) -> bool {
        self.address == key_address(self.keypair)
    }

    /// The address that this identity signs for.
    pub closed spec fn spec_address(&self) -> Pubkey {
        self.address
    }

    /// The key pair that signs.
    pub closed spec fn spec_keypair(&self) -> Keypair {
        self.keypair
    }

    pub fn new(keypair: Keypair) -> (r: SigningIdentity)
        ensures
            r.spec_keypair() == keypair,
            r.spec_address() == key_address(keypair),
    {
        let address = address_of(&keypair);
        SigningIdentity { keypair, address }
    }

    pub fn address(&self) -> (r: Pubkey)
        ensures
            r == self.spec_address(),
    {
        self.address
    }
}

/// One value transfer.
pub struct Transfer {
    pub from: Pubkey,
    pub to: Pubkey,
    pub lamports: u64,
}

/// An unsigned reward transaction: its fee payer, the addresses that must
/// sign it, its transfers and the checkpoint reference it is bound to.
pub struct RewardTransaction {
    pub fee_payer: Pubkey,
    pub signers: Vec<Pubkey>,
    pub transfers: Vec<Transfer>,
    pub freshness: solana_sdk::hash::Hash,
}

impl RewardTransaction {
    /// The addresses that receive value.
    pub open spec fn recipients(&self) -> Seq<Pubkey> {
        self.transfers@.map_values(|t: Transfer| t.to)
    }

    /// One transfer to one recipient, with one signer that is also the fee
    /// payer and the sender.
    pub open spec fn is_single_party(&self) -> bool {
        &&& self.signers@ == seq![self.fee_payer]
        &&& self.transfers@.len() == 1
        &&& self.transfers@[0].from == self.fee_payer
    }

    /// The reward of `REWARD_AMOUNT` from `identity` to `target`, bound to
    /// `freshness`.
    pub fn reward(
        identity: &SigningIdentity,
        target: Pubkey,
        freshness: solana_sdk::hash::Hash,
    ) -> (r: RewardTransaction)
        ensures
            r.is_single_party(),
            r.fee_payer == identity.spec_address(),
            r.transfers@[0] == (Transfer {
                from: identity.spec_address(),
                to: target,
                lamports: REWARD_AMOUNT,
            }),
            r.recipients() == seq![target],
            r.freshness == freshness,
    {
        let payer = identity.address();
        let mut signers: Vec<Pubkey> = Vec::new();
        signers.push(payer);
        let mut transfers: Vec<Transfer> = Vec::new();
        transfers.push(Transfer { from: payer, to: target, lamports: REWARD_AMOUNT });
        let r = RewardTransaction { fee_payer: payer, signers, transfers, freshness };
        assert(r.signers@ =~= seq![r.fee_payer]);
        assert(r.recipients() =~= seq![target]);
        r
    }
}

/// The signed ledger transaction `t` carries the reward `tx`: one signer and
/// one signature slot, the fee payer first among the accounts, one instruction
/// that moves `tx`'s amount from the fee payer to `tx`'s recipient, and the
/// message bound to `tx`'s checkpoint reference.
pub open spec fn carries(t: Transaction, tx: RewardTransaction) -> bool {
    let keys = t.message.account_keys@;
    let ix = t.message.instructions@[0];
    &&& t.signatures@.len() == 1
    &&& t.message.header.num_required_signatures == 1
    &&& t.message.header.num_readonly_signed_accounts == 0
    &&& keys.len() >= 1
    &&& keys[0] == tx.fee_payer
    &&& t.message.recent_blockhash == tx.freshness
    &&& t.message.instructions@.len() == 1
    &&& ix.accounts@.len() == 2
    &&& ix.accounts@[0] == 0
    &&& ix.accounts@[1] < keys.len()
    &&& keys[ix.accounts@[1] as int] == tx.transfers@[0].to
    &&& ix.data@ == transfer_data(tx.transfers@[0].lamports)
}

/// Builds the ledger transaction that `tx` describes and signs it with
/// `identity`, its only signer and fee payer.
pub fn sign_reward(identity: &SigningIdentity, tx: &RewardTransaction) -> (r: Transaction)
    requires
        tx.is_single_party(),
        tx.fee_payer == identity.spec_address(),
    ensures
        carries(r, *tx),
{
    proof {
        use_type_invariant(identity);
    }
    let t = &tx.transfers[0];
    let mut instructions: Vec<Instruction> = Vec::new();
    instructions.push(transfer_instruction(&t.from, &t.to, t.lamports));
    let mut transaction = unsigned_transaction(&instructions, &tx.fee_payer);
    let signed = try_sign(&mut transaction, &identity.keypair, tx.freshness);
    assert(signed is Ok);
    transaction
}

} // verus!
