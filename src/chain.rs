//! The ledger-client values that the library handles, and the few calls into
//! the ledger SDK that it makes. Addresses, key pairs, checkpoint references
//! and signatures are opaque here; instructions and transactions are seen
//! through their public fields.
use solana_sdk::instruction::{AccountMeta, Instruction};
use solana_sdk::message::compiled_instruction::CompiledInstruction;
use solana_sdk::message::{Message, MessageHeader};
use solana_sdk::pubkey::Pubkey;
use solana_sdk::signature::Signature;
use solana_sdk::signer::keypair::Keypair;
use solana_sdk::signer::{Signer, SignerError};
use solana_sdk::transaction::Transaction;
use vstd::prelude::*;

verus! {

/// An account address of the ledger.
#[verifier::external_type_specification]
#[verifier::external_body]
pub struct ExPubkey(Pubkey);

/// A key pair that can sign transactions.
#[verifier::external_type_specification]
#[verifier::external_body]
pub struct ExKeypair(Keypair);

/// A recent ledger checkpoint reference, which binds a transaction in time.
#[verifier::external_type_specification]
#[verifier::external_body]
pub struct ExHash(solana_sdk::hash::Hash);

/// A signature over a transaction's message.
#[verifier::external_type_specification]
#[verifier::external_body]
pub struct ExSignature(Signature);

/// Why a slice could not become an array (signatures are built from byte
/// arrays).
#[verifier::external_type_specification]
#[verifier::external_body]
pub struct ExTryFromSliceError(core::array::TryFromSliceError);

/// Why signing a transaction failed.
#[verifier::external_type_specification]
#[verifier::external_body]
pub struct ExSignerError(SignerError);

/// An account that an instruction reads or writes.
#[verifier::external_type_specification]
pub struct ExAccountMeta(AccountMeta);

/// One instruction, before it is compiled into a message.
#[verifier::external_type_specification]
pub struct ExInstruction(Instruction);

/// How many of a message's accounts sign, and how many are read-only.
#[verifier::external_type_specification]
pub struct ExMessageHeader(MessageHeader);

/// One instruction of a message, naming accounts by their index.
#[verifier::external_type_specification]
pub struct ExCompiledInstruction(CompiledInstruction);

/// What a transaction's signatures sign.
#[verifier::external_type_specification]
pub struct ExMessage(Message);

/// A ledger transaction: a message and one signature slot per signer.
#[verifier::external_type_specification]
pub struct ExTransaction(Transaction);

/// The public address of a key pair.
pub uninterp spec fn key_address(keypair: Keypair) -> Pubkey;

/// The bytes of `n`, least significant first.
pub open spec fn le_bytes(n: u64) -> Seq<u8> {
    seq![
        (n % 0x100) as u8,
        ((n / 0x100) % 0x100) as u8,
        ((n / 0x1_0000) % 0x100) as u8,
        ((n / 0x100_0000) % 0x100) as u8,
        ((n / 0x1_0000_0000) % 0x100) as u8,
        ((n / 0x100_0000_0000) % 0x100) as u8,
        ((n / 0x1_0000_0000_0000) % 0x100) as u8,
        ((n / 0x100_0000_0000_0000) % 0x100) as u8,
    ]
}

/// The data of a system-program transfer of `lamports`: the variant index of
/// `Transfer` (2) as four bytes, then the amount as eight, both little-endian.
pub open spec fn transfer_data(lamports: u64) -> Seq<u8> {
    seq![2u8, 0u8, 0u8, 0u8] + le_bytes(lamports)
}

/// Relies on `Pubkey::new_unique`: a fresh address drawn from a process-wide
/// counter. What it returns depends on how often it was called before, so
/// nothing is stated of it.
#[verifier::external_body]
pub(crate) fn placeholder_address() -> (r: Pubkey) {
    Pubkey::new_unique()
}

/// Relies on `Signer::pubkey` for `Keypair`: the public address of the key
/// pair, a function of the key pair alone.
#[verifier::external_body]
pub(crate) fn address_of(keypair: &Keypair) -> (r: Pubkey)
    ensures
        r == key_address(*keypair),
{
    keypair.pubkey()
}

/// Relies on `system_instruction::transfer`: an instruction that moves
/// `lamports` from `from`, which signs and is written, to `to`, which is
/// written; its data is the bincode encoding of `Transfer { lamports }`.
#[verifier::external_body]
pub(crate) fn transfer_instruction(from: &Pubkey, to: &Pubkey, lamports: u64) -> (r: Instruction)
    ensures
        r.accounts@ == seq![
            AccountMeta { pubkey: *from, is_signer: true, is_writable: true },
            AccountMeta { pubkey: *to, is_signer: false, is_writable: true },
        ],
        r.data@ == transfer_data(lamports),
{
    solana_sdk::system_instruction::transfer(from, to, lamports)
}

/// Relies on `Transaction::new_with_payer`, for one instruction whose first
/// account is `payer` (signing, written) and whose second account does not
/// sign. The payer is then the only signer and the first account key; the
/// instruction is compiled to name `payer` and its second account by index;
/// there is one empty signature slot. With at most three distinct keys, the
/// signer count fits in a byte and the call does not panic.
#[verifier::external_body]
pub(crate) fn unsigned_transaction(instructions: &Vec<Instruction>, payer: &Pubkey) -> (r: Transaction)
    requires
        instructions@.len() == 1,
        instructions@[0].accounts@.len() == 2,
        instructions@[0].accounts@[0] == (AccountMeta { pubkey: *payer, is_signer: true, is_writable: true }),
        !instructions@[0].accounts@[1].is_signer,
    ensures
        r.signatures@.len() == 1,
        r.message.header.num_required_signatures == 1,
        r.message.header.num_readonly_signed_accounts == 0,
        1 <= r.message.account_keys@.len() <= 3,
        r.message.account_keys@[0] == *payer,
        r.message.instructions@.len() == 1,
        r.message.instructions@[0].accounts@.len() == 2,
        r.message.instructions@[0].accounts@[0] == 0,
        r.message.instructions@[0].accounts@[1] < r.message.account_keys@.len(),
        r.message.account_keys@[r.message.instructions@[0].accounts@[1] as int]
            == instructions@[0].accounts@[1].pubkey,
        r.message.instructions@[0].program_id_index < r.message.account_keys@.len(),
        r.message.account_keys@[r.message.instructions@[0].program_id_index as int]
            == instructions@[0].program_id,
        r.message.instructions@[0].data@ == instructions@[0].data@,
{
    Transaction::new_with_payer(instructions.as_slice(), Some(payer))
}

/// Relies on `Transaction::try_sign`. It binds the message to `freshness` and
/// signs it with `keypair`. It succeeds when the message has one signer and
/// that signer is the key pair's address: an ed25519 signature is never all
/// zeros, so the slot no longer holds the default signature. It leaves the
/// header, the account keys and the instructions as they were. The signature
/// slots are indexed by signer position, so `requires` asks for one slot per
/// signer. The message is serialized with short-vec lengths, which fail (and
/// the call panics) above `u16::MAX`, so `requires` keeps every length of the
/// message within that bound.
#[verifier::external_body]
pub(crate) fn try_sign(
    transaction: &mut Transaction,
    keypair: &Keypair,
    freshness: solana_sdk::hash::Hash,
) -> (r: Result<(), SignerError>)
    requires
        old(transaction).signatures@.len() == old(transaction).message.header.num_required_signatures,
        old(transaction).message.account_keys@.len() <= 0xffff,
        old(transaction).message.instructions@.len() <= 0xffff,
        forall|i: int|
            0 <= i < old(transaction).message.instructions@.len() ==> {
                &&& (#[trigger] old(transaction).message.instructions@[i]).accounts@.len() <= 0xffff
                &&& old(transaction).message.instructions@[i].data@.len() <= 0xffff
            },
    ensures
        (old(transaction).message.header.num_required_signatures == 1
            && old(transaction).message.account_keys@.len() >= 1
            && old(transaction).message.account_keys@[0] == key_address(*keypair)) ==> r is Ok,
        r is Ok ==> final(transaction).message.recent_blockhash == freshness,
        r is Ok ==> final(transaction).message.header == old(transaction).message.header,
        r is Ok ==> final(transaction).message.account_keys == old(transaction).message.account_keys,
        r is Ok ==> final(transaction).message.instructions == old(transaction).message.instructions,
        r is Ok ==> final(transaction).signatures@.len() == old(transaction).signatures@.len(),
{
    transaction.try_sign(&[keypair], freshness)
}

} // verus!
