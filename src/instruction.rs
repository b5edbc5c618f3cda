use crate::address::{
    rent_sysvar_key, system_program_id, system_program_key, token_program_key, Address,
};
use crate::codec::{fits_field, review_payload, MyMovieInstruction};
use solana_program::instruction::Instruction as LedgerInstruction;
use solana_program::pubkey::Pubkey;
use vstd::bytes::{spec_u32_to_le_bytes, spec_u64_to_le_bytes};
use vstd::prelude::*;

verus! {

#[verifier::external_type_specification]
#[verifier::external_body]
pub struct ExLedgerInstruction(LedgerInstruction);

/// How an instruction uses one account: whether it must sign and whether
/// it may be written.
#[derive(Clone, Copy, Debug)]
pub struct AccountRole {
    pub address: Address,
    pub is_signer: bool,
    pub is_writable: bool,
}

/// An account role as mathematical values.
pub struct RoleView {
    pub address: Seq<u8>,
    pub is_signer: bool,
    pub is_writable: bool,
}

pub open spec fn role(address: Seq<u8>, is_signer: bool, is_writable: bool) -> RoleView {
    RoleView { address, is_signer, is_writable }
}

impl AccountRole {
    pub open spec fn view(&self) -> RoleView {
        role(self.address@, self.is_signer, self.is_writable)
    }
}

/// A call of one program: its id, the accounts it touches in the order the
/// program expects them, and the payload bytes.
#[derive(Clone, Debug)]
pub struct Instruction {
    pub program_id: Address,
    pub accounts: Vec<AccountRole>,
    pub data: Vec<u8>,
}

/// An instruction as mathematical values.
pub struct InstructionView {
    pub program_id: Seq<u8>,
    pub accounts: Seq<RoleView>,
    pub data: Seq<u8>,
}

impl Instruction {
    pub open spec fn view(&self) -> InstructionView {
        InstructionView {
            program_id: self.program_id@,
            accounts: self.accounts@.map_values(|a: AccountRole| a@),
            data: self.data@,
        }
    }
}

/// Relies on nothing but field moves: the ledger crate's instruction
/// carried over into this library's type.
#[verifier::external_body]
fn from_ledger(ix: LedgerInstruction) -> Instruction {
    let accounts = ix.accounts.iter().map(|m| AccountRole {
        address: Address { bytes: m.pubkey.to_bytes() },
        is_signer: m.is_signer,
        is_writable: m.is_writable,
    }).collect();
    Instruction { program_id: Address { bytes: ix.program_id.to_bytes() }, accounts, data: ix.data }
}

/// Payload of the system program's account creation.
pub open spec fn create_account_data(lamports: u64, space: u64, owner: Seq<u8>) -> Seq<u8> {
    spec_u32_to_le_bytes(0) + spec_u64_to_le_bytes(lamports) + spec_u64_to_le_bytes(space) + owner
}

/// Payload of the system program's transfer.
pub open spec fn transfer_data(lamports: u64) -> Seq<u8> {
    spec_u32_to_le_bytes(2) + spec_u64_to_le_bytes(lamports)
}

/// Payload of the token program's mint initialization.
pub open spec fn initialize_mint_data(decimals: u8, authority: Seq<u8>, freeze: Option<Seq<u8>>) -> Seq<u8> {
    seq![0u8, decimals] + authority + match freeze {
        Some(f) => seq![1u8] + f,
        None => seq![0u8],
    }
}

/// Payload of the token program's mint-to.
pub open spec fn mint_to_data(amount: u64) -> Seq<u8> {
    seq![7u8] + spec_u64_to_le_bytes(amount)
}

/// Relies on `system_instruction::create_account`: the funder and the new
/// account both sign, and the payload is the bincode form of the call.
#[verifier::external_body]
pub(crate) fn system_create_account(from: &Address, to: &Address, lamports: u64, space: u64, owner: &Address) -> (r: Instruction)
    ensures
        r@ == (InstructionView {
            program_id: system_program_key(),
            accounts: seq![role(from@, true, true), role(to@, true, true)],
            data: create_account_data(lamports, space, owner@),
        }),
{
    let (f, t, o) = (Pubkey::new_from_array(from.bytes), Pubkey::new_from_array(to.bytes), Pubkey::new_from_array(owner.bytes));
    from_ledger(solana_program::system_instruction::create_account(&f, &t, lamports, space, &o))
}

/// Relies on `system_instruction::transfer`: the sender signs, both
/// accounts are written.
#[verifier::external_body]
fn system_transfer(from: &Address, to: &Address, lamports: u64) -> (r: Instruction)
    ensures
        r@ == (InstructionView {
            program_id: system_program_key(),
            accounts: seq![role(from@, true, true), role(to@, false, true)],
            data: transfer_data(lamports),
        }),
{
    let (f, t) = (Pubkey::new_from_array(from.bytes), Pubkey::new_from_array(to.bytes));
    from_ledger(solana_program::system_instruction::transfer(&f, &t, lamports))
}

/// Relies on `spl_token::instruction::initialize_mint`: refuses any program
/// id but the token program's; else the mint is written and the rent sysvar
/// read.
#[verifier::external_body]
pub(crate) fn token_initialize_mint(token_program: &Address, mint: &Address, authority: &Address, freeze: Option<Address>, decimals: u8) -> (r: Option<Instruction>)
    ensures
        r is Some <==> token_program@ == token_program_key(),
        r matches Some(ix) ==> ix@ == (InstructionView {
            program_id: token_program@,
            accounts: seq![role(mint@, false, true), role(rent_sysvar_key(), false, false)],
            data: initialize_mint_data(decimals, authority@, match freeze { Some(f) => Some(f@), None => None }),
        }),
{
    let k = |a: &Address| Pubkey::new_from_array(a.bytes);
    let f = freeze.map(|a| k(&a));
    spl_token::instruction::initialize_mint(&k(token_program), &k(mint), &k(authority), f.as_ref(), decimals)
        .ok().map(from_ledger)
}

/// Relies on `spl_token::instruction::initialize_account`: refuses any
/// program id but the token program's; else only the new account is written.
#[verifier::external_body]
pub(crate) fn token_initialize_account(token_program: &Address, account: &Address, mint: &Address, owner: &Address) -> (r: Option<Instruction>)
    ensures
        r is Some <==> token_program@ == token_program_key(),
        r matches Some(ix) ==> ix@ == (InstructionView {
            program_id: token_program@,
            accounts: seq![
                role(account@, false, true),
                role(mint@, false, false),
                role(owner@, false, false),
                role(rent_sysvar_key(), false, false),
            ],
            data: seq![1u8],
        }),
{
    let k = |a: &Address| Pubkey::new_from_array(a.bytes);
    spl_token::instruction::initialize_account(&k(token_program), &k(account), &k(mint), &k(owner))
        .ok().map(from_ledger)
}

/// The accounts of a mint-to: mint and destination written, then the
/// authority, which signs itself only when no co-signers are listed.
pub open spec fn mint_to_accounts(mint: Seq<u8>, account: Seq<u8>, owner: Seq<u8>, signers: Seq<Seq<u8>>) -> Seq<RoleView> {
    seq![role(mint, false, true), role(account, false, true), role(owner, signers.len() == 0, false)]
        + signers.map_values(|s: Seq<u8>| role(s, true, false))
}

/// Relies on `spl_token::instruction::mint_to`: refuses any program id but
/// the token program's.
#[verifier::external_body]
pub(crate) fn token_mint_to(token_program: &Address, mint: &Address, account: &Address, owner: &Address, signers: &Vec<Address>, amount: u64) -> (r: Option<Instruction>)
    ensures
        r is Some <==> token_program@ == token_program_key(),
        r matches Some(ix) ==> ix@ == (InstructionView {
            program_id: token_program@,
            accounts: mint_to_accounts(mint@, account@, owner@, signers@.map_values(|s: Address| s@)),
            data: mint_to_data(amount),
        }),
{
    let k = |a: &Address| Pubkey::new_from_array(a.bytes);
    let keys: Vec<Pubkey> = signers.iter().map(k).collect();
    let refs: Vec<&Pubkey> = keys.iter().collect();
    spl_token::instruction::mint_to(&k(token_program), &k(mint), &k(account), &k(owner), &refs, amount)
        .ok().map(from_ledger)
}

/// The movie program's review submission: the sender signs and pays, the
/// record's derived account is written, and the system program is passed
/// read-only so that the program can create that account.
pub open spec fn review_instruction_view(
    program_id: Seq<u8>,
    payer: Seq<u8>,
    record: Seq<u8>,
    payload: Seq<u8>,
) -> InstructionView {
    InstructionView {
        program_id,
        accounts: seq![role(payer, true, true), role(record, false, true), role(system_program_key(), false, false)],
        data: payload,
    }
}

/// Builds the review submission of `review` by `payer` into the record
/// account `record`.
pub fn review_instruction(program_id: &Address, payer: &Address, record: &Address, review: &MyMovieInstruction) -> (r: Instruction)
    requires
        fits_field(review.title@),
        fits_field(review.description@),
    ensures
        r@ == review_instruction_view(
            program_id@,
            payer@,
            record@,
            review_payload(review.variant, review.title@, review.rating, review.description@),
        ),
{
    let mut accounts: Vec<AccountRole> = Vec::new();
    accounts.push(AccountRole { address: *payer, is_signer: true, is_writable: true });
    accounts.push(AccountRole { address: *record, is_signer: false, is_writable: true });
    accounts.push(AccountRole { address: system_program_id(), is_signer: false, is_writable: false });
    let r = Instruction { program_id: *program_id, accounts, data: review.encode() };
    assert(r@.accounts =~= review_instruction_view(program_id@, payer@, record@, r.data@).accounts);
    r
}

/// Builds a call of a program that takes no accounts and no payload.
pub fn ping_instruction(program_id: &Address) -> (r: Instruction)
    ensures
        r@ == (InstructionView { program_id: program_id@, accounts: Seq::empty(), data: Seq::empty() }),
{
    let r = Instruction { program_id: *program_id, accounts: Vec::new(), data: Vec::new() };
    assert(r@.accounts =~= Seq::<RoleView>::empty());
    r
}

/// Builds a transfer of `lamports` from `from`, which signs, to `to`.
pub fn transfer_instruction(from: &Address, to: &Address, lamports: u64) -> (r: Instruction)
    ensures
        r@ == (InstructionView {
            program_id: system_program_key(),
            accounts: seq![role(from@, true, true), role(to@, false, true)],
            data: transfer_data(lamports),
        }),
{
    system_transfer(from, to, lamports)
}

} // verus!
