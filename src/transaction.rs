use crate::address::{
    address_from_text, derive_address, parse_address, program_address_of, rent_sysvar_key,
    system_program_key, token_program_id, token_program_key, Address,
};
use crate::codec::{fits_field, review_payload, MyMovieInstruction};
use crate::instruction::{
    create_account_data, initialize_mint_data, mint_to_data, review_instruction,
    review_instruction_view, role, system_create_account, token_initialize_account,
    token_initialize_mint, token_mint_to, Instruction, InstructionView,
};
use vstd::prelude::*;
use vstd::string::{is_ascii, is_ascii_spec_bytes, StringExecFns};
use vstd::utf8::encode_utf8;

verus! {

/// Base-58 address of the movie-review program.
pub const MOVIE_PROGRAM_ADDRESS: &'static str = "CenYq6bDRB7p73EjsPEpiYN7uveyPUTdXkDkgUduboaN";

/// Size in bytes of a token mint account.
pub const MINT_LEN: u64 = 82;

/// Size in bytes of a token account.
pub const TOKEN_ACCOUNT_LEN: u64 = 165;

/// Decimals of the mints this library initializes.
pub const MINT_DECIMALS: u8 = 9;

/// Why a transaction could not be composed.
#[derive(Clone, Copy, Debug)]
pub enum ComposeError {
    /// An address text or a derivation that cannot succeed: fatal.
    Configuration,
    /// An account that must sign has no signature: caught before submission.
    MissingSigner(Address),
}

/// Instructions that succeed or fail together, the account that pays the
/// fee, the accounts that sign, and the recent block hash that bounds the
/// transaction's validity.
#[derive(Clone, Debug)]
pub struct Transaction {
    pub instructions: Vec<Instruction>,
    pub payer: Address,
    pub signers: Vec<Address>,
    pub recent_blockhash: [u8; 32],
}

/// A transaction as mathematical values.
pub struct TransactionView {
    pub instructions: Seq<InstructionView>,
    pub payer: Seq<u8>,
    pub signers: Seq<Seq<u8>>,
    pub recent_blockhash: Seq<u8>,
}

pub open spec fn address_views(s: Seq<Address>) -> Seq<Seq<u8>> {
    s.map_values(|a: Address| a@)
}

pub open spec fn instruction_views(s: Seq<Instruction>) -> Seq<InstructionView> {
    s.map_values(|i: Instruction| i@)
}

impl Transaction {
    pub open spec fn view(&self) -> TransactionView {
        TransactionView {
            instructions: instruction_views(self.instructions@),
            payer: self.payer@,
            signers: address_views(self.signers@),
            recent_blockhash: self.recent_blockhash@,
        }
    }
}

/// Whether `a` must sign: it pays the fee, or some instruction marks it as
/// a signer.
pub open spec fn must_sign(instructions: Seq<InstructionView>, payer: Seq<u8>, a: Seq<u8>) -> bool {
    a == payer || exists|i: int, j: int|
        0 <= i < instructions.len() && 0 <= j < instructions[i].accounts.len()
            && #[trigger] instructions[i].accounts[j].is_signer
            && instructions[i].accounts[j].address == a
}

/// Every account that must sign is among the signers.
pub open spec fn all_signed(instructions: Seq<InstructionView>, payer: Seq<u8>, signers: Seq<Seq<u8>>) -> bool {
    forall|a: Seq<u8>| must_sign(instructions, payer, a) ==> #[trigger] signers.contains(a)
}

fn is_listed(signers: &Vec<Address>, a: &Address) -> (r: bool)
    ensures
        r == address_views(signers@).contains(a@),
{
    let mut k: usize = 0;
    while k < signers.len()
        invariant
            k <= signers@.len(),
            forall|m: int| 0 <= m < k ==> signers@[m]@ != a@,
        decreases signers@.len() - k,
    {
        if signers[k].same(a) {
            assert(address_views(signers@)[k as int] == a@);
            return true;
        }
        k = k + 1;
    }
    proof {
        if address_views(signers@).contains(a@) {
            let m = choose|m: int| 0 <= m < address_views(signers@).len() && address_views(signers@)[m] == a@;
            assert(signers@[m]@ == a@);
        }
    }
    false
}

/// Bundles `instructions` into one transaction paid by `payer`, after
/// checking that every account that must sign is among `signers`.
pub fn compose(
    instructions: Vec<Instruction>,
    payer: Address,
    signers: Vec<Address>,
    recent_blockhash: [u8; 32],
) -> (r: Result<Transaction, ComposeError>)
    ensures
        match r {
            Ok(t) => all_signed(instruction_views(instructions@), payer@, address_views(signers@))
                && t@ == (TransactionView {
                    instructions: instruction_views(instructions@),
                    payer: payer@,
                    signers: address_views(signers@),
                    recent_blockhash: recent_blockhash@,
                }),
            Err(e) => !all_signed(instruction_views(instructions@), payer@, address_views(signers@))
                && (e matches ComposeError::MissingSigner(a)
                && must_sign(instruction_views(instructions@), payer@, a@)
                && !address_views(signers@).contains(a@)),
        },
{
    let ghost ixs = instruction_views(instructions@);
    let ghost sv = address_views(signers@);
    if !is_listed(&signers, &payer) {
        return Err(ComposeError::MissingSigner(payer));
    }
    let mut i: usize = 0;
    while i < instructions.len()
        invariant
            ixs == instruction_views(instructions@),
            sv == address_views(signers@),
            i <= instructions@.len(),
            sv.contains(payer@),
            forall|p: int, q: int|
                0 <= p < i && 0 <= q < ixs[p].accounts.len() && #[trigger] ixs[p].accounts[q].is_signer
                    ==> sv.contains(ixs[p].accounts[q].address),
        decreases instructions@.len() - i,
    {
        let accounts = &instructions[i].accounts;
        let mut j: usize = 0;
        while j < accounts.len()
            invariant
                ixs == instruction_views(instructions@),
                sv == address_views(signers@),
                i < instructions@.len(),
                accounts@ == instructions@[i as int].accounts@,
                j <= accounts@.len(),
                sv.contains(payer@),
                forall|p: int, q: int|
                    0 <= p < i && 0 <= q < ixs[p].accounts.len() && #[trigger] ixs[p].accounts[q].is_signer
                        ==> sv.contains(ixs[p].accounts[q].address),
                forall|q: int|
                    0 <= q < j && #[trigger] ixs[i as int].accounts[q].is_signer
                        ==> sv.contains(ixs[i as int].accounts[q].address),
            decreases accounts@.len() - j,
        {
            let role = &accounts[j];
            assert(ixs[i as int].accounts[j as int] == role@);
            if role.is_signer && !is_listed(&signers, &role.address) {
                proof {
                    assert(ixs[i as int].accounts[j as int].is_signer);
                    assert(must_sign(ixs, payer@, role.address@));
                }
                return Err(ComposeError::MissingSigner(role.address));
            }
            j = j + 1;
        }
        i = i + 1;
    }
    let t = Transaction { instructions, payer, signers, recent_blockhash };
    assert(all_signed(ixs, payer@, sv));
    Ok(t)
}

fn address_vec(a: &Address) -> (r: Vec<u8>)
    ensures
        r@ == a@,
{
    let mut r: Vec<u8> = Vec::new();
    let mut i: usize = 0;
    while i < 32
        invariant
            i <= 32,
            r@ == a@.subrange(0, i as int),
        decreases 32 - i,
    {
        r.push(a.bytes[i]);
        i = i + 1;
        assert(r@ =~= a@.subrange(0, i as int));
    }
    assert(a@.subrange(0, 32) =~= a@);
    r
}

/// Seeds of the record account that holds `owner`'s review of `title`.
pub open spec fn review_seeds(owner: Seq<u8>, title: Seq<char>) -> Seq<Seq<u8>> {
    seq![owner, encode_utf8(title)]
}

/// The derived account that holds `owner`'s review of `title` under the
/// movie program `program_id`; the same address serves the submission and
/// the later read.
pub fn review_address(program_id: &Address, owner: &Address, title: &String) -> (r: Result<Address, ComposeError>)
    ensures
        match program_address_of(review_seeds(owner@, title@), program_id@) {
            Some((a, _)) => r matches Ok(x) && x@ == a,
            None => r matches Err(ComposeError::Configuration),
        },
{
    let mut seeds: Vec<Vec<u8>> = Vec::new();
    let owner_bytes = address_vec(owner);
    let title_bytes = title.as_str().as_bytes_vec();
    seeds.push(owner_bytes);
    seeds.push(title_bytes);
    assert(seeds.deep_view()[0] =~= owner_bytes@);
    assert(seeds.deep_view()[1] =~= title_bytes@);
    assert(seeds.deep_view() =~= review_seeds(owner@, title@));
    match derive_address(program_id, &seeds) {
        Ok((a, _)) => Ok(a),
        Err(_) => Err(ComposeError::Configuration),
    }
}

/// The one-instruction transaction by which `sender` submits `review` to
/// the movie program `program_id`, signed and paid by `sender`.
pub fn review_transaction(
    program_id: &Address,
    sender: &Address,
    review: &MyMovieInstruction,
    recent_blockhash: [u8; 32],
) -> (r: Result<Transaction, ComposeError>)
    requires
        fits_field(review.title@),
        fits_field(review.description@),
    ensures
        match program_address_of(review_seeds(sender@, review.title@), program_id@) {
            Some((record, _)) => r matches Ok(t) && t@ == (TransactionView {
                instructions: seq![review_instruction_view(
                    program_id@,
                    sender@,
                    record,
                    review_payload(review.variant, review.title@, review.rating, review.description@),
                )],
                payer: sender@,
                signers: seq![sender@],
                recent_blockhash: recent_blockhash@,
            }),
            None => r matches Err(ComposeError::Configuration),
        },
{
    let record = match review_address(program_id, sender, &review.title) {
        Ok(a) => a,
        Err(e) => return Err(e),
    };
    let ix = review_instruction(program_id, sender, &record, review);
    let mut instructions: Vec<Instruction> = Vec::new();
    instructions.push(ix);
    let mut signers: Vec<Address> = Vec::new();
    signers.push(*sender);
    assert(instruction_views(instructions@) =~= seq![ix@]);
    assert(address_views(signers@) =~= seq![sender@]);
    assert(all_signed(instruction_views(instructions@), sender@, address_views(signers@))) by {
        assert forall|a: Seq<u8>| must_sign(instruction_views(instructions@), sender@, a)
            implies #[trigger] address_views(signers@).contains(a) by {
            assert(address_views(signers@)[0] == sender@);
        }
    }
    compose(instructions, *sender, signers, recent_blockhash)
}

/// Title of the review that `movie_review_transaction` submits.
pub open spec fn review_title() -> Seq<char> {
    "The Incredibles"@
}

/// Description of the review that `movie_review_transaction` submits.
pub open spec fn review_description() -> Seq<char> {
    "A movie about a little family with super powers."@
}

/// Submission by `sender` of a five-star review of "The Incredibles" to the
/// movie program at `MOVIE_PROGRAM_ADDRESS`.
pub fn movie_review_transaction(sender: &Address, recent_blockhash: [u8; 32]) -> (r: Result<Transaction, ComposeError>)
    ensures
        match address_from_text(MOVIE_PROGRAM_ADDRESS@) {
            None => r matches Err(ComposeError::Configuration),
            Some(program_id) => match program_address_of(review_seeds(sender@, review_title()), program_id) {
                Some((record, _)) => r matches Ok(t) && t@ == (TransactionView {
                    instructions: seq![review_instruction_view(
                        program_id,
                        sender@,
                        record,
                        review_payload(0, review_title(), 5, review_description()),
                    )],
                    payer: sender@,
                    signers: seq![sender@],
                    recent_blockhash: recent_blockhash@,
                }),
                None => r matches Err(ComposeError::Configuration),
            },
        },
{
    let program_id = match parse_address(MOVIE_PROGRAM_ADDRESS) {
        Ok(a) => a,
        Err(_) => return Err(ComposeError::Configuration),
    };
    let title_text = "The Incredibles";
    let description_text = "A movie about a little family with super powers.";
    proof {
        reveal_strlit("The Incredibles");
        reveal_strlit("A movie about a little family with super powers.");
        is_ascii_spec_bytes(title_text);
        is_ascii_spec_bytes(description_text);
        assert(is_ascii(title_text));
        assert(is_ascii(description_text));
    }
    let movie_data = MyMovieInstruction {
        variant: 0,
        title: String::from_str(title_text),
        rating: 5,
        description: String::from_str(description_text),
    };
    review_transaction(&program_id, sender, &movie_data, recent_blockhash)
}

/// The two account roles a co-signed account creation adds.
proof fn lemma_two_signers(ixs: Seq<InstructionView>, payer: Seq<u8>, other: Seq<u8>, signers: Seq<Seq<u8>>)
    requires
        signers == seq![payer, other],
        forall|i: int, j: int| 0 <= i < ixs.len() && 0 <= j < ixs[i].accounts.len() && ixs[i].accounts[j].is_signer
            ==> ixs[i].accounts[j].address == payer || ixs[i].accounts[j].address == other,
    ensures
        all_signed(ixs, payer, signers),
{
    assert forall|a: Seq<u8>| must_sign(ixs, payer, a) implies #[trigger] signers.contains(a) by {
        assert(signers[0] == payer);
        assert(signers[1] == other);
    }
}

/// The transaction that creates and initializes a mint.
pub open spec fn mint_transaction_view(payer: Seq<u8>, mint: Seq<u8>, rent_lamports: u64, recent_blockhash: Seq<u8>) -> TransactionView {
    TransactionView {
        instructions: seq![
            InstructionView {
                program_id: system_program_key(),
                accounts: seq![role(payer, true, true), role(mint, true, true)],
                data: create_account_data(rent_lamports, MINT_LEN, token_program_key()),
            },
            InstructionView {
                program_id: token_program_key(),
                accounts: seq![role(mint, false, true), role(rent_sysvar_key(), false, false)],
                data: initialize_mint_data(MINT_DECIMALS, payer, None),
            },
        ],
        payer: payer,
        signers: seq![payer, mint],
        recent_blockhash: recent_blockhash,
    }
}

/// Creation of the mint account `mint`, funded by `payer` with
/// `rent_lamports` and owned by the token program, and its initialization
/// with `payer` as mint authority, no freeze authority and nine decimals:
/// one transaction signed by `payer` and `mint`.
pub fn initialize_token_mint(payer: &Address, mint: &Address, rent_lamports: u64, recent_blockhash: [u8; 32]) -> (r: Result<Transaction, ComposeError>)
    ensures
        r matches Ok(t) && t@ == mint_transaction_view(payer@, mint@, rent_lamports, recent_blockhash@),
{
    let token_program = token_program_id();
    let create = system_create_account(payer, mint, rent_lamports, MINT_LEN, &token_program);
    let init = match token_initialize_mint(&token_program, mint, payer, None, MINT_DECIMALS) {
        Some(ix) => ix,
        None => return Err(ComposeError::Configuration),
    };
    let mut instructions: Vec<Instruction> = Vec::new();
    instructions.push(create);
    instructions.push(init);
    let mut signers: Vec<Address> = Vec::new();
    signers.push(*payer);
    signers.push(*mint);
    assert(instruction_views(instructions@) =~= seq![create@, init@]);
    assert(address_views(signers@) =~= seq![payer@, mint@]);
    proof {
        lemma_two_signers(seq![create@, init@], payer@, mint@, seq![payer@, mint@]);
    }
    compose(instructions, *payer, signers, recent_blockhash)
}

/// The transaction that creates and initializes a token account.
pub open spec fn token_account_transaction_view(payer: Seq<u8>, mint: Seq<u8>, token_account: Seq<u8>, rent_lamports: u64, recent_blockhash: Seq<u8>) -> TransactionView {
    TransactionView {
        instructions: seq![
            InstructionView {
                program_id: system_program_key(),
                accounts: seq![role(payer, true, true), role(token_account, true, true)],
                data: create_account_data(rent_lamports, TOKEN_ACCOUNT_LEN, token_program_key()),
            },
            InstructionView {
                program_id: token_program_key(),
                accounts: seq![
                    role(token_account, false, true),
                    role(mint, false, false),
                    role(payer, false, false),
                    role(rent_sysvar_key(), false, false),
                ],
                data: seq![1u8],
            },
        ],
        payer: payer,
        signers: seq![payer, token_account],
        recent_blockhash: recent_blockhash,
    }
}

/// Creation of the token account `token_account`, funded by `payer` with
/// `rent_lamports` and owned by the token program, and its initialization
/// for `mint` with `payer` as owner: one transaction signed by `payer` and
/// `token_account`.
pub fn initialize_token_account(
    payer: &Address,
    mint: &Address,
    token_account: &Address,
    rent_lamports: u64,
    recent_blockhash: [u8; 32],
) -> (r: Result<Transaction, ComposeError>)
    ensures
        r matches Ok(t) && t@ == token_account_transaction_view(payer@, mint@, token_account@, rent_lamports, recent_blockhash@),
{
    let token_program = token_program_id();
    let create = system_create_account(payer, token_account, rent_lamports, TOKEN_ACCOUNT_LEN, &token_program);
    let init = match token_initialize_account(&token_program, token_account, mint, payer) {
        Some(ix) => ix,
        None => return Err(ComposeError::Configuration),
    };
    let mut instructions: Vec<Instruction> = Vec::new();
    instructions.push(create);
    instructions.push(init);
    let mut signers: Vec<Address> = Vec::new();
    signers.push(*payer);
    signers.push(*token_account);
    assert(instruction_views(instructions@) =~= seq![create@, init@]);
    assert(address_views(signers@) =~= seq![payer@, token_account@]);
    proof {
        lemma_two_signers(seq![create@, init@], payer@, token_account@, seq![payer@, token_account@]);
    }
    compose(instructions, *payer, signers, recent_blockhash)
}

/// The transaction that mints into a token account.
pub open spec fn mint_to_transaction_view(payer: Seq<u8>, mint: Seq<u8>, token_account: Seq<u8>, amount: u64, recent_blockhash: Seq<u8>) -> TransactionView {
    TransactionView {
        instructions: seq![
            InstructionView {
                program_id: token_program_key(),
                accounts: seq![
                    role(mint, false, true),
                    role(token_account, false, true),
                    role(payer, false, false),
                    role(payer, true, false),
                ],
                data: mint_to_data(amount),
            },
        ],
        payer: payer,
        signers: seq![payer],
        recent_blockhash: recent_blockhash,
    }
}

/// Minting of `amount` base units of `mint` into `token_account`, with
/// `payer` as mint authority listed as the one co-signer: one transaction
/// signed by `payer`.
pub fn mint_to_account(
    payer: &Address,
    mint: &Address,
    token_account: &Address,
    amount: u64,
    recent_blockhash: [u8; 32],
) -> (r: Result<Transaction, ComposeError>)
    ensures
        r matches Ok(t) && t@ == mint_to_transaction_view(payer@, mint@, token_account@, amount, recent_blockhash@),
{
    let token_program = token_program_id();
    let mut co_signers: Vec<Address> = Vec::new();
    co_signers.push(*payer);
    assert(co_signers@.map_values(|s: Address| s@) =~= seq![payer@]);
    let ix = match token_mint_to(&token_program, mint, token_account, payer, &co_signers, amount) {
        Some(ix) => ix,
        None => return Err(ComposeError::Configuration),
    };
    assert(ix@.accounts =~= seq![
        role(mint@, false, true),
        role(token_account@, false, true),
        role(payer@, false, false),
        role(payer@, true, false),
    ]);
    let mut instructions: Vec<Instruction> = Vec::new();
    instructions.push(ix);
    let mut signers: Vec<Address> = Vec::new();
    signers.push(*payer);
    assert(instruction_views(instructions@) =~= seq![ix@]);
    assert(address_views(signers@) =~= seq![payer@]);
    assert(all_signed(instruction_views(instructions@), payer@, address_views(signers@))) by {
        assert forall|a: Seq<u8>| must_sign(instruction_views(instructions@), payer@, a)
            implies #[trigger] address_views(signers@).contains(a) by {
            assert(address_views(signers@)[0] == payer@);
        }
    }
    compose(instructions, *payer, signers, recent_blockhash)
}

} // verus!
