use movie_ledger_client::address::{derive_address, parse_address, Address, DerivationError};
use movie_ledger_client::codec::{field_fits, MyMovie, MyMovieInstruction};
use movie_ledger_client::instruction::{ping_instruction, review_instruction, transfer_instruction};
use movie_ledger_client::state::{
    check_account_balance, fetch_deserialise_my_movie, AccountFetch, ReadError,
};
use movie_ledger_client::transaction::{
    compose, initialize_token_account, initialize_token_mint, mint_to_account,
    movie_review_transaction, review_address, review_transaction, ComposeError, Transaction,
    MINT_LEN, MOVIE_PROGRAM_ADDRESS, TOKEN_ACCOUNT_LEN,
};
use movie_ledger_client::workflow::{MintPlan, MintStage};
use solana_program::program_pack::Pack;
use solana_program::pubkey::Pubkey;
use std::str::FromStr;

const TOKEN_PROGRAM: [u8; 32] = [
    6, 221, 246, 225, 215, 101, 161, 147, 217, 203, 225, 70, 206, 235, 121, 172, 28, 180, 133,
    237, 95, 91, 55, 145, 58, 140, 245, 133, 126, 255, 0, 169,
];
const RENT_SYSVAR: [u8; 32] = [
    6, 167, 213, 23, 25, 44, 92, 81, 33, 140, 201, 76, 61, 74, 241, 127, 88, 218, 238, 8, 155,
    161, 253, 68, 227, 219, 217, 138, 0, 0, 0, 0,
];

fn addr(b: u8) -> Address {
    Address::new([b; 32])
}

fn roles(ix: &movie_ledger_client::instruction::Instruction) -> Vec<([u8; 32], bool, bool)> {
    ix.accounts.iter().map(|a| (a.address.bytes, a.is_signer, a.is_writable)).collect()
}

fn string_field(s: &str) -> Vec<u8> {
    let mut v = (s.len() as u32).to_le_bytes().to_vec();
    v.extend_from_slice(s.as_bytes());
    v
}

fn movie_program() -> Address {
    parse_address(MOVIE_PROGRAM_ADDRESS).unwrap()
}

#[test]
fn parse_address_matches_ledger_parser() {
    let a = movie_program();
    assert_eq!(a.bytes, Pubkey::from_str(MOVIE_PROGRAM_ADDRESS).unwrap().to_bytes());
    assert_eq!(a.bytes[0], 173);
    assert!(parse_address("not-an-address!").is_err());
    assert!(parse_address("").is_err());
}

#[test]
fn derive_is_deterministic() {
    let seeds = vec![vec![1u8, 2, 3], b"seed".to_vec()];
    let program = addr(7);
    let r1 = derive_address(&program, &seeds).unwrap();
    let r2 = derive_address(&program, &seeds).unwrap();
    assert_eq!(r1.0.bytes, r2.0.bytes);
    assert_eq!(r1.1, r2.1);
    let slices: Vec<&[u8]> = seeds.iter().map(|s| s.as_slice()).collect();
    let (key, bump) = Pubkey::find_program_address(&slices, &Pubkey::new_from_array([7; 32]));
    assert_eq!(r1.0.bytes, key.to_bytes());
    assert_eq!(r1.1, bump);
}

#[test]
fn derive_seed_order_matters() {
    let program = addr(7);
    let a = derive_address(&program, &vec![b"one".to_vec(), b"two".to_vec()]).unwrap();
    let b = derive_address(&program, &vec![b"two".to_vec(), b"one".to_vec()]).unwrap();
    assert_ne!(a.0.bytes, b.0.bytes);
}

#[test]
fn derive_rejects_oversized_seeds() {
    let program = addr(7);
    let long = vec![vec![0u8; 33]];
    assert_eq!(derive_address(&program, &long).unwrap_err(), DerivationError);
    let many: Vec<Vec<u8>> = (0..16).map(|i| vec![i as u8]).collect();
    assert!(derive_address(&program, &many).is_err());
}

#[test]
fn review_address_is_stable_for_incredibles() {
    let program = movie_program();
    let owner = addr(42);
    let title = "The Incredibles".to_string();
    let a = review_address(&program, &owner, &title).unwrap();
    let b = review_address(&program, &owner, &title).unwrap();
    assert_eq!(a.bytes, b.bytes);
    let (key, _) = Pubkey::find_program_address(
        &[&[42u8; 32], b"The Incredibles"],
        &Pubkey::from_str(MOVIE_PROGRAM_ADDRESS).unwrap(),
    );
    assert_eq!(a.bytes, key.to_bytes());
}

#[test]
fn review_instruction_golden() {
    let review = MyMovieInstruction {
        variant: 0,
        title: "Up".to_string(),
        rating: 4,
        description: "ok".to_string(),
    };
    let ix = review_instruction(&addr(9), &addr(1), &addr(2), &review);
    assert_eq!(ix.program_id.bytes, [9; 32]);
    assert_eq!(ix.data, vec![0, 2, 0, 0, 0, b'U', b'p', 4, 2, 0, 0, 0, b'o', b'k']);
    assert_eq!(roles(&ix), vec![([1; 32], true, true), ([2; 32], false, true), ([0; 32], false, false)]);
}

#[test]
fn ping_instruction_golden() {
    let ix = ping_instruction(&addr(5));
    assert_eq!(ix.program_id.bytes, [5; 32]);
    assert!(ix.accounts.is_empty());
    assert!(ix.data.is_empty());
}

#[test]
fn transfer_instruction_golden() {
    let ix = transfer_instruction(&addr(1), &addr(2), 1_000);
    assert_eq!(ix.program_id.bytes, [0; 32]);
    assert_eq!(ix.data, vec![2, 0, 0, 0, 0xe8, 0x03, 0, 0, 0, 0, 0, 0]);
    assert_eq!(roles(&ix), vec![([1; 32], true, true), ([2; 32], false, true)]);
}

#[test]
fn movie_review_transaction_golden() {
    let sender = addr(3);
    let t = movie_review_transaction(&sender, [8; 32]).unwrap();
    assert_eq!(t.instructions.len(), 1);
    let ix = &t.instructions[0];
    assert_eq!(ix.program_id.bytes, movie_program().bytes);
    let mut data = vec![0u8];
    data.extend(string_field("The Incredibles"));
    data.push(5);
    data.extend(string_field("A movie about a little family with super powers."));
    assert_eq!(ix.data, data);
    let record = review_address(&movie_program(), &sender, &"The Incredibles".to_string()).unwrap();
    assert_eq!(roles(ix), vec![([3; 32], true, true), (record.bytes, false, true), ([0; 32], false, false)]);
    assert_eq!(t.payer.bytes, [3; 32]);
    assert_eq!(t.signers.len(), 1);
    assert_eq!(t.recent_blockhash, [8; 32]);
}

#[test]
fn review_transaction_reuses_read_address() {
    let review = MyMovieInstruction {
        variant: 0,
        title: "Heat".to_string(),
        rating: 3,
        description: "long".to_string(),
    };
    let t = review_transaction(&addr(9), &addr(4), &review, [0; 32]).unwrap();
    let record = review_address(&addr(9), &addr(4), &review.title).unwrap();
    assert_eq!(t.instructions[0].accounts[1].address.bytes, record.bytes);
}

#[test]
fn initialize_token_mint_golden() {
    let t = initialize_token_mint(&addr(1), &addr(2), 1_461_600, [7; 32]).unwrap();
    assert_eq!(t.instructions.len(), 2);
    let create = &t.instructions[0];
    assert_eq!(create.program_id.bytes, [0; 32]);
    let mut data = vec![0u8, 0, 0, 0];
    data.extend(1_461_600u64.to_le_bytes());
    data.extend(82u64.to_le_bytes());
    data.extend(TOKEN_PROGRAM);
    assert_eq!(create.data, data);
    assert_eq!(roles(create), vec![([1; 32], true, true), ([2; 32], true, true)]);
    let init = &t.instructions[1];
    assert_eq!(init.program_id.bytes, TOKEN_PROGRAM);
    let mut data = vec![0u8, 9];
    data.extend([1u8; 32]);
    data.push(0);
    assert_eq!(init.data, data);
    assert_eq!(roles(init), vec![([2; 32], false, true), (RENT_SYSVAR, false, false)]);
    let signers: Vec<[u8; 32]> = t.signers.iter().map(|s| s.bytes).collect();
    assert_eq!(signers, vec![[1; 32], [2; 32]]);
    assert_eq!(t.payer.bytes, [1; 32]);
}

#[test]
fn initialize_token_account_golden() {
    let t = initialize_token_account(&addr(1), &addr(2), &addr(3), 2_039_280, [7; 32]).unwrap();
    let create = &t.instructions[0];
    let mut data = vec![0u8, 0, 0, 0];
    data.extend(2_039_280u64.to_le_bytes());
    data.extend(165u64.to_le_bytes());
    data.extend(TOKEN_PROGRAM);
    assert_eq!(create.data, data);
    assert_eq!(roles(create), vec![([1; 32], true, true), ([3; 32], true, true)]);
    let init = &t.instructions[1];
    assert_eq!(init.program_id.bytes, TOKEN_PROGRAM);
    assert_eq!(init.data, vec![1]);
    assert_eq!(
        roles(init),
        vec![([3; 32], false, true), ([2; 32], false, false), ([1; 32], false, false), (RENT_SYSVAR, false, false)]
    );
    let signers: Vec<[u8; 32]> = t.signers.iter().map(|s| s.bytes).collect();
    assert_eq!(signers, vec![[1; 32], [3; 32]]);
}

#[test]
fn mint_to_account_golden() {
    let t = mint_to_account(&addr(1), &addr(2), &addr(3), 100, [7; 32]).unwrap();
    assert_eq!(t.instructions.len(), 1);
    let ix = &t.instructions[0];
    assert_eq!(ix.program_id.bytes, TOKEN_PROGRAM);
    assert_eq!(ix.data, vec![7, 100, 0, 0, 0, 0, 0, 0, 0]);
    assert_eq!(
        roles(ix),
        vec![([2; 32], false, true), ([3; 32], false, true), ([1; 32], false, false), ([1; 32], true, false)]
    );
    assert_eq!(t.signers.len(), 1);
}

#[test]
fn layout_sizes_match_token_program() {
    assert_eq!(MINT_LEN as usize, spl_token::state::Mint::LEN);
    assert_eq!(TOKEN_ACCOUNT_LEN as usize, spl_token::state::Account::LEN);
    assert_eq!(spl_token::id().to_bytes(), TOKEN_PROGRAM);
    assert_eq!(solana_program::sysvar::rent::id().to_bytes(), RENT_SYSVAR);
}

#[test]
fn compose_rejects_missing_signer() {
    let ix = initialize_token_mint(&addr(1), &addr(2), 10, [0; 32]).unwrap().instructions;
    let r = compose(ix, addr(1), vec![addr(1)], [0; 32]);
    match r {
        Err(ComposeError::MissingSigner(a)) => assert_eq!(a.bytes, [2; 32]),
        _ => panic!("expected a missing signer"),
    }
}

#[test]
fn compose_rejects_unsigned_payer() {
    let ix = vec![ping_instruction(&addr(5))];
    let r = compose(ix, addr(1), vec![], [0; 32]);
    assert!(matches!(r, Err(ComposeError::MissingSigner(a)) if a.bytes == [1; 32]));
}

#[test]
fn compose_accepts_all_signers_in_any_order() {
    let ix = initialize_token_mint(&addr(1), &addr(2), 10, [0; 32]).unwrap().instructions;
    let t: Transaction = compose(ix, addr(1), vec![addr(2), addr(1)], [4; 32]).unwrap();
    assert_eq!(t.instructions.len(), 2);
    assert_eq!(t.recent_blockhash, [4; 32]);
}

#[test]
fn movie_record_round_trip() {
    let m = MyMovie {
        initialized: true,
        rating: 5,
        title: "The Incredibles".to_string(),
        description: "Famille à super-pouvoirs".to_string(),
    };
    let bytes = m.encode();
    let back = MyMovie::decode(&bytes).unwrap();
    assert!(back.initialized);
    assert_eq!(back.rating, 5);
    assert_eq!(back.title, m.title);
    assert_eq!(back.description, m.description);
    let mut expected = vec![1u8, 5];
    expected.extend(string_field("The Incredibles"));
    expected.extend(string_field("Famille à super-pouvoirs"));
    assert_eq!(bytes, expected);
}

#[test]
fn decode_short_buffer_fails() {
    assert!(MyMovie::decode(&[]).is_err());
    assert!(MyMovie::decode(&[1]).is_err());
    assert!(MyMovie::decode(&[1, 5, 3, 0, 0]).is_err());
    assert!(MyMovie::decode(&[1, 5, 3, 0, 0, 0, b'a', b'b']).is_err());
}

#[test]
fn decode_rejects_bad_layouts() {
    let mut good = vec![0u8, 2];
    good.extend(string_field("a"));
    good.extend(string_field("b"));
    assert!(MyMovie::decode(&good).is_ok());
    let mut bad_flag = good.clone();
    bad_flag[0] = 2;
    assert!(MyMovie::decode(&bad_flag).is_err());
    let mut trailing = good.clone();
    trailing.push(0);
    assert!(MyMovie::decode(&trailing).is_err());
    let mut bad_utf8 = vec![1u8, 2];
    bad_utf8.extend([1, 0, 0, 0, 0xff]);
    bad_utf8.extend(string_field("b"));
    assert!(MyMovie::decode(&bad_utf8).is_err());
}

#[test]
fn fetch_movie_outcomes() {
    let mut data = vec![1u8, 4];
    data.extend(string_field("Up"));
    data.extend(string_field("balloons"));
    let m = fetch_deserialise_my_movie(&AccountFetch::Found(data)).unwrap();
    assert_eq!(m.title, "Up");
    assert_eq!(m.description, "balloons");
    assert_eq!(m.rating, 4);
    assert!(matches!(fetch_deserialise_my_movie(&AccountFetch::NotFound), Err(ReadError::NotFound)));
    assert!(matches!(fetch_deserialise_my_movie(&AccountFetch::Unavailable), Err(ReadError::Unavailable)));
    assert!(matches!(
        fetch_deserialise_my_movie(&AccountFetch::Found(vec![1])),
        Err(ReadError::MalformedRecord)
    ));
}

fn token_account_bytes(amount: u64) -> Vec<u8> {
    let account = spl_token::state::Account {
        mint: Pubkey::new_from_array([2; 32]),
        owner: Pubkey::new_from_array([1; 32]),
        amount,
        state: spl_token::state::AccountState::Initialized,
        ..Default::default()
    };
    let mut data = vec![0u8; spl_token::state::Account::LEN];
    spl_token::state::Account::pack(account, &mut data).unwrap();
    data
}

#[test]
fn token_balance_reads_amount() {
    let data = token_account_bytes(123_456_789);
    assert_eq!(check_account_balance(&AccountFetch::Found(data)), Ok(123_456_789));
}

#[test]
fn token_balance_missing_account_is_not_found() {
    assert_eq!(check_account_balance(&AccountFetch::NotFound), Err(ReadError::NotFound));
    assert_eq!(check_account_balance(&AccountFetch::Unavailable), Err(ReadError::Unavailable));
}

#[test]
fn token_balance_rejects_other_layouts() {
    let mut uninitialized = token_account_bytes(5);
    uninitialized[108] = 0;
    assert_eq!(check_account_balance(&AccountFetch::Found(uninitialized)), Err(ReadError::MalformedRecord));
    let mut bad_tag = token_account_bytes(5);
    bad_tag[72] = 2;
    assert_eq!(check_account_balance(&AccountFetch::Found(bad_tag)), Err(ReadError::MalformedRecord));
    let mint_sized = vec![0u8; 82];
    assert_eq!(check_account_balance(&AccountFetch::Found(mint_sized)), Err(ReadError::MalformedRecord));
}

#[test]
fn workflow_failed_second_step_keeps_mint() {
    let plan = MintPlan {
        payer: addr(1),
        mint: addr(2),
        token_account: addr(3),
        mint_rent: 10,
        token_account_rent: 20,
        amount: 100,
    };
    let stage = MintStage::CreateMint;
    assert!(matches!(stage.next_transaction(&plan, [0; 32]), Some(Ok(_))));
    let stage = stage.advance(true);
    assert_eq!(stage, MintStage::CreateTokenAccount);
    let stage = stage.advance(false);
    assert_eq!(stage, MintStage::CreateTokenAccount);
    let t = stage.next_transaction(&plan, [1; 32]).unwrap().unwrap();
    assert_eq!(t.instructions[1].data, vec![1]);
    assert_eq!(t.instructions[0].accounts[1].address.bytes, [3; 32]);
    let stage = stage.advance(true).advance(true);
    assert_eq!(stage, MintStage::Finished);
    assert!(stage.next_transaction(&plan, [0; 32]).is_none());
}

#[test]
fn field_fits_ordinary_strings() {
    assert!(field_fits(&String::new()));
    assert!(field_fits(&"The Incredibles".to_string()));
    assert!(field_fits(&"é".repeat(1000)));
}

#[test]
fn review_payload_counts_utf8_bytes() {
    let review = MyMovieInstruction {
        variant: 0,
        title: "é".to_string(),
        rating: 1,
        description: String::new(),
    };
    assert_eq!(review.encode(), vec![0, 2, 0, 0, 0, 0xc3, 0xa9, 1, 0, 0, 0, 0]);
}
