use crate::codec::{parse_movie, MyMovie};
use spl_token::state::Account as TokenAccount;
use solana_program::program_pack::Pack;
use vstd::bytes::spec_u64_from_le_bytes;
use vstd::prelude::*;

verus! {

/// What a read of an account's raw bytes came back with.
#[derive(Clone, Debug)]
pub enum AccountFetch {
    /// The account exists and holds these bytes.
    Found(Vec<u8>),
    /// No account lives at the address.
    NotFound,
    /// The ledger could not be reached.
    Unavailable,
}

/// Why a read of account state failed.
#[derive(Clone, Copy, Debug, PartialEq, Eq, Structural)]
pub enum ReadError {
    /// No account lives at the address.
    NotFound,
    /// The account's bytes do not match the expected layout.
    MalformedRecord,
    /// The ledger could not be reached.
    Unavailable,
}

/// A four-byte option tag that is 0 or 1 in little-endian form.
pub open spec fn option_tag_ok(b: Seq<u8>, at: int) -> bool {
    (b[at] == 0 || b[at] == 1) && b[at + 1] == 0 && b[at + 2] == 0 && b[at + 3] == 0
}

/// The token account layout: mint, owner, amount, delegate option, state
/// (initialized or frozen), native option, delegated amount and close
/// authority option, 165 bytes in all.
pub open spec fn token_account_ok(b: Seq<u8>) -> bool {
    &&& b.len() == 165
    &&& option_tag_ok(b, 72)
    &&& (b[108] == 1 || b[108] == 2)
    &&& option_tag_ok(b, 109)
    &&& option_tag_ok(b, 129)
}

/// The amount field of a token account.
pub open spec fn token_amount(b: Seq<u8>) -> u64 {
    spec_u64_from_le_bytes(b.subrange(64, 72))
}

/// Relies on `spl_token::state::Account::unpack`: accepts exactly an
/// initialized token account of the packed length, with valid option tags,
/// and reads its amount.
#[verifier::external_body]
fn unpack_token_amount(data: &[u8]) -> (r: Option<u64>)
    ensures
        r is Some <==> token_account_ok(data@),
        r matches Some(amount) ==> amount == token_amount(data@),
{
    TokenAccount::unpack(data).ok().map(|a| a.amount)
}

/// The balance of a token account, in the token's base units, from what a
/// read of its address came back with.
pub fn check_account_balance(fetched: &AccountFetch) -> (r: Result<u64, ReadError>)
    ensures
        match fetched {
            AccountFetch::Found(data) => if token_account_ok(data@) {
                r == Ok::<u64, ReadError>(token_amount(data@))
            } else {
                r == Err::<u64, ReadError>(ReadError::MalformedRecord)
            },
            AccountFetch::NotFound => r == Err::<u64, ReadError>(ReadError::NotFound),
            AccountFetch::Unavailable => r == Err::<u64, ReadError>(ReadError::Unavailable),
        },
{
    match fetched {
        AccountFetch::Found(data) => match unpack_token_amount(data.as_slice()) {
            Some(amount) => Ok(amount),
            None => Err(ReadError::MalformedRecord),
        },
        AccountFetch::NotFound => Err(ReadError::NotFound),
        AccountFetch::Unavailable => Err(ReadError::Unavailable),
    }
}

/// The review record stored in a movie program account, from what a read
/// of its derived address came back with.
pub fn fetch_deserialise_my_movie(fetched: &AccountFetch) -> (r: Result<MyMovie, ReadError>)
    ensures
        match fetched {
            AccountFetch::Found(data) => match parse_movie(data@) {
                Some(m) => r matches Ok(v) && v@ == m,
                None => r matches Err(ReadError::MalformedRecord),
            },
            AccountFetch::NotFound => r matches Err(ReadError::NotFound),
            AccountFetch::Unavailable => r matches Err(ReadError::Unavailable),
        },
{
    match fetched {
        AccountFetch::Found(data) => match MyMovie::decode(data.as_slice()) {
            Ok(m) => Ok(m),
            Err(_) => Err(ReadError::MalformedRecord),
        },
        AccountFetch::NotFound => Err(ReadError::NotFound),
        AccountFetch::Unavailable => Err(ReadError::Unavailable),
    }
}

} // verus!
