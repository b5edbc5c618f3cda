use solana_program::pubkey::Pubkey;
use std::str::FromStr;
use vstd::prelude::*;

verus! {

/// Width in bytes of a ledger address.
pub const ADDRESS_LEN: usize = 32;

/// A ledger address: an account or program identifier of fixed width.
#[derive(Clone, Copy, Debug)]
pub struct Address {
    pub bytes: [u8; 32],
}

impl Address {
    pub open spec fn view(&self) -> Seq<u8> {
        self.bytes@
    }

    pub fn new(bytes: [u8; 32]) -> (r: Address)
        ensures
            r.bytes == bytes,
    {
        Address { bytes }
    }

    /// Byte-wise comparison of two addresses.
    pub fn same(&self, o: &Address) -> (r: bool)
        ensures
            r == (self@ == o@),
    {
        let mut i: usize = 0;
        while i < ADDRESS_LEN
            invariant
                i <= 32,
                forall|j: int| 0 <= j < i ==> self@[j] == o@[j],
            decreases 32 - i,
        {
            if self.bytes[i] != o.bytes[i] {
                return false;
            }
            i = i + 1;
        }
        assert(self@ =~= o@);
        true
    }
}

impl PartialEq for Address {
    fn eq(&self, o: &Address) -> (r: bool) {
        self.same(o)
    }
}

impl vstd::std_specs::cmp::PartialEqSpecImpl for Address {
    open spec fn obeys_eq_spec() -> bool {
        true
    }

    open spec fn eq_spec(&self, o: &Address) -> bool {
        self@ == o@
    }
}

impl Eq for Address {
}

/// The address derived from `seeds` under `program_id` by the ledger's
/// canonical search, with its bump seed; `None` when no bump yields an
/// address off the curve or the seeds exceed the ledger's limits.
pub uninterp spec fn program_address_of(seeds: Seq<Seq<u8>>, program_id: Seq<u8>) -> Option<(Seq<u8>, u8)>;

/// Relies on `Pubkey::try_find_program_address`: a pure function of the
/// seeds and program id.
#[verifier::external_body]
fn find_program_address(seeds: &Vec<Vec<u8>>, program_id: &Address) -> (r: Option<(Address, u8)>)
    ensures
        match r {
            Some((a, b)) => program_address_of(seeds.deep_view(), program_id.bytes@) == Some((a.bytes@, b)),
            None => program_address_of(seeds.deep_view(), program_id.bytes@) is None,
        },
        seeds@.len() >= 16 ==> r is None,
        (exists|i: int| 0 <= i < seeds@.len() && seeds@[i]@.len() > 32) ==> r is None,
{
    let slices: Vec<&[u8]> = seeds.iter().map(|s| s.as_slice()).collect();
    let id = Pubkey::new_from_array(program_id.bytes);
    Pubkey::try_find_program_address(&slices, &id)
        .map(|(a, b)| (Address { bytes: a.to_bytes() }, b))
}

/// The search for a derived address found no usable bump seed, or the
/// seeds exceed the ledger's limits.
#[derive(Clone, Copy, Debug, PartialEq, Eq, Structural)]
pub struct DerivationError;

/// What `derive_address` owes for the given program id and seeds.
pub open spec fn derive_result(
    program_id: Seq<u8>,
    seeds: Seq<Seq<u8>>,
    r: Result<(Address, u8), DerivationError>,
) -> bool {
    match program_address_of(seeds, program_id) {
        Some((a, b)) => r matches Ok((x, y)) && x@ == a && y == b,
        None => r is Err,
    }
}

/// The program-derived address of `seeds` under `program_id`, with its bump.
pub fn derive_address(program_id: &Address, seeds: &Vec<Vec<u8>>) -> (r: Result<(Address, u8), DerivationError>)
    ensures
        derive_result(program_id@, seeds.deep_view(), r),
        seeds@.len() >= 16 ==> r is Err,
        (exists|i: int| 0 <= i < seeds@.len() && seeds@[i]@.len() > 32) ==> r is Err,
{
    match find_program_address(seeds, program_id) {
        Some(found) => Ok(found),
        None => Err(DerivationError),
    }
}

/// Derivation is deterministic: two results that `derive_address` may return for
/// the same program id and seeds are the same address and bump.
pub proof fn lemma_derive_deterministic(
    program_id: Seq<u8>,
    seeds: Seq<Seq<u8>>,
    r1: Result<(Address, u8), DerivationError>,
    r2: Result<(Address, u8), DerivationError>,
)
    requires
        derive_result(program_id, seeds, r1),
        derive_result(program_id, seeds, r2),
    ensures
        r1 is Ok <==> r2 is Ok,
        r1 matches Ok((a1, b1)) ==> r2 matches Ok((a2, b2)) && a1@ == a2@ && b1 == b2,
{
}

/// The address that a base-58 text names, if it names one.
pub uninterp spec fn address_from_text(text: Seq<char>) -> Option<Seq<u8>>;

/// Relies on `Pubkey::from_str`: base-58 decoding of exactly 32 bytes, a
/// function of the text alone.
#[verifier::external_body]
fn parse_pubkey(text: &str) -> (r: Option<Address>)
    ensures
        match r {
            Some(a) => address_from_text(text@) == Some(a@),
            None => address_from_text(text@) is None,
        },
{
    Pubkey::from_str(text).ok().map(|k| Address { bytes: k.to_bytes() })
}

/// An address string that does not name a 32-byte address.
#[derive(Clone, Copy, Debug, PartialEq, Eq, Structural)]
pub struct InvalidAddress;

/// Parses the base-58 text form of an address.
pub fn parse_address(text: &str) -> (r: Result<Address, InvalidAddress>)
    ensures
        match address_from_text(text@) {
            Some(a) => r matches Ok(x) && x@ == a,
            None => r is Err,
        },
{
    match parse_pubkey(text) {
        Some(a) => Ok(a),
        None => Err(InvalidAddress),
    }
}

/// The system program's address: all zero bytes.
pub open spec fn system_program_key() -> Seq<u8> {
    Seq::new(32, |i: int| 0u8)
}

/// The token program's address.
pub open spec fn token_program_key() -> Seq<u8> {
    seq![
        6u8, 221, 246, 225, 215, 101, 161, 147, 217, 203, 225, 70, 206, 235, 121, 172,
        28, 180, 133, 237, 95, 91, 55, 145, 58, 140, 245, 133, 126, 255, 0, 169,
    ]
}

/// The rent sysvar's address.
pub open spec fn rent_sysvar_key() -> Seq<u8> {
    seq![
        6u8, 167, 213, 23, 25, 44, 92, 81, 33, 140, 201, 76, 61, 74, 241, 127,
        88, 218, 238, 8, 155, 161, 253, 68, 227, 219, 217, 138, 0, 0, 0, 0,
    ]
}

/// Relies on `solana_program::system_program::id`.
#[verifier::external_body]
pub(crate) fn system_program_id() -> (r: Address)
    ensures
        r@ == system_program_key(),
{
    Address { bytes: solana_program::system_program::id().to_bytes() }
}

/// Relies on `spl_token::id`.
#[verifier::external_body]
pub(crate) fn token_program_id() -> (r: Address)
    ensures
        r@ == token_program_key(),
{
    Address { bytes: spl_token::id().to_bytes() }
}

} // verus!
