use vstd::bytes::{
    lemma_auto_spec_u32_to_from_le_bytes, spec_u32_from_le_bytes, spec_u32_to_le_bytes,
    u32_from_le_bytes, u32_to_le_bytes,
};
use vstd::prelude::*;
use vstd::slice::slice_subrange;
use vstd::string::StringSliceAdditionalSpecFns;
use vstd::utf8::{decode_utf8, encode_utf8, encode_utf8_decode_utf8, encode_utf8_valid_utf8, valid_utf8};

verus! {

/// Payload of the movie program's review submission: a variant tag
/// followed by the review's fields.
pub struct MyMovieInstruction {
    pub variant: u8,
    pub title: String,
    pub rating: u8,
    pub description: String,
}

/// A review record as the movie program stores it in a derived account.
pub struct MyMovie {
    pub initialized: bool,
    pub rating: u8,
    pub title: String,
    pub description: String,
}

/// The fields of a review record as mathematical values.
pub struct MovieRecord {
    pub initialized: bool,
    pub rating: u8,
    pub title: Seq<char>,
    pub description: Seq<char>,
}

impl MyMovie {
    pub open spec fn view(&self) -> MovieRecord {
        MovieRecord {
            initialized: self.initialized,
            rating: self.rating,
            title: self.title@,
            description: self.description@,
        }
    }
}

/// A record could not be decoded from the given bytes.
#[derive(Clone, Copy, Debug, PartialEq, Eq, Structural)]
pub struct DecodeError;

/// A string field whose UTF-8 length fits the four-byte length prefix.
pub open spec fn fits_field(s: Seq<char>) -> bool {
    encode_utf8(s).len() <= u32::MAX
}

/// Wire form of a string field: its UTF-8 length as four little-endian
/// bytes, then the UTF-8 bytes.
pub open spec fn string_field(s: Seq<char>) -> Seq<u8> {
    spec_u32_to_le_bytes(encode_utf8(s).len() as u32) + encode_utf8(s)
}

/// Wire form of a review submission.
pub open spec fn review_payload(variant: u8, title: Seq<char>, rating: u8, description: Seq<char>) -> Seq<u8> {
    seq![variant] + string_field(title) + seq![rating] + string_field(description)
}

/// Wire form of a review record.
pub open spec fn movie_bytes(m: MovieRecord) -> Seq<u8> {
    seq![if m.initialized { 1u8 } else { 0u8 }, m.rating] + string_field(m.title) + string_field(
        m.description,
    )
}

/// The string field at the front of `b`, with the number of bytes it spans.
pub open spec fn parse_string_field(b: Seq<u8>) -> Option<(Seq<char>, int)> {
    if b.len() < 4 {
        None
    } else {
        let n = spec_u32_from_le_bytes(b.subrange(0, 4)) as int;
        if b.len() < 4 + n {
            None
        } else if !valid_utf8(b.subrange(4, 4 + n)) {
            None
        } else {
            Some((decode_utf8(b.subrange(4, 4 + n)), 4 + n))
        }
    }
}

/// The review record that `b` holds exactly, if any: a flag byte that is 0
/// or 1, the rating, two string fields, and no byte more.
pub open spec fn parse_movie(b: Seq<u8>) -> Option<MovieRecord> {
    if b.len() < 2 || b[0] > 1 {
        None
    } else {
        match parse_string_field(b.subrange(2, b.len() as int)) {
            None => None,
            Some((title, k)) => match parse_string_field(b.subrange(2 + k, b.len() as int)) {
                None => None,
                Some((description, j)) => if 2 + k + j == b.len() {
                    Some(MovieRecord { initialized: b[0] == 1, rating: b[1], title, description })
                } else {
                    None
                },
            },
        }
    }
}

/// A string field followed by any bytes parses back to its characters and
/// its own length.
pub proof fn lemma_string_field_parse(s: Seq<char>, rest: Seq<u8>)
    requires
        fits_field(s),
    ensures
        parse_string_field(string_field(s) + rest) == Some((s, string_field(s).len() as int)),
{
    lemma_auto_spec_u32_to_from_le_bytes();
    encode_utf8_valid_utf8(s);
    encode_utf8_decode_utf8(s);
    let e = encode_utf8(s);
    let b = string_field(s) + rest;
    let n = e.len() as int;
    assert(b.subrange(0, 4) =~= spec_u32_to_le_bytes(n as u32));
    assert(b.subrange(4, 4 + n) =~= e);
}

/// Decoding the stored form of a record gives back the same record, field
/// for field.
pub proof fn lemma_movie_round_trip(m: MovieRecord)
    requires
        fits_field(m.title),
        fits_field(m.description),
    ensures
        parse_movie(movie_bytes(m)) == Some(m),
{
    let b = movie_bytes(m);
    let t = string_field(m.title);
    let d = string_field(m.description);
    assert(b.subrange(2, b.len() as int) =~= t + d);
    lemma_string_field_parse(m.title, d);
    assert(b.subrange(2 + t.len() as int, b.len() as int) =~= d + Seq::<u8>::empty());
    lemma_string_field_parse(m.description, Seq::<u8>::empty());
    assert(d + Seq::<u8>::empty() =~= d);
}

/// Relies on `std::str::from_utf8`: succeeds exactly on valid UTF-8 and
/// then views the same bytes.
#[verifier::external_body]
fn utf8_str(b: &[u8]) -> (r: Option<&str>)
    ensures
        r is Some <==> valid_utf8(b@),
        r matches Some(s) ==> s.spec_bytes() == b@,
{
    std::str::from_utf8(b).ok()
}

/// Whether `s` can stand in a string field, its UTF-8 length fitting the
/// four-byte prefix.
pub fn field_fits(s: &String) -> (r: bool)
    ensures
        r == fits_field(s@),
{
    let n = s.as_str().as_bytes().len();
    n as u64 <= u32::MAX as u64
}

fn append_bytes(out: &mut Vec<u8>, b: &[u8])
    ensures
        final(out)@ == old(out)@ + b@,
{
    let mut i: usize = 0;
    while i < b.len()
        invariant
            i <= b@.len(),
            out@ == old(out)@ + b@.subrange(0, i as int),
        decreases b@.len() - i,
    {
        out.push(b[i]);
        i = i + 1;
        assert(b@.subrange(0, i as int) =~= b@.subrange(0, i - 1) + seq![b@[i - 1]]);
    }
    assert(b@.subrange(0, i as int) =~= b@);
}

fn append_string_field(out: &mut Vec<u8>, s: &String)
    requires
        fits_field(s@),
    ensures
        final(out)@ == old(out)@ + string_field(s@),
{
    let bytes = s.as_str().as_bytes();
    let n = bytes.len();
    let prefix = u32_to_le_bytes(n as u32);
    append_bytes(out, prefix.as_slice());
    append_bytes(out, bytes);
    assert(out@ =~= old(out)@ + string_field(s@));
}

/// The string field at position `pos` of `b`, with the position after it.
fn read_string_field(b: &[u8], pos: usize) -> (r: Option<(String, usize)>)
    requires
        pos <= b@.len(),
    ensures
        match parse_string_field(b@.subrange(pos as int, b@.len() as int)) {
            None => r is None,
            Some((cs, k)) => r matches Some((s, e)) && s@ == cs && e == pos + k,
        },
{
    let ghost rest = b@.subrange(pos as int, b@.len() as int);
    if b.len() - pos < 4 {
        return None;
    }
    let len_bytes = slice_subrange(b, pos, pos + 4);
    assert(len_bytes@ =~= rest.subrange(0, 4));
    let n = u32_from_le_bytes(len_bytes) as usize;
    if b.len() - pos - 4 < n {
        return None;
    }
    let body = slice_subrange(b, pos + 4, pos + 4 + n);
    assert(body@ =~= rest.subrange(4, 4 + n));
    match utf8_str(body) {
        None => None,
        Some(text) => {
            proof {
                encode_utf8_decode_utf8(text@);
            }
            Some((text.to_owned(), pos + 4 + n))
        },
    }
}

impl MyMovieInstruction {
    /// The payload bytes of this review submission.
    pub fn encode(&self) -> (r: Vec<u8>)
        requires
            fits_field(self.title@),
            fits_field(self.description@),
        ensures
            r@ == review_payload(self.variant, self.title@, self.rating, self.description@),
    {
        let mut out: Vec<u8> = Vec::new();
        out.push(self.variant);
        append_string_field(&mut out, &self.title);
        out.push(self.rating);
        append_string_field(&mut out, &self.description);
        assert(out@ =~= review_payload(self.variant, self.title@, self.rating, self.description@));
        out
    }
}

impl MyMovie {
    /// The stored form of this record.
    pub fn encode(&self) -> (r: Vec<u8>)
        requires
            fits_field(self.title@),
            fits_field(self.description@),
        ensures
            r@ == movie_bytes(self@),
    {
        let mut out: Vec<u8> = Vec::new();
        out.push(if self.initialized { 1u8 } else { 0u8 });
        out.push(self.rating);
        append_string_field(&mut out, &self.title);
        append_string_field(&mut out, &self.description);
        assert(out@ =~= movie_bytes(self@));
        out
    }

    /// Decodes a record that spans `data` exactly.
    pub fn decode(data: &[u8]) -> (r: Result<MyMovie, DecodeError>)
        ensures
            match parse_movie(data@) {
                None => r is Err,
                Some(m) => r matches Ok(v) && v@ == m,
            },
    {
        if data.len() < 2 || data[0] > 1 {
            return Err(DecodeError);
        }
        let initialized = data[0] == 1;
        let rating = data[1];
        match read_string_field(data, 2) {
            None => Err(DecodeError),
            Some((title, p)) => {
                assert(data@.subrange(p as int, data@.len() as int) =~= data@.subrange(2, data@.len() as int).subrange(p - 2, data@.len() - 2));
                match read_string_field(data, p) {
                    None => Err(DecodeError),
                    Some((description, e)) => {
                        if e == data.len() {
                            Ok(MyMovie { initialized, rating, title, description })
                        } else {
                            Err(DecodeError)
                        }
                    },
                }
            },
        }
    }
}

} // verus!
