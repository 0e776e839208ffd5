use vstd::prelude::*;
use vstd::utf8::*;
use vstd::slice::slice_subrange;
use crate::address::Address;

verus! {

/// The capacity in bytes of every review slot.
pub const ACCOUNT_LEN: usize = 1000;

/// The bytes that the encoding of a string takes: a four-byte little-endian
/// length, then the UTF-8 bytes.
pub open spec fn str_size(byte_len: int) -> int {
    4 + byte_len
}

/// The size that a review counts against the slot capacity: the tag, the
/// initialized flag, the rating, the title and the review text, each string
/// with its length prefix.
pub open spec fn account_size(title_len: int, review_len: int) -> int {
    str_size(6) + 1 + 1 + str_size(title_len) + str_size(review_len)
}

/// The abstract content of a review record.
pub struct RecordView {
    pub discriminator: Seq<char>,
    pub is_initialized: bool,
    pub reviewer: Seq<u8>,
    pub title: Seq<char>,
    pub rating: u8,
    pub review: Seq<char>,
}

/// A review record as it is kept in its slot.
pub struct MovieAccountState {
    pub discriminator: String,
    pub is_initialized: bool,
    pub reviewer: Address,
    pub title: String,
    pub rating: u8,
    pub review: String,
}

impl View for MovieAccountState {
    type V = RecordView;

    open spec fn view(&self) -> RecordView {
        RecordView {
            discriminator: self.discriminator@,
            is_initialized: self.is_initialized,
            reviewer: self.reviewer@,
            title: self.title@,
            rating: self.rating,
            review: self.review@,
        }
    }
}

/// The tag that marks a slot as holding a review.
pub open spec fn review_tag() -> Seq<char> {
    seq!['r', 'e', 'v', 'i', 'e', 'w']
}

/// The four little-endian bytes of `n`.
pub open spec fn u32_le(n: u32) -> Seq<u8> {
    seq![
        (n & 0xff) as u8,
        ((n >> 8u32) & 0xff) as u8,
        ((n >> 16u32) & 0xff) as u8,
        ((n >> 24u32) & 0xff) as u8,
    ]
}

/// The integer whose little-endian bytes start at `at`.
pub open spec fn le_u32_at(b: Seq<u8>, at: int) -> u32 {
    (b[at] as u32) | ((b[at + 1] as u32) << 8u32) | ((b[at + 2] as u32) << 16u32) | ((b[at + 3] as u32) << 24u32)
}

/// A string's encoding: its UTF-8 length as four little-endian bytes, then its UTF-8 bytes.
pub open spec fn encode_str(s: Seq<char>) -> Seq<u8> {
    u32_le(encode_utf8(s).len() as u32) + encode_utf8(s)
}

pub open spec fn encode_bool(b: bool) -> u8 {
    if b { 1 } else { 0 }
}

/// A record's encoding, field after field.
pub open spec fn encode_record(v: RecordView) -> Seq<u8> {
    encode_str(v.discriminator) + seq![encode_bool(v.is_initialized)] + v.reviewer
        + encode_str(v.title) + seq![v.rating] + encode_str(v.review)
}

/// Whether a record can be encoded: an address of 32 bytes, and strings whose
/// length fits the four-byte prefix.
pub open spec fn encodable(v: RecordView) -> bool {
    &&& v.reviewer.len() == 32
    &&& encode_utf8(v.discriminator).len() <= u32::MAX
    &&& encode_utf8(v.title).len() <= u32::MAX
    &&& encode_utf8(v.review).len() <= u32::MAX
}

/// The string encoded at `at`, with the offset after it, or `None` where the
/// bytes there are not a length prefix followed by that many bytes of UTF-8.
pub open spec fn decode_str(b: Seq<u8>, at: int) -> Option<(Seq<char>, int)> {
    if 0 <= at && at + 4 <= b.len() {
        let end = at + 4 + le_u32_at(b, at) as int;
        if end <= b.len() && valid_utf8(b.subrange(at + 4, end)) {
            Some((decode_utf8(b.subrange(at + 4, end)), end))
        } else {
            None
        }
    } else {
        None
    }
}

/// The flag encoded at `at`: a byte that is 0 or 1.
pub open spec fn decode_bool(b: Seq<u8>, at: int) -> Option<bool> {
    if 0 <= at < b.len() && b[at] <= 1 {
        Some(b[at] == 1)
    } else {
        None
    }
}

/// The record encoded at the start of `b`, with its length; bytes after it are ignored.
pub open spec fn decode_record(b: Seq<u8>) -> Option<(RecordView, int)> {
    match decode_str(b, 0) {
        None => None,
        Some((discriminator, p1)) => match decode_bool(b, p1) {
            None => None,
            Some(is_initialized) => if p1 + 33 <= b.len() {
                let reviewer = b.subrange(p1 + 1, p1 + 33);
                match decode_str(b, p1 + 33) {
                    None => None,
                    Some((title, p2)) => if p2 < b.len() {
                        let rating = b[p2];
                        match decode_str(b, p2 + 1) {
                            None => None,
                            Some((review, p3)) => Some((
                                RecordView { discriminator, is_initialized, reviewer, title, rating, review },
                                p3,
                            )),
                        }
                    } else {
                        None
                    },
                }
            } else {
                None
            },
        },
    }
}

proof fn lemma_u32_le_round_trip(n: u32)
    ensures
        (((n & 0xff) as u8) as u32) | (((((n >> 8u32) & 0xff) as u8) as u32) << 8u32)
            | (((((n >> 16u32) & 0xff) as u8) as u32) << 16u32)
            | (((((n >> 24u32) & 0xff) as u8) as u32) << 24u32) == n,
{
    assert((((n & 0xff) as u8) as u32) | (((((n >> 8u32) & 0xff) as u8) as u32) << 8u32)
        | (((((n >> 16u32) & 0xff) as u8) as u32) << 16u32)
        | (((((n >> 24u32) & 0xff) as u8) as u32) << 24u32) == n) by (bit_vector);
}

/// Where a string's encoding stands at `at`, decoding there gives the string back.
proof fn lemma_decode_encoded_str(b: Seq<u8>, at: int, s: Seq<char>)
    requires
        0 <= at,
        at + encode_str(s).len() <= b.len(),
        b.subrange(at, at + encode_str(s).len()) == encode_str(s),
        encode_utf8(s).len() <= u32::MAX,
    ensures
        decode_str(b, at) == Some((s, at + encode_str(s).len())),
{
    let e = encode_str(s);
    let n = encode_utf8(s).len() as u32;
    assert(b[at] == e[0] && b[at + 1] == e[1] && b[at + 2] == e[2] && b[at + 3] == e[3]) by {
        assert(b.subrange(at, at + e.len())[0] == b[at]);
        assert(b.subrange(at, at + e.len())[1] == b[at + 1]);
        assert(b.subrange(at, at + e.len())[2] == b[at + 2]);
        assert(b.subrange(at, at + e.len())[3] == b[at + 3]);
    }
    lemma_u32_le_round_trip(n);
    assert(le_u32_at(b, at) == n);
    assert(b.subrange(at + 4, at + 4 + n as int) =~= encode_utf8(s)) by {
        assert(e.subrange(4, e.len() as int) =~= encode_utf8(s));
        assert(b.subrange(at + 4, at + 4 + n as int) =~= b.subrange(at, at + e.len()).subrange(4, e.len() as int));
    }
    encode_utf8_valid_utf8(s);
    encode_utf8_decode_utf8(s);
}

proof fn lemma_decoded_str(b: Seq<u8>, at: int)
    requires
        decode_str(b, at) is Some,
    ensures
        decode_str(b, at) matches Some((s, end)) && encode_utf8(s).len() <= u32::MAX && end == at + 4
            + encode_utf8(s).len(),
{
    let end = at + 4 + le_u32_at(b, at) as int;
    decode_utf8_encode_utf8(b.subrange(at + 4, end));
}

/// A record decoded from bytes can be encoded again.
pub proof fn lemma_decoded_encodable(b: Seq<u8>)
    requires
        decode_record(b) is Some,
    ensures
        decode_record(b) matches Some((v, _)) && encodable(v),
{
    lemma_decoded_str(b, 0);
    let p1 = decode_str(b, 0).unwrap().1;
    lemma_decoded_str(b, p1 + 33);
    let p2 = decode_str(b, p1 + 33).unwrap().1;
    lemma_decoded_str(b, p2 + 1);
}

/// Decoding the encoding of a record gives the record back, whatever bytes follow it.
pub proof fn lemma_record_round_trip(v: RecordView, rest: Seq<u8>)
    requires
        encodable(v),
    ensures
        decode_record(encode_record(v) + rest) == Some((v, encode_record(v).len() as int)),
{
    let b = encode_record(v) + rest;
    let d = encode_str(v.discriminator);
    let t = encode_str(v.title);
    let r = encode_str(v.review);
    let p1 = d.len() as int;
    let p2 = p1 + 33 + t.len();
    let p3 = p2 + 1 + r.len();
    assert(encode_record(v) =~= d + seq![encode_bool(v.is_initialized)] + v.reviewer + t + seq![v.rating] + r);
    assert(b.subrange(0, p1) =~= d);
    lemma_decode_encoded_str(b, 0, v.discriminator);
    assert(b[p1] == encode_bool(v.is_initialized));
    assert(b.subrange(p1 + 1, p1 + 33) =~= v.reviewer);
    assert(b.subrange(p1 + 33, p2) =~= t);
    lemma_decode_encoded_str(b, p1 + 33, v.title);
    assert(b[p2] == v.rating);
    assert(b.subrange(p2 + 1, p3) =~= r);
    lemma_decode_encoded_str(b, p2 + 1, v.review);
}


/// Relies on `std::str::from_utf8`: it accepts exactly the well-formed UTF-8
/// byte sequences, and the string it gives holds those bytes.
#[verifier::external_body]
fn utf8_string(b: &[u8]) -> (r: Option<String>)
    ensures
        r is Some <==> valid_utf8(b@),
        r matches Some(s) ==> encode_utf8(s@) == b@,
{
    match std::str::from_utf8(b) {
        Ok(s) => Some(s.to_string()),
        Err(_) => None,
    }
}

fn read_u32(data: &[u8], at: usize) -> (r: u32)
    requires
        at + 4 <= data@.len(),
    ensures
        r == le_u32_at(data@, at as int),
{
    (data[at] as u32) | ((data[at + 1] as u32) << 8u32) | ((data[at + 2] as u32) << 16u32) | ((data[at + 3] as u32) << 24u32)
}

pub(crate) fn read_str(data: &[u8], at: usize) -> (r: Option<(String, usize)>)
    ensures
        match r {
            Some((s, end)) => decode_str(data@, at as int) == Some((s@, end as int)),
            None => decode_str(data@, at as int) is None,
        },
{
    if at > data.len() || data.len() - at < 4 {
        return None;
    }
    let n = read_u32(data, at) as usize;
    if n > data.len() - at - 4 {
        return None;
    }
    let end = at + 4 + n;
    let bytes = slice_subrange(data, at + 4, end);
    match utf8_string(bytes) {
        Some(s) => {
            proof {
                encode_utf8_decode_utf8(s@);
            }
            Some((s, end))
        },
        None => None,
    }
}

fn write_u32(out: &mut Vec<u8>, n: u32)
    ensures
        final(out)@ == old(out)@ + u32_le(n),
{
    out.push((n & 0xff) as u8);
    out.push(((n >> 8u32) & 0xff) as u8);
    out.push(((n >> 16u32) & 0xff) as u8);
    out.push(((n >> 24u32) & 0xff) as u8);
    assert(final(out)@ =~= old(out)@ + u32_le(n));
}

fn write_bytes(out: &mut Vec<u8>, b: &[u8])
    ensures
        final(out)@ == old(out)@ + b@,
{
    let ghost start = out@;
    let mut i: usize = 0;
    while i < b.len()
        invariant
            i <= b@.len(),
            out@ == start + b@.subrange(0, i as int),
        decreases b@.len() - i,
    {
        out.push(b[i]);
        i = i + 1;
        assert(out@ =~= start + b@.subrange(0, i as int));
    }
    assert(b@.subrange(0, i as int) =~= b@);
}

pub(crate) fn write_str(out: &mut Vec<u8>, s: &str)
    requires
        encode_utf8(s@).len() <= u32::MAX,
    ensures
        final(out)@ == old(out)@ + encode_str(s@),
{
    let b = s.as_bytes();
    write_u32(out, s.len() as u32);
    write_bytes(out, b);
    assert(final(out)@ =~= old(out)@ + encode_str(s@));
}

impl MovieAccountState {
    /// The tag that a slot holding a review starts with.
    pub const DISCRIMINATOR: &'static str = "review";

    /// The size that a review with this title and text counts against the
    /// slot capacity, or `usize::MAX` where that size does not fit a `usize`.
    pub fn get_account_size(title: String, review: String) -> (r: usize)
        ensures
            r as int == if account_size(encode_utf8(title@).len() as int, encode_utf8(review@).len() as int) <= usize::MAX {
                account_size(encode_utf8(title@).len() as int, encode_utf8(review@).len() as int)
            } else {
                usize::MAX as int
            },
    {
        let fixed: usize = 4 + 6 + 1 + 1 + 4 + 4;
        let title_len = title.as_str().as_bytes().len();
        let review_len = review.as_str().as_bytes().len();
        fixed.saturating_add(title_len).saturating_add(review_len)
    }

    pub fn is_initialized(&self) -> (r: bool)
        ensures
            r == self.is_initialized,
    {
        self.is_initialized
    }

    /// The record's encoding.
    pub fn serialize(&self) -> (r: Vec<u8>)
        requires
            encodable(self@),
        ensures
            r@ == encode_record(self@),
    {
        let mut out: Vec<u8> = Vec::new();
        write_str(&mut out, self.discriminator.as_str());
        out.push(if self.is_initialized { 1u8 } else { 0u8 });
        write_bytes(&mut out, self.reviewer.bytes.as_slice());
        write_str(&mut out, self.title.as_str());
        out.push(self.rating);
        write_str(&mut out, self.review.as_str());
        assert(out@ =~= encode_record(self@));
        out
    }

    /// The record encoded at the start of `data`, whatever bytes follow it, or
    /// `None` where the bytes there encode none.
    pub fn deserialize(data: &[u8]) -> (r: Option<MovieAccountState>)
        ensures
            match r {
                Some(rec) => decode_record(data@) matches Some((v, _)) && v == rec@,
                None => decode_record(data@) is None,
            },
    {
        let (discriminator, p1) = match read_str(data, 0) {
            Some(x) => x,
            None => return None,
        };
        if p1 >= data.len() || data[p1] > 1 {
            return None;
        }
        let is_initialized = data[p1] == 1;
        if data.len() - p1 < 33 {
            return None;
        }
        let mut key = [0u8; 32];
        let mut i: usize = 0;
        while i < 32
            invariant
                i <= 32,
                p1 + 33 <= data@.len(),
                data@.len() == data.len(),
                forall|j: int| 0 <= j < i ==> key@[j] == data@[p1 + 1 + j],
            decreases 32 - i,
        {
            key[i] = data[p1 + 1 + i];
            i = i + 1;
        }
        assert(key@ =~= data@.subrange(p1 + 1, p1 + 33));
        let (title, p2) = match read_str(data, p1 + 33) {
            Some(x) => x,
            None => return None,
        };
        if p2 >= data.len() {
            return None;
        }
        let rating = data[p2];
        let (review, _p3) = match read_str(data, p2 + 1) {
            Some(x) => x,
            None => return None,
        };
        Some(MovieAccountState { discriminator, is_initialized, reviewer: Address { bytes: key }, title, rating, review })
    }
}

} // verus!
