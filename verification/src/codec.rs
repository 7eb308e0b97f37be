//! The length-prefixed wire framing.
//!
//! A request is one 4-byte little-endian length `size` followed by six
//! ciphertext fields of exactly `size` bytes each, in a fixed order.  The
//! single length prefix is shared by all six fields: the protocol announces
//! it once, and a decoder must enforce that exactly `size` bytes stand for
//! every field rather than accept whatever arrived.
//!
//! A response is one 8-byte big-endian length followed by the result
//! ciphertext's bytes.  The response header deliberately differs from the
//! request header in width and byte order: the asymmetry is part of the
//! existing wire contract and is preserved bit-exactly here.

use vstd::prelude::*;
use vstd::bytes::*;
use vstd::seq_lib::*;
use vstd::slice::{slice_subrange, slice_to_vec};
use crate::errors::ServerError;

verus! {

/// How many fields a request carries.
pub const FIELD_COUNT: u64 = 6;

/// The bytes of a whole request: the shared field length, little-endian in
/// four bytes, then the six fields in wire order.
pub open spec fn encoded_request(
    gambling: Seq<u8>,
    overspending: Seq<u8>,
    impulsive: Seq<u8>,
    deposited: Seq<u8>,
    reported: Seq<u8>,
    months: Seq<u8>,
) -> Seq<u8>
    recommends
        gambling.len() <= u32::MAX,
{
    spec_u32_to_le_bytes(gambling.len() as u32) + gambling + overspending + impulsive + deposited
        + reported + months
}

/// The field length a byte stream announces in its first four bytes.
pub open spec fn declared_size(b: Seq<u8>) -> nat
    recommends
        b.len() >= 4,
{
    spec_u32_from_le_bytes(b.subrange(0, 4)) as nat
}

/// Whether a byte stream holds one complete request: a full header, and at
/// least the announced `4 + 6 * size` bytes.  Trailing bytes are never read,
/// exactly as a stream decoder that reads precisely `size` bytes per field
/// leaves them unread.
pub open spec fn well_framed(b: Seq<u8>) -> bool {
    b.len() >= 4 && b.len() >= 4 + (FIELD_COUNT as nat) * declared_size(b)
}

/// The bytes of field number `k` (zero-based, in wire order) of a well
/// framed request.
pub open spec fn field_at(b: Seq<u8>, k: int) -> Seq<u8>
    recommends
        well_framed(b),
        0 <= k < FIELD_COUNT,
{
    b.subrange(4 + k * declared_size(b), 4 + (k + 1) * declared_size(b))
}

/// A decoded request: the six ciphertext byte buffers, in the fixed wire
/// order, each still serialized.
#[derive(Debug)]
pub struct RequestFrame {
    pub gambling_percent: Vec<u8>,
    pub overspending_score: Vec<u8>,
    pub impulsive_buying_score: Vec<u8>,
    pub mean_deposited_sum: Vec<u8>,
    pub mean_reported_income: Vec<u8>,
    pub no_months_deposited: Vec<u8>,
}

impl RequestFrame {
    /// The protocol's invariant: all six buffers share one length, and that
    /// length fits the 4-byte header.
    pub open spec fn well_formed(self) -> bool {
        &&& self.overspending_score@.len() == self.gambling_percent@.len()
        &&& self.impulsive_buying_score@.len() == self.gambling_percent@.len()
        &&& self.mean_deposited_sum@.len() == self.gambling_percent@.len()
        &&& self.mean_reported_income@.len() == self.gambling_percent@.len()
        &&& self.no_months_deposited@.len() == self.gambling_percent@.len()
        &&& self.gambling_percent@.len() <= u32::MAX
    }

    /// The shared field length.
    pub open spec fn spec_size(self) -> nat {
        self.gambling_percent@.len()
    }

    /// The wire bytes this frame encodes to.
    pub open spec fn spec_encode(self) -> Seq<u8> {
        encoded_request(
            self.gambling_percent@,
            self.overspending_score@,
            self.impulsive_buying_score@,
            self.mean_deposited_sum@,
            self.mean_reported_income@,
            self.no_months_deposited@,
        )
    }
}

/// Decodes one request from the bytes read off a connection.
///
/// Returns `FramingError` exactly when the stream closed short: fewer than
/// 4 header bytes, or fewer than the announced `4 + 6 * size` bytes in all.
/// A short read is never silently accepted and never yields a truncated
/// frame.
pub fn decode_request(bytes: &[u8]) -> (r: Result<RequestFrame, ServerError>)
    ensures
        r is Ok <==> well_framed(bytes@),
        r matches Ok(frame) ==> {
            &&& frame.well_formed()
            &&& frame.spec_size() == declared_size(bytes@)
            &&& frame.gambling_percent@ == field_at(bytes@, 0)
            &&& frame.overspending_score@ == field_at(bytes@, 1)
            &&& frame.impulsive_buying_score@ == field_at(bytes@, 2)
            &&& frame.mean_deposited_sum@ == field_at(bytes@, 3)
            &&& frame.mean_reported_income@ == field_at(bytes@, 4)
            &&& frame.no_months_deposited@ == field_at(bytes@, 5)
        },
        r matches Err(e) ==> e == ServerError::Framing,
{
    if bytes.len() < 4 {
        return Err(ServerError::Framing);
    }
    let header = slice_subrange(bytes, 0, 4);
    let size32 = u32_from_le_bytes(header);
    let size: usize = size32 as usize;
    let needed: u64 = 4 + FIELD_COUNT * (size32 as u64);
    if (bytes.len() as u64) < needed {
        return Err(ServerError::Framing);
    }
    let frame = RequestFrame {
        gambling_percent: slice_to_vec(slice_subrange(bytes, 4, 4 + size)),
        overspending_score: slice_to_vec(slice_subrange(bytes, 4 + size, 4 + 2 * size)),
        impulsive_buying_score: slice_to_vec(slice_subrange(bytes, 4 + 2 * size, 4 + 3 * size)),
        mean_deposited_sum: slice_to_vec(slice_subrange(bytes, 4 + 3 * size, 4 + 4 * size)),
        mean_reported_income: slice_to_vec(slice_subrange(bytes, 4 + 4 * size, 4 + 5 * size)),
        no_months_deposited: slice_to_vec(slice_subrange(bytes, 4 + 5 * size, 4 + 6 * size)),
    };
    Ok(frame)
}

/// Encodes one request: the shared field length, little-endian in four
/// bytes, then the six buffers in wire order.
pub fn encode_request(frame: &RequestFrame) -> (r: Vec<u8>)
    requires
        frame.well_formed(),
    ensures
        r@ == frame.spec_encode(),
        r@.len() == 4 + 6 * frame.spec_size(),
{
    let size: u32 = frame.gambling_percent.len() as u32;
    let mut out: Vec<u8> = u32_to_le_bytes(size);
    let mut part = slice_to_vec(frame.gambling_percent.as_slice());
    out.append(&mut part);
    let mut part = slice_to_vec(frame.overspending_score.as_slice());
    out.append(&mut part);
    let mut part = slice_to_vec(frame.impulsive_buying_score.as_slice());
    out.append(&mut part);
    let mut part = slice_to_vec(frame.mean_deposited_sum.as_slice());
    out.append(&mut part);
    let mut part = slice_to_vec(frame.mean_reported_income.as_slice());
    out.append(&mut part);
    let mut part = slice_to_vec(frame.no_months_deposited.as_slice());
    out.append(&mut part);
    out
}

/// Framing round trip: encoding any six equal-length buffers and decoding
/// the resulting bytes gives back exactly the six buffers, in the original
/// order, under exactly the announced shared length.
pub proof fn lemma_request_round_trip(
    gambling: Seq<u8>,
    overspending: Seq<u8>,
    impulsive: Seq<u8>,
    deposited: Seq<u8>,
    reported: Seq<u8>,
    months: Seq<u8>,
)
    requires
        overspending.len() == gambling.len(),
        impulsive.len() == gambling.len(),
        deposited.len() == gambling.len(),
        reported.len() == gambling.len(),
        months.len() == gambling.len(),
        gambling.len() <= u32::MAX,
    ensures
        well_framed(encoded_request(gambling, overspending, impulsive, deposited, reported, months)),
        declared_size(encoded_request(gambling, overspending, impulsive, deposited, reported, months))
            == gambling.len(),
        field_at(encoded_request(gambling, overspending, impulsive, deposited, reported, months), 0)
            == gambling,
        field_at(encoded_request(gambling, overspending, impulsive, deposited, reported, months), 1)
            == overspending,
        field_at(encoded_request(gambling, overspending, impulsive, deposited, reported, months), 2)
            == impulsive,
        field_at(encoded_request(gambling, overspending, impulsive, deposited, reported, months), 3)
            == deposited,
        field_at(encoded_request(gambling, overspending, impulsive, deposited, reported, months), 4)
            == reported,
        field_at(encoded_request(gambling, overspending, impulsive, deposited, reported, months), 5)
            == months,
{
    let size = gambling.len();
    let b = encoded_request(gambling, overspending, impulsive, deposited, reported, months);
    let h = spec_u32_to_le_bytes(size as u32);
    lemma_auto_spec_u32_to_from_le_bytes();
    assert(h.len() == 4);
    assert(b.len() == 4 + 6 * size);
    assert_seqs_equal!(b.subrange(0, 4) == h);
    assert(declared_size(b) == size);
    assert_seqs_equal!(field_at(b, 0) == gambling);
    assert_seqs_equal!(field_at(b, 1) == overspending);
    assert_seqs_equal!(field_at(b, 2) == impulsive);
    assert_seqs_equal!(field_at(b, 3) == deposited);
    assert_seqs_equal!(field_at(b, 4) == reported);
    assert_seqs_equal!(field_at(b, 5) == months);
}

/// The bytes of a response header: the payload length, big-endian in eight
/// bytes.
pub open spec fn spec_u64_to_be_bytes(x: u64) -> Seq<u8> {
    seq![
        ((x >> 56) & 0xff) as u8,
        ((x >> 48) & 0xff) as u8,
        ((x >> 40) & 0xff) as u8,
        ((x >> 32) & 0xff) as u8,
        ((x >> 24) & 0xff) as u8,
        ((x >> 16) & 0xff) as u8,
        ((x >> 8) & 0xff) as u8,
        (x & 0xff) as u8,
    ]
}

/// The payload length, big-endian in eight bytes.
pub fn u64_to_be_bytes(x: u64) -> (r: Vec<u8>)
    ensures
        r@ == spec_u64_to_be_bytes(x),
        r@.len() == 8,
{
    proof {
        assert((x >> 56) & 0xff < 256 && (x >> 48) & 0xff < 256 && (x >> 40) & 0xff < 256 && (x
            >> 32) & 0xff < 256 && (x >> 24) & 0xff < 256 && (x >> 16) & 0xff < 256 && (x >> 8)
            & 0xff < 256 && x & 0xff < 256) by (bit_vector);
    }
    let mut r: Vec<u8> = Vec::new();
    r.push(((x >> 56) & 0xff) as u8);
    r.push(((x >> 48) & 0xff) as u8);
    r.push(((x >> 40) & 0xff) as u8);
    r.push(((x >> 32) & 0xff) as u8);
    r.push(((x >> 24) & 0xff) as u8);
    r.push(((x >> 16) & 0xff) as u8);
    r.push(((x >> 8) & 0xff) as u8);
    r.push((x & 0xff) as u8);
    proof {
        assert_seqs_equal!(r@ == spec_u64_to_be_bytes(x));
    }
    r
}

/// The bytes of a whole response: the payload length, big-endian in eight
/// bytes, then the payload.
pub open spec fn encoded_response(payload: Seq<u8>) -> Seq<u8>
    recommends
        payload.len() <= u64::MAX,
{
    spec_u64_to_be_bytes(payload.len() as u64) + payload
}

/// Encodes one response for the wire.
pub fn encode_response(payload: &Vec<u8>) -> (r: Vec<u8>)
    ensures
        r@ == encoded_response(payload@),
        r@.len() == 8 + payload@.len(),
{
    let len_be = u64_to_be_bytes(payload.len() as u64);
    let mut out = len_be;
    let mut body = slice_to_vec(payload.as_slice());
    out.append(&mut body);
    out
}

} // verus!
