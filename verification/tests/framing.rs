// The wire framing: round trip, header exactness, short-read rejection.

use fhe_risk_server::codec::{decode_request, encode_request, encode_response, u64_to_be_bytes,
    RequestFrame};
use fhe_risk_server::errors::ServerError;

fn frame(fields: [&[u8]; 6]) -> RequestFrame {
    RequestFrame {
        gambling_percent: fields[0].to_vec(),
        overspending_score: fields[1].to_vec(),
        impulsive_buying_score: fields[2].to_vec(),
        mean_deposited_sum: fields[3].to_vec(),
        mean_reported_income: fields[4].to_vec(),
        no_months_deposited: fields[5].to_vec(),
    }
}

#[test]
fn round_trip_six_fields() {
    let f = frame([
        &[1, 2, 3],
        &[4, 5, 6],
        &[7, 8, 9],
        &[10, 11, 12],
        &[13, 14, 15],
        &[16, 17, 18],
    ]);
    let bytes = encode_request(&f);
    assert_eq!(bytes.len(), 4 + 6 * 3);
    let decoded = decode_request(&bytes).expect("a complete frame must decode");
    assert_eq!(decoded.gambling_percent, vec![1, 2, 3]);
    assert_eq!(decoded.overspending_score, vec![4, 5, 6]);
    assert_eq!(decoded.impulsive_buying_score, vec![7, 8, 9]);
    assert_eq!(decoded.mean_deposited_sum, vec![10, 11, 12]);
    assert_eq!(decoded.mean_reported_income, vec![13, 14, 15]);
    assert_eq!(decoded.no_months_deposited, vec![16, 17, 18]);
}

#[test]
fn round_trip_empty_fields() {
    let f = frame([&[], &[], &[], &[], &[], &[]]);
    let bytes = encode_request(&f);
    assert_eq!(bytes, vec![0, 0, 0, 0]);
    let decoded = decode_request(&bytes).expect("a zero-size frame is complete");
    assert!(decoded.gambling_percent.is_empty());
    assert!(decoded.no_months_deposited.is_empty());
}

#[test]
fn request_header_is_4_byte_little_endian() {
    let f = frame([&[9, 9], &[9, 9], &[9, 9], &[9, 9], &[9, 9], &[9, 9]]);
    let bytes = encode_request(&f);
    // size = 2, little-endian in exactly four bytes.
    assert_eq!(&bytes[0..4], &[2, 0, 0, 0]);
    // A size whose little-endian bytes differ from its big-endian bytes.
    let g = frame([&[0; 258], &[0; 258], &[0; 258], &[0; 258], &[0; 258], &[0; 258]]);
    let got = encode_request(&g);
    // 258 = 0x0102: little-endian 02 01 00 00.
    assert_eq!(&got[0..4], &[0x02, 0x01, 0, 0]);
}

#[test]
fn request_bytes_match_hand_built_buffer() {
    let f = frame([&[0xaa], &[0xbb], &[0xcc], &[0xdd], &[0xee], &[0xff]]);
    let bytes = encode_request(&f);
    let expected: Vec<u8> = vec![1, 0, 0, 0, 0xaa, 0xbb, 0xcc, 0xdd, 0xee, 0xff];
    assert_eq!(bytes, expected);
}

#[test]
fn response_header_is_8_byte_big_endian() {
    let payload: Vec<u8> = vec![7, 7, 7, 7, 7];
    let out = encode_response(&payload);
    assert_eq!(&out[0..8], &[0, 0, 0, 0, 0, 0, 0, 5]);
    assert_eq!(&out[8..], &payload[..]);
    assert_eq!(out.len(), 8 + 5);
}

#[test]
fn response_header_orders_every_byte() {
    let be = u64_to_be_bytes(0x0102030405060708);
    assert_eq!(be, vec![1, 2, 3, 4, 5, 6, 7, 8]);
    let max = u64_to_be_bytes(u64::MAX);
    assert_eq!(max, vec![0xff; 8]);
}

#[test]
fn short_header_is_rejected() {
    assert_eq!(decode_request(&[]).err(), Some(ServerError::Framing));
    assert_eq!(decode_request(&[5, 0, 0]).err(), Some(ServerError::Framing));
}

#[test]
fn short_payload_is_rejected() {
    // Announces 10 bytes per field but carries far fewer than 4 + 60.
    let mut bytes: Vec<u8> = vec![10, 0, 0, 0];
    bytes.extend_from_slice(&[1; 30]);
    assert_eq!(decode_request(&bytes).err(), Some(ServerError::Framing));
    // One byte short of complete is still short.
    let mut almost: Vec<u8> = vec![1, 0, 0, 0];
    almost.extend_from_slice(&[0; 5]);
    assert_eq!(decode_request(&almost).err(), Some(ServerError::Framing));
}

#[test]
fn exact_length_is_accepted_and_split_in_order() {
    let mut bytes: Vec<u8> = vec![1, 0, 0, 0];
    bytes.extend_from_slice(&[10, 20, 30, 40, 50, 60]);
    let decoded = decode_request(&bytes).expect("exactly 4 + 6 bytes is complete");
    assert_eq!(decoded.gambling_percent, vec![10]);
    assert_eq!(decoded.overspending_score, vec![20]);
    assert_eq!(decoded.impulsive_buying_score, vec![30]);
    assert_eq!(decoded.mean_deposited_sum, vec![40]);
    assert_eq!(decoded.mean_reported_income, vec![50]);
    assert_eq!(decoded.no_months_deposited, vec![60]);
}

#[test]
fn trailing_bytes_stay_unread() {
    let mut bytes: Vec<u8> = vec![1, 0, 0, 0];
    bytes.extend_from_slice(&[1, 2, 3, 4, 5, 6]);
    bytes.extend_from_slice(&[99, 99]);
    let decoded = decode_request(&bytes).expect("a stream decoder never reads past the frame");
    assert_eq!(decoded.no_months_deposited, vec![6]);
}
