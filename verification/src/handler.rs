//! One connection's decision core, free of any I/O.
//!
//! The surrounding process only moves bytes and drives the homomorphic
//! engine: it reads the key file, reads the framed request off the socket,
//! runs the engine's operations, and writes the response back.  Every
//! decision — which error aborts the connection at which stage, whether the
//! frame is complete, what the next state is — is taken here, where it is
//! verified.

use vstd::prelude::*;
use crate::codec::{decode_request, declared_size, field_at, well_framed, RequestFrame};
use crate::errors::ServerError;

verus! {

/// The per-connection state machine.  Progress is strictly linear; any
/// failure in any state drops the connection, and the listener never sees
/// it.
#[derive(Clone, Copy, Debug, PartialEq, Eq, Structural)]
pub enum ConnectionState {
    /// The listener handed over a fresh connection.
    Accepted,
    /// Reading and decoding the framed request.
    DecodingRequest,
    /// Running the fixed homomorphic pipeline.
    Evaluating,
    /// Framing and writing the result.
    EncodingResponse,
    /// Dropped, successfully or not; never reused.
    Closed,
}

/// One transition of the connection's state machine: on success the next
/// stage in the fixed order, on any failure straight to `Closed`, with no
/// retry from any state.
pub fn advance(state: ConnectionState, step_ok: bool) -> (next: ConnectionState)
    ensures
        !step_ok ==> next == ConnectionState::Closed,
        step_ok ==> next == (match state {
            ConnectionState::Accepted => ConnectionState::DecodingRequest,
            ConnectionState::DecodingRequest => ConnectionState::Evaluating,
            ConnectionState::Evaluating => ConnectionState::EncodingResponse,
            ConnectionState::EncodingResponse => ConnectionState::Closed,
            ConnectionState::Closed => ConnectionState::Closed,
        }),
{
    if !step_ok {
        return ConnectionState::Closed;
    }
    match state {
        ConnectionState::Accepted => ConnectionState::DecodingRequest,
        ConnectionState::DecodingRequest => ConnectionState::Evaluating,
        ConnectionState::Evaluating => ConnectionState::EncodingResponse,
        ConnectionState::EncodingResponse => ConnectionState::Closed,
        ConnectionState::Closed => ConnectionState::Closed,
    }
}

/// The decode phase of one connection: the evaluation key must have been
/// loaded, and the request bytes must hold one complete frame.
///
/// `key_loaded` reports whether the key's file was read and its bytes
/// decoded to a valid key — a missing or corrupt key fails this connection
/// with `KeyLoad` before any request byte is looked at, and never reaches
/// the listener.  With the key in hand, a short request fails with
/// `Framing`, exactly when the frame is incomplete; a complete frame
/// decodes to its six fields, byte for byte.
pub fn decode_phase(key_loaded: bool, request_bytes: &[u8]) -> (r: Result<
    RequestFrame,
    ServerError,
>)
    ensures
        !key_loaded ==> r == Err::<RequestFrame, ServerError>(ServerError::KeyLoad),
        key_loaded ==> {
            &&& r is Ok <==> well_framed(request_bytes@)
            &&& (r matches Ok(frame) ==> {
                &&& frame.well_formed()
                &&& frame.spec_size() == declared_size(request_bytes@)
                &&& frame.gambling_percent@ == field_at(request_bytes@, 0)
                &&& frame.overspending_score@ == field_at(request_bytes@, 1)
                &&& frame.impulsive_buying_score@ == field_at(request_bytes@, 2)
                &&& frame.mean_deposited_sum@ == field_at(request_bytes@, 3)
                &&& frame.mean_reported_income@ == field_at(request_bytes@, 4)
                &&& frame.no_months_deposited@ == field_at(request_bytes@, 5)
            })
            &&& (r matches Err(e) ==> e == ServerError::Framing)
        },
{
    if !key_loaded {
        return Err(ServerError::KeyLoad);
    }
    decode_request(request_bytes)
}

} // verus!
