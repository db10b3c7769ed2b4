//! Dispatch of decoded frames to their handlers.
//!
//! The handlers only take note of a message: what a message does is up to the
//! [session](crate::session).
use crate::protocol::{Frame, FrameError, MessageType};
use vstd::prelude::*;

verus! {

/// Hands a decoded frame to the handler for its message type. No message is a reason to
/// tear the session down here.
pub fn process_frame(peer: &str, frame: &Frame) -> (r: Result<(), FrameError>)
    ensures
        r is Ok,
{
    match frame.header.msg_type {
        MessageType::Hello => handle_hello(peer, frame.payload.as_slice()),
        MessageType::HelloAck => handle_hello_ack(peer, frame.payload.as_slice()),
        MessageType::PairWithCode => handle_pair_with_code(peer, frame.payload.as_slice()),
        MessageType::PairWithPassword => handle_pair_with_password(peer, frame.payload.as_slice()),
        MessageType::PairResult => handle_pair_result(peer, frame.payload.as_slice()),
        MessageType::TransferOffer => handle_transfer_offer(peer, frame.payload.as_slice()),
        MessageType::TransferDecision => handle_transfer_decision(peer, frame.payload.as_slice()),
        MessageType::TransferDone => handle_transfer_done(peer, frame.payload.as_slice()),
        MessageType::Error => handle_error(peer, frame.payload.as_slice()),
    }
}

fn handle_hello(_peer: &str, _payload: &[u8]) -> (r: Result<(), FrameError>)
    ensures
        r is Ok,
{
    Ok(())
}

fn handle_hello_ack(_peer: &str, _payload: &[u8]) -> (r: Result<(), FrameError>)
    ensures
        r is Ok,
{
    Ok(())
}

fn handle_pair_with_code(_peer: &str, _payload: &[u8]) -> (r: Result<(), FrameError>)
    ensures
        r is Ok,
{
    Ok(())
}

fn handle_pair_with_password(_peer: &str, _payload: &[u8]) -> (r: Result<(), FrameError>)
    ensures
        r is Ok,
{
    Ok(())
}

fn handle_pair_result(_peer: &str, _payload: &[u8]) -> (r: Result<(), FrameError>)
    ensures
        r is Ok,
{
    Ok(())
}

fn handle_transfer_offer(_peer: &str, _payload: &[u8]) -> (r: Result<(), FrameError>)
    ensures
        r is Ok,
{
    Ok(())
}

fn handle_transfer_decision(_peer: &str, _payload: &[u8]) -> (r: Result<(), FrameError>)
    ensures
        r is Ok,
{
    Ok(())
}

fn handle_transfer_done(_peer: &str, _payload: &[u8]) -> (r: Result<(), FrameError>)
    ensures
        r is Ok,
{
    Ok(())
}

fn handle_error(_peer: &str, _payload: &[u8]) -> (r: Result<(), FrameError>)
    ensures
        r is Ok,
{
    Ok(())
}

} // verus!
