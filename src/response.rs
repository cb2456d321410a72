//! The card's answers to the commands. Points from the card are handed to
//! the library in compressed form.
use vstd::prelude::*;
use crate::apdu::{parse_response, response_body};
use crate::crypto::{commitments_of_points, join_commitments, read_share, reencode_point, reencoded, share_of_bytes};
use crate::error::ProtocolError;

verus! {

/// The answer to the setup command: success or the card's error.
pub fn setup(raw: &[u8]) -> (r: Result<(), ProtocolError>)
    ensures
        r is Ok <==> response_body(raw@) is Some,
        r is Err ==> r == Err::<(), ProtocolError>(ProtocolError::CardError),
{
    match parse_response(raw) {
        Ok(_) => Ok(()),
        Err(e) => Err(e),
    }
}

/// The card's nonce commitments: the body holds the hiding point, then the
/// binding point, in two halves.
pub fn commit(raw: &[u8]) -> (r: Result<Vec<u8>, ProtocolError>)
    ensures
        match response_body(raw@) {
            None => r == Err::<Vec<u8>, ProtocolError>(ProtocolError::CardError),
            Some(body) => {
                let half = body.len() / 2;
                match (reencoded(body.take(half as int), true), reencoded(body.skip(half as int), true)) {
                    (Some(h), Some(b)) => match commitments_of_points(h, b) {
                        Some(c) => r matches Ok(v) && v@ == c,
                        None => r == Err::<Vec<u8>, ProtocolError>(ProtocolError::CryptoError),
                    },
                    _ => r == Err::<Vec<u8>, ProtocolError>(ProtocolError::InvalidPointEncoding),
                }
            },
        },
{
    let data = match parse_response(raw) {
        Ok(d) => d,
        Err(e) => return Err(e),
    };
    let half = data.len() / 2;
    let (hiding, binding) = data.as_slice().split_at(half);
    assert(hiding@ =~= data@.take(half as int));
    assert(binding@ =~= data@.skip(half as int));
    let hiding = match reencode_point(hiding, true) {
        Some(p) => p,
        None => return Err(ProtocolError::InvalidPointEncoding),
    };
    let binding = match reencode_point(binding, true) {
        Some(p) => p,
        None => return Err(ProtocolError::InvalidPointEncoding),
    };
    match join_commitments(hiding.as_slice(), binding.as_slice()) {
        Some(c) => Ok(c),
        None => Err(ProtocolError::CryptoError),
    }
}

/// The answer to a commitment command: success or the card's error.
pub fn commitment(raw: &[u8]) -> (r: Result<(), ProtocolError>)
    ensures
        r is Ok <==> response_body(raw@) is Some,
        r is Err ==> r == Err::<(), ProtocolError>(ProtocolError::CardError),
{
    match parse_response(raw) {
        Ok(_) => Ok(()),
        Err(e) => Err(e),
    }
}

/// The card's signature share, read from the response body.
pub fn sign(raw: &[u8]) -> (r: Result<Vec<u8>, ProtocolError>)
    ensures
        match response_body(raw@) {
            None => r == Err::<Vec<u8>, ProtocolError>(ProtocolError::CardError),
            Some(body) => match share_of_bytes(body) {
                Some(s) => r matches Ok(v) && v@ == s,
                None => r == Err::<Vec<u8>, ProtocolError>(ProtocolError::CryptoError),
            },
        },
{
    let data = match parse_response(raw) {
        Ok(d) => d,
        Err(e) => return Err(e),
    };
    match read_share(data.as_slice()) {
        Some(s) => Ok(s),
        None => Err(ProtocolError::CryptoError),
    }
}

} // verus!
