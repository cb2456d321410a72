//! The commands that mirror a signing run on the smart card. Points go to
//! the card in SEC1 uncompressed form.
use vstd::prelude::*;
use crate::apdu::{command_bytes, CommandBuilder};
use crate::crypto::{commitment_points, reencode_point, reencoded, split_commitments};
use crate::error::ProtocolError;

verus! {

pub const CLA: u8 = 0;
pub const INS_SETUP: u8 = 1;
pub const INS_COMMIT: u8 = 2;
pub const INS_COMMITMENT: u8 = 3;
pub const INS_SIGN: u8 = 4;

/// Loads the key material on the card: threshold and parties as parameters,
/// then the identifier, the signing share and the uncompressed group key.
pub fn setup(t: u8, n: u8, identifier: u8, secret: &[u8], group_public: &[u8]) -> (r: Result<Vec<u8>, ProtocolError>)
    requires
        secret@.len() == 32,
    ensures
        match reencoded(group_public@, false) {
            Some(p) => r matches Ok(v) && v@ == command_bytes(CLA, INS_SETUP, t, n, seq![identifier] + secret@ + p),
            None => r == Err::<Vec<u8>, ProtocolError>(ProtocolError::InvalidPointEncoding),
        },
{
    let point = match reencode_point(group_public, false) {
        Some(p) => p,
        None => return Err(ProtocolError::InvalidPointEncoding),
    };
    let b = CommandBuilder::new(CLA, INS_SETUP).p1(t).p2(n).push(identifier).extend(secret).extend(point.as_slice());
    assert(b.data@ =~= seq![identifier] + secret@ + point@);
    Ok(b.build())
}

/// Asks the card for fresh nonce commitments.
pub fn commit() -> (r: Vec<u8>)
    ensures
        r@ == command_bytes(CLA, INS_COMMIT, 0, 0, Seq::empty()),
{
    CommandBuilder::new(CLA, INS_COMMIT).build()
}

/// Hands the card a peer's commitments: its identifier, then the hiding and
/// the binding point, both uncompressed.
pub fn commitment(identifier: u8, commitments: &Vec<u8>) -> (r: Result<Vec<u8>, ProtocolError>)
    ensures
        match commitment_points(commitments@) {
            None => r == Err::<Vec<u8>, ProtocolError>(ProtocolError::CryptoError),
            Some((h, b)) => match (reencoded(h, false), reencoded(b, false)) {
                (Some(hu), Some(bu)) => r matches Ok(v) && v@ == command_bytes(CLA, INS_COMMITMENT, identifier, 0, hu + bu),
                _ => r == Err::<Vec<u8>, ProtocolError>(ProtocolError::InvalidPointEncoding),
            },
        },
{
    let (hiding, binding) = match split_commitments(commitments) {
        Some(x) => x,
        None => return Err(ProtocolError::CryptoError),
    };
    let hiding = match reencode_point(hiding.as_slice(), false) {
        Some(p) => p,
        None => return Err(ProtocolError::InvalidPointEncoding),
    };
    let binding = match reencode_point(binding.as_slice(), false) {
        Some(p) => p,
        None => return Err(ProtocolError::InvalidPointEncoding),
    };
    let b = CommandBuilder::new(CLA, INS_COMMITMENT).p1(identifier).extend(hiding.as_slice()).extend(binding.as_slice());
    Ok(b.build())
}

/// Asks the card for its signature share over `message`, whose length is
/// the first parameter.
pub fn sign(message: &[u8]) -> (r: Vec<u8>)
    requires
        message@.len() <= 255,
    ensures
        r@ == command_bytes(CLA, INS_SIGN, message@.len() as u8, 0, message@),
{
    CommandBuilder::new(CLA, INS_SIGN).p1(message.len() as u8).extend(message).build()
}

} // verus!
