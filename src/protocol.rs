//! The inbound envelopes, and the session handle over both kinds of session.
use vstd::prelude::*;
use crate::error::ProtocolError;
use crate::crypto::{group_encoding, signature_encoding};
use crate::keygen::{group_init_error, keygen_next, keygen_started, outbound, KeygenContext, KeygenState};
use crate::sign::{init_error, session_of_group, sign_next, sign_started, SignContext, SignStage, SignState};

verus! {

/// The protocol discriminator that the relay uses for FROST.
pub const FROST_PROTOCOL: i32 = 2;

/// The envelope that starts a key generation.
#[derive(Debug, Clone, PartialEq, Eq)]
pub struct GroupInit {
    pub protocol_type: i32,
    pub parties: u32,
    pub threshold: u32,
    /// Global index of this participant, from 1.
    pub index: u32,
}

/// The envelope that starts a signing run.
#[derive(Debug, Clone, PartialEq, Eq)]
pub struct Init {
    pub protocol_type: i32,
    /// Global indices of the signers, ascending.
    pub indices: Vec<u32>,
    /// The message to sign.
    pub data: Vec<u8>,
}

/// What the host hands to `advance`: an init envelope, or the batch of the
/// peers' messages of one round, in ascending global-index order, without
/// this participant's own.
#[derive(Debug, Clone, PartialEq, Eq)]
pub enum Inbound {
    GroupInit(GroupInit),
    Init(Init),
    Batch(Vec<Vec<u8>>),
}

/// The protocol families a host can ask for. This library drives FROST only.
#[derive(Debug, Clone, Copy, PartialEq, Eq, Structural)]
pub enum ProtocolId {
    Gg18,
    Elgamal,
    Frost,
}

/// A session of either kind behind one handle.
#[derive(Debug, Clone)]
pub enum Protocol {
    Keygen(KeygenContext),
    Sign(SignContext),
}

/// The abstract state of a session.
pub ghost enum ProtocolState {
    Keygen(KeygenState),
    Sign(SignState),
}

impl View for Protocol {
    type V = ProtocolState;

    open spec fn view(&self) -> ProtocolState {
        match self {
            Protocol::Keygen(k) => ProtocolState::Keygen(k@),
            Protocol::Sign(s) => ProtocolState::Sign(s@),
        }
    }
}

impl ProtocolState {
    pub open spec fn wf(self) -> bool {
        match self {
            ProtocolState::Keygen(k) => k.wf(),
            ProtocolState::Sign(s) => s.wf(),
        }
    }
}

impl Protocol {
    /// Starts a key generation.
    pub fn keygen(proto_id: ProtocolId) -> (r: Result<Self, ProtocolError>)
        ensures
            proto_id == ProtocolId::Frost ==> (r matches Ok(p) && p@ == ProtocolState::Keygen(KeygenState::R0)),
            proto_id != ProtocolId::Frost ==> r == Err::<Self, ProtocolError>(ProtocolError::WrongProtocol),
            r matches Ok(p) ==> p@.wf(),
    {
        match proto_id {
            ProtocolId::Frost => Ok(Protocol::Keygen(KeygenContext::new())),
            _ => Err(ProtocolError::WrongProtocol),
        }
    }

    /// Starts a signing run over persisted key material.
    pub fn init(proto_id: ProtocolId, group: &[u8]) -> (r: Result<Self, ProtocolError>)
        ensures
            proto_id != ProtocolId::Frost ==> r == Err::<Self, ProtocolError>(ProtocolError::WrongProtocol),
            proto_id == ProtocolId::Frost ==> match session_of_group(group@) {
                Ok(st) => r matches Ok(p) && p@ == ProtocolState::Sign(st),
                Err(e) => r == Err::<Self, ProtocolError>(e),
            },
            r matches Ok(p) ==> p@.wf(),
    {
        match proto_id {
            ProtocolId::Frost => match SignContext::new(group) {
                Ok(c) => Ok(Protocol::Sign(c)),
                Err(e) => Err(e),
            },
            _ => Err(ProtocolError::WrongProtocol),
        }
    }

    /// Feeds one inbound item to the session and returns the messages for
    /// the relay.
    pub fn advance(&mut self, input: Inbound) -> (r: Result<Vec<Vec<u8>>, ProtocolError>)
        requires
            old(self)@.wf(),
        ensures
            final(self)@.wf(),
            match (old(self)@, final(self)@) {
                (ProtocolState::Keygen(a), ProtocolState::Keygen(b)) => match input {
                    Inbound::GroupInit(m) if a is R0 => keygen_started(a, m, b, outbound(r)),
                    _ => (b, outbound(r)) == keygen_next(a, input),
                },
                (ProtocolState::Sign(a), ProtocolState::Sign(b)) => match input {
                    Inbound::Init(m) if a.stage is R0 => sign_started(a, m, b, outbound(r)),
                    _ => (b, outbound(r)) == sign_next(a, input),
                },
                _ => false,
            },
    {
        match self {
            Protocol::Keygen(k) => k.advance(input),
            Protocol::Sign(s) => s.advance(input),
        }
    }

    /// The artifact of a finished session: the key material, or the signature.
    pub fn finish(self) -> (r: Result<Vec<u8>, ProtocolError>)
        ensures
            match self@ {
                ProtocolState::Keygen(k) => match k {
                    KeygenState::Done { key, pubkey } => match group_encoding(key, pubkey) {
                        Some(g) => r matches Ok(x) && x@ == g,
                        None => r == Err::<Vec<u8>, ProtocolError>(ProtocolError::CryptoError),
                    },
                    _ => r == Err::<Vec<u8>, ProtocolError>(ProtocolError::NotFinished),
                },
                ProtocolState::Sign(s) => match s.stage {
                    SignStage::Done { signature } => match signature_encoding(signature) {
                        Some(t) => r matches Ok(x) && x@ == t,
                        None => r == Err::<Vec<u8>, ProtocolError>(ProtocolError::CryptoError),
                    },
                    _ => r == Err::<Vec<u8>, ProtocolError>(ProtocolError::NotFinished),
                },
            },
    {
        match self {
            Protocol::Keygen(k) => k.finish(),
            Protocol::Sign(s) => s.finish(),
        }
    }
}

/// A finished session refuses every further input with `AlreadyFinished`
/// and stays as it is.
pub proof fn lemma_finished_refuses(s: ProtocolState, input: Inbound)
    ensures
        s matches ProtocolState::Keygen(k) ==> (k is Done ==> keygen_next(k, input) == (k, Err::<Seq<Seq<u8>>, ProtocolError>(ProtocolError::AlreadyFinished))),
        s matches ProtocolState::Sign(c) ==> (c.stage is Done ==> sign_next(c, input) == (c, Err::<Seq<Seq<u8>>, ProtocolError>(ProtocolError::AlreadyFinished))),
{
}

/// A group-init envelope of another protocol is refused with `WrongProtocol`.
pub proof fn lemma_wrong_protocol_refused(m: GroupInit)
    requires
        m.protocol_type != FROST_PROTOCOL,
    ensures
        group_init_error(m) == Some(ProtocolError::WrongProtocol),
{
}

/// A FROST init envelope whose subset leaves this signer out is refused
/// with `ParticipantNotIncluded`.
pub proof fn lemma_absent_signer_refused(s: SignState, m: Init)
    requires
        m.protocol_type == FROST_PROTOCOL,
        !m.indices@.contains(s.identifier as u32),
    ensures
        init_error(s, m) == Some(ProtocolError::ParticipantNotIncluded),
{
}

} // verus!
