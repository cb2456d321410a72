//! The three-round threshold signing, one session per signer.
use vstd::prelude::*;
use crate::codec::{copies, copy_bytes, inflate, pairs, seqs};
use crate::crypto::{
    aggregate, aggregate_of, commit, decode_group, encode_signature, group_decoding, sign_share,
    signature_encoding, signature_share_of, signing_package, signing_package_of,
};
use crate::error::ProtocolError;
use crate::index::{identifier_number, position_of, subset_slot};
use crate::keygen::outbound;
use crate::protocol::{Inbound, Init, FROST_PROTOCOL};

verus! {

/// Where a signing run stands. Values of the library are its serialized forms.
#[derive(Debug, Clone)]
pub enum SignRound {
    R0,
    R1 { nonces: Vec<u8>, commitments: Vec<u8> },
    R2 { package: Vec<u8>, share: Vec<u8> },
    Done { signature: Vec<u8> },
}

/// The abstract round of a signing run.
pub ghost enum SignStage {
    R0,
    R1 { nonces: Seq<u8>, commitments: Seq<u8> },
    R2 { package: Seq<u8>, share: Seq<u8> },
    Done { signature: Seq<u8> },
}

impl View for SignRound {
    type V = SignStage;

    open spec fn view(&self) -> SignStage {
        match self {
            SignRound::R0 => SignStage::R0,
            SignRound::R1 { nonces, commitments } => SignStage::R1 { nonces: nonces@, commitments: commitments@ },
            SignRound::R2 { package, share } => SignStage::R2 { package: package@, share: share@ },
            SignRound::Done { signature } => SignStage::Done { signature: signature@ },
        }
    }
}

/// One signer's session. The key material is fixed at creation; the
/// message and the signing subset are bound by the init envelope.
#[derive(Debug, Clone)]
pub struct SignContext {
    pub key: Vec<u8>,
    pub pubkey: Vec<u8>,
    /// This signer's global index.
    pub identifier: u16,
    pub threshold: u16,
    pub parties: u16,
    pub message: Vec<u8>,
    /// Global indices of the signing subset, ascending.
    pub indices: Vec<u16>,
    pub round: SignRound,
}

/// The abstract state of a signing run.
pub ghost struct SignState {
    pub key: Seq<u8>,
    pub pubkey: Seq<u8>,
    pub identifier: u16,
    pub threshold: u16,
    pub parties: u16,
    pub message: Seq<u8>,
    pub indices: Seq<u16>,
    pub stage: SignStage,
}

impl View for SignContext {
    type V = SignState;

    open spec fn view(&self) -> SignState {
        SignState {
            key: self.key@,
            pubkey: self.pubkey@,
            identifier: self.identifier,
            threshold: self.threshold,
            parties: self.parties,
            message: self.message@,
            indices: self.indices@,
            stage: self.round@,
        }
    }
}

/// Signer numbers that are ascending and each within `1..=parties`.
pub open spec fn valid_subset(indices: Seq<u32>, parties: u16) -> bool {
    &&& forall|i: int| 0 <= i < indices.len() ==> 1 <= #[trigger] indices[i] <= parties && indices[i] <= u16::MAX
    &&& forall|i: int, j: int| 0 <= i < j < indices.len() ==> indices[i] < indices[j]
}

/// The same subset held as 16-bit numbers.
pub open spec fn narrowed(indices: Seq<u32>) -> Seq<u16> {
    indices.map_values(|x: u32| x as u16)
}

/// Position of `own` in a subset that holds it once.
pub open spec fn slot_of(indices: Seq<u16>, own: u16) -> int {
    choose|i: int| 0 <= i < indices.len() && indices[i] == own
}

/// A batch keyed by the signers' numbers, for the receiver at `local` of the subset.
pub open spec fn signer_keyed(indices: Seq<u16>, local: int, batch: Seq<Seq<u8>>) -> Seq<(u16, Seq<u8>)> {
    Seq::new(batch.len(), |i: int| (indices[subset_slot(i, local)], batch[i]))
}

impl SignState {
    /// Once bound, the subset is valid, holds this signer, and reaches the
    /// threshold.
    pub open spec fn wf(self) -> bool {
        !(self.stage is R0) ==> {
            &&& forall|i: int| 0 <= i < self.indices.len() ==> 1 <= #[trigger] self.indices[i] <= self.parties
            &&& forall|i: int, j: int| 0 <= i < j < self.indices.len() ==> self.indices[i] < self.indices[j]
            &&& self.indices.contains(self.identifier)
            &&& self.indices.len() >= self.threshold
        }
    }
}

/// The error with which an init envelope is refused, if any.
pub open spec fn init_error(s: SignState, m: Init) -> Option<ProtocolError> {
    if m.protocol_type != FROST_PROTOCOL {
        Some(ProtocolError::WrongProtocol)
    } else if !m.indices@.contains(s.identifier as u32) {
        Some(ProtocolError::ParticipantNotIncluded)
    } else if !valid_subset(m.indices@, s.parties) {
        Some(ProtocolError::InvalidIdentifier)
    } else if m.indices@.len() < s.threshold {
        Some(ProtocolError::InsufficientSigners)
    } else {
        None
    }
}

/// What starting a signing run promises: the exact error with the state
/// kept, or round one with the subset and message bound and the commitments
/// sent to each other signer.
pub open spec fn sign_started(a: SignState, m: Init, b: SignState, r: Result<Seq<Seq<u8>>, ProtocolError>) -> bool {
    match init_error(a, m) {
        Some(e) => r == Err::<Seq<Seq<u8>>, ProtocolError>(e) && b == a,
        None => match r {
            Err(e) => e == ProtocolError::CryptoError && b == a,
            Ok(out) => (b.stage matches SignStage::R1 { commitments, .. }
                && out == copies(commitments, (m.indices@.len() - 1) as nat))
                && b == (SignState { message: m.data@, indices: narrowed(m.indices@), stage: b.stage, ..a }),
        },
    }
}

/// A step of a signing run that is not its start: the next state and the
/// outbound messages, or the error (the state is then kept).
pub open spec fn sign_next(s: SignState, input: Inbound) -> (SignState, Result<Seq<Seq<u8>>, ProtocolError>) {
    let local = slot_of(s.indices, s.identifier);
    match s.stage {
        SignStage::R0 => match input {
            Inbound::Batch(_) => (s, Err(ProtocolError::NotInitialized)),
            _ => (s, Err(ProtocolError::DecodeError)),
        },
        SignStage::R1 { nonces, commitments } => match input {
            Inbound::Batch(b) => if b@.len() + 1 != s.indices.len() {
                (s, Err(ProtocolError::DecodeError))
            } else {
                let all = signer_keyed(s.indices, local, seqs(b@)).push((s.identifier, commitments));
                match signing_package_of(all, s.message) {
                    Some(package) => match signature_share_of(package, nonces, s.key) {
                        Some(share) => (
                            SignState { stage: SignStage::R2 { package, share }, ..s },
                            Ok(copies(share, b@.len())),
                        ),
                        None => (s, Err(ProtocolError::CryptoError)),
                    },
                    None => (s, Err(ProtocolError::CryptoError)),
                }
            },
            _ => (s, Err(ProtocolError::DecodeError)),
        },
        SignStage::R2 { package, share } => match input {
            Inbound::Batch(b) => if b@.len() + 1 != s.indices.len() {
                (s, Err(ProtocolError::DecodeError))
            } else {
                let all = signer_keyed(s.indices, local, seqs(b@)).push((s.identifier, share));
                match aggregate_of(package, all, s.pubkey) {
                    Some(signature) => (
                        SignState { stage: SignStage::Done { signature }, ..s },
                        Ok(copies(signature, b@.len())),
                    ),
                    None => (s, Err(ProtocolError::CryptoError)),
                }
            },
            _ => (s, Err(ProtocolError::DecodeError)),
        },
        SignStage::Done { .. } => (s, Err(ProtocolError::AlreadyFinished)),
    }
}

/// The fresh session that persisted key material gives, or the error.
pub open spec fn session_of_group(group: Seq<u8>) -> Result<SignState, ProtocolError> {
    match group_decoding(group) {
        None => Err(ProtocolError::DecodeError),
        Some((key, pubkey, id, threshold, parties)) => {
            if !(id.len() == 32 && forall|k: int| 0 <= k < 30 ==> id[k] == 0) {
                Err(ProtocolError::InvalidIdentifier)
            } else if parties > u16::MAX {
                Err(ProtocolError::InvalidThreshold)
            } else {
                Ok(SignState {
                    key,
                    pubkey,
                    identifier: (id[30] as int * 256 + id[31] as int) as u16,
                    threshold,
                    parties: parties as u16,
                    message: Seq::empty(),
                    indices: Seq::empty(),
                    stage: SignStage::R0,
                })
            }
        },
    }
}

/// In an ascending subset a number stands at one position only.
proof fn lemma_slot_unique(indices: Seq<u16>, own: u16, i: int)
    requires
        forall|a: int, b: int| 0 <= a < b < indices.len() ==> indices[a] < indices[b],
        0 <= i < indices.len(),
        indices[i] == own,
    ensures
        slot_of(indices, own) == i,
{
    let j = slot_of(indices, own);
    assert(0 <= j < indices.len() && indices[j] == own);
    if j < i {
        assert(indices[j] < indices[i]);
    } else if i < j {
        assert(indices[i] < indices[j]);
    }
}

/// Checks that the subset is ascending and within `1..=parties`.
fn check_subset(indices: &Vec<u32>, parties: u16) -> (r: bool)
    ensures
        r == valid_subset(indices@, parties),
{
    let mut k: usize = 0;
    while k < indices.len()
        invariant
            k <= indices@.len(),
            forall|i: int| 0 <= i < k ==> 1 <= #[trigger] indices@[i] <= parties && indices@[i] <= u16::MAX,
            forall|i: int, j: int| 0 <= i < j < k ==> indices@[i] < indices@[j],
        decreases indices@.len() - k,
    {
        let x = indices[k];
        if x < 1 || x > parties as u32 || x > 65535 {
            return false;
        }
        if k > 0 && indices[k - 1] >= x {
            assert(!(indices@[k - 1] < indices@[k as int]));
            return false;
        }
        assert forall|i: int, j: int| 0 <= i < j < k + 1 implies indices@[i] < indices@[j] by {
            if j == k && i < k - 1 {
                assert(indices@[i] < indices@[k - 1]);
            }
        }
        k = k + 1;
    }
    true
}

/// Whether `x` occurs in `v`.
fn contains_number(v: &Vec<u32>, x: u32) -> (r: bool)
    ensures
        r == v@.contains(x),
{
    let mut k: usize = 0;
    while k < v.len()
        invariant
            k <= v@.len(),
            forall|i: int| 0 <= i < k ==> v@[i] != x,
        decreases v@.len() - k,
    {
        if v[k] == x {
            assert(v@[k as int] == x);
            return true;
        }
        k = k + 1;
    }
    false
}

/// Narrows a valid subset to 16-bit numbers.
fn narrow(indices: &Vec<u32>) -> (r: Vec<u16>)
    requires
        forall|i: int| 0 <= i < indices@.len() ==> #[trigger] indices@[i] <= u16::MAX,
    ensures
        r@ == narrowed(indices@),
{
    let mut r: Vec<u16> = Vec::new();
    let mut k: usize = 0;
    while k < indices.len()
        invariant
            k <= indices@.len(),
            forall|i: int| 0 <= i < indices@.len() ==> #[trigger] indices@[i] <= u16::MAX,
            r@ == narrowed(indices@).take(k as int),
        decreases indices@.len() - k,
    {
        r.push(indices[k] as u16);
        assert(r@ =~= narrowed(indices@).take(k + 1));
        k = k + 1;
    }
    assert(narrowed(indices@).take(k as int) =~= narrowed(indices@));
    r
}

/// Keys a batch by the signers' numbers, skipping the receiver at `local`,
/// and adds the receiver's own entry.
fn signer_batch(indices: &Vec<u16>, local: usize, batch: &Vec<Vec<u8>>, own: u16, mine: &Vec<u8>) -> (r: Vec<(u16, Vec<u8>)>)
    requires
        local < indices@.len(),
        batch@.len() + 1 == indices@.len(),
    ensures
        pairs(r@) == signer_keyed(indices@, local as int, seqs(batch@)).push((own, mine@)),
{
    let mut r: Vec<(u16, Vec<u8>)> = Vec::new();
    let mut i: usize = 0;
    while i < batch.len()
        invariant
            i <= batch@.len(),
            batch@.len() + 1 == indices@.len(),
            local < indices@.len(),
            r@.len() == i,
            pairs(r@) == signer_keyed(indices@, local as int, seqs(batch@)).take(i as int),
        decreases batch@.len() - i,
    {
        let slot: usize = if i >= local { i + 1 } else { i };
        let m = copy_bytes(&batch[i]);
        let ghost prev = r@;
        r.push((indices[slot], m));
        assert(seqs(batch@)[i as int] == batch@[i as int]@);
        assert forall|k: int| 0 <= k <= i implies pairs(r@)[k] == signer_keyed(indices@, local as int, seqs(batch@))[k] by {
            if k < i {
                assert(r@[k] == prev[k]);
                assert(pairs(prev)[k] == signer_keyed(indices@, local as int, seqs(batch@)).take(i as int)[k]);
            }
        }
        assert(pairs(r@) =~= signer_keyed(indices@, local as int, seqs(batch@)).take(i + 1));
        i = i + 1;
    }
    let ghost prev = r@;
    r.push((own, copy_bytes(mine)));
    assert(signer_keyed(indices@, local as int, seqs(batch@)).take(i as int) =~= signer_keyed(indices@, local as int, seqs(batch@)));
    assert(pairs(r@) =~= pairs(prev).push((own, mine@)));
    r
}

impl SignContext {
    /// A session over persisted key material, the JSON text of the pair
    /// (key package, public key package) that a finished key generation gives.
    pub fn new(group: &[u8]) -> (r: Result<Self, ProtocolError>)
        ensures
            match session_of_group(group@) {
                Ok(st) => r matches Ok(c) && c@ == st,
                Err(e) => r == Err::<Self, ProtocolError>(e),
            },
            r matches Ok(c) ==> c@.wf(),
    {
        let (key, pubkey, id, threshold, parties) = match decode_group(group) {
            Some(g) => g,
            None => return Err(ProtocolError::DecodeError),
        };
        let identifier = match identifier_number(&id) {
            Some(n) => n,
            None => return Err(ProtocolError::InvalidIdentifier),
        };
        if parties > 65535 {
            return Err(ProtocolError::InvalidThreshold);
        }
        let r = SignContext {
            key, pubkey, identifier, threshold, parties: parties as u16,
            message: Vec::new(), indices: Vec::new(), round: SignRound::R0,
        };
        assert(r@.message =~= Seq::<u8>::empty());
        assert(r@.indices =~= Seq::<u16>::empty());
        Ok(r)
    }

    /// Position of this signer within the signing subset.
    pub fn local_index(&self) -> (r: Result<usize, ProtocolError>)
        ensures
            match r {
                Ok(i) => i < self.indices@.len() && self.indices@[i as int] == self.identifier
                    && forall|j: int| 0 <= j < i ==> self.indices@[j] != self.identifier,
                Err(e) => e == ProtocolError::ParticipantNotIncluded && !self.indices@.contains(self.identifier),
            },
    {
        match position_of(&self.indices, self.identifier) {
            Some(i) => Ok(i),
            None => Err(ProtocolError::ParticipantNotIncluded),
        }
    }

    /// Round one: checks the envelope, binds the subset and the message,
    /// draws nonces, and broadcasts their commitments to the other signers.
    fn init(&mut self, msg: &Init) -> (r: Result<Vec<Vec<u8>>, ProtocolError>)
        requires
            old(self)@.stage is R0,
        ensures
            sign_started(old(self)@, *msg, final(self)@, outbound(r)),
            final(self)@.wf(),
    {
        if msg.protocol_type != FROST_PROTOCOL {
            return Err(ProtocolError::WrongProtocol);
        }
        if !contains_number(&msg.indices, self.identifier as u32) {
            return Err(ProtocolError::ParticipantNotIncluded);
        }
        if !check_subset(&msg.indices, self.parties) {
            return Err(ProtocolError::InvalidIdentifier);
        }
        let indices = narrow(&msg.indices);
        let ghost li = choose|i: int| 0 <= i < msg.indices@.len() && msg.indices@[i] == self.identifier as u32;
        assert(indices@[li] == self.identifier);
        if msg.indices.len() < self.threshold as usize {
            return Err(ProtocolError::InsufficientSigners);
        }
        let (nonces, commitments) = match commit(&self.key) {
            Some(c) => c,
            None => return Err(ProtocolError::CryptoError),
        };
        let out = inflate(&commitments, indices.len() - 1);
        self.indices = indices;
        self.message = copy_bytes(&msg.data);
        self.round = SignRound::R1 { nonces, commitments };
        assert(self@.indices.contains(self.identifier)) by {
            assert(self@.indices[li] == self.identifier);
        }
        Ok(out)
    }
}

impl SignContext {
    /// Rounds two and three: keys the peers' commitments, then their shares,
    /// by signer number, adds this signer's own, and hands them to the library.
    fn update(&mut self, batch: &Vec<Vec<u8>>) -> (r: Result<Vec<Vec<u8>>, ProtocolError>)
        requires
            old(self)@.wf(),
        ensures
            (final(self)@, outbound(r)) == sign_next(old(self)@, Inbound::Batch(*batch)),
    {
        if let SignRound::R0 = self.round {
            return Err(ProtocolError::NotInitialized);
        }
        if let SignRound::Done { .. } = self.round {
            return Err(ProtocolError::AlreadyFinished);
        }
        if self.indices.len() == 0 || batch.len() != self.indices.len() - 1 {
            return Err(ProtocolError::DecodeError);
        }
        let local = match self.local_index() {
            Ok(i) => i,
            Err(e) => return Err(e),
        };
        proof {
            lemma_slot_unique(self.indices@, self.identifier, local as int);
        }
        let (next, msgs) = match &self.round {
            SignRound::R1 { nonces, commitments } => {
                let all = signer_batch(&self.indices, local, batch, self.identifier, commitments);
                let package = match signing_package(&all, &self.message) {
                    Some(p) => p,
                    None => return Err(ProtocolError::CryptoError),
                };
                let share = match sign_share(&package, nonces, &self.key) {
                    Some(x) => x,
                    None => return Err(ProtocolError::CryptoError),
                };
                let out = inflate(&share, batch.len());
                (SignRound::R2 { package, share }, out)
            },
            SignRound::R2 { package, share } => {
                let all = signer_batch(&self.indices, local, batch, self.identifier, share);
                let signature = match aggregate(package, &all, &self.pubkey) {
                    Some(x) => x,
                    None => return Err(ProtocolError::CryptoError),
                };
                let out = inflate(&signature, batch.len());
                (SignRound::Done { signature }, out)
            },
            _ => return Err(ProtocolError::AlreadyFinished),
        };
        self.round = next;
        Ok(msgs)
    }

    /// Feeds one inbound item and returns the messages for the relay. The
    /// init envelope starts the run; each later round takes the batch of the
    /// other signers' messages. On an error the state is kept.
    pub fn advance(&mut self, input: Inbound) -> (r: Result<Vec<Vec<u8>>, ProtocolError>)
        requires
            old(self)@.wf(),
        ensures
            final(self)@.wf(),
            old(self)@.stage is R0 ==> match input {
                Inbound::Init(msg) => sign_started(old(self)@, msg, final(self)@, outbound(r)),
                _ => (final(self)@, outbound(r)) == sign_next(old(self)@, input),
            },
            !(old(self)@.stage is R0) ==> (final(self)@, outbound(r)) == sign_next(old(self)@, input),
    {
        match input {
            Inbound::Init(msg) => {
                if let SignRound::R0 = self.round {
                    self.init(&msg)
                } else if let SignRound::Done { .. } = self.round {
                    Err(ProtocolError::AlreadyFinished)
                } else {
                    Err(ProtocolError::DecodeError)
                }
            },
            Inbound::GroupInit(_) => {
                if let SignRound::Done { .. } = self.round {
                    Err(ProtocolError::AlreadyFinished)
                } else {
                    Err(ProtocolError::DecodeError)
                }
            },
            Inbound::Batch(batch) => self.update(&batch),
        }
    }

    /// The JSON text of the aggregated signature. Only a finished run has it.
    pub fn finish(self) -> (r: Result<Vec<u8>, ProtocolError>)
        ensures
            match self@.stage {
                SignStage::Done { signature } => match signature_encoding(signature) {
                    Some(t) => r matches Ok(x) && x@ == t,
                    None => r == Err::<Vec<u8>, ProtocolError>(ProtocolError::CryptoError),
                },
                _ => r == Err::<Vec<u8>, ProtocolError>(ProtocolError::NotFinished),
            },
    {
        match &self.round {
            SignRound::Done { signature } => match encode_signature(signature) {
                Some(t) => Ok(t),
                None => Err(ProtocolError::CryptoError),
            },
            _ => Err(ProtocolError::NotFinished),
        }
    }
}

} // verus!
