//! The three-round distributed key generation, one session per participant.
use vstd::prelude::*;
use crate::codec::{addressed, copies, copy_batch, copy_bytes, inflate, pairs, seqs};
use crate::crypto::{
    distinct_recipients, dkg_part1, dkg_part2, dkg_part3, dkg_round2, dkg_round3, encode_group, group_encoding,
    identifier_bytes, round1_fields, round1_usable, round2_usable,
};
use crate::error::ProtocolError;
use crate::index::peer_identifier;
use crate::protocol::{GroupInit, Inbound, FROST_PROTOCOL};

verus! {

/// Where a key generation stands. Secrets are the library's serialized packages.
#[derive(Debug, Clone)]
pub enum KeygenRound {
    R0,
    R1 { secret: Vec<u8>, identifier: u16, parties: u16 },
    R2 { secret: Vec<u8>, identifier: u16, parties: u16, batch1: Vec<Vec<u8>> },
    Done { key: Vec<u8>, pubkey: Vec<u8> },
}

/// The abstract state of a key generation.
pub ghost enum KeygenState {
    R0,
    R1 { secret: Seq<u8>, identifier: u16, parties: u16 },
    R2 { secret: Seq<u8>, identifier: u16, parties: u16, batch1: Seq<Seq<u8>> },
    Done { key: Seq<u8>, pubkey: Seq<u8> },
}

impl View for KeygenRound {
    type V = KeygenState;

    open spec fn view(&self) -> KeygenState {
        match self {
            KeygenRound::R0 => KeygenState::R0,
            KeygenRound::R1 { secret, identifier, parties } => KeygenState::R1 {
                secret: secret@,
                identifier: *identifier,
                parties: *parties,
            },
            KeygenRound::R2 { secret, identifier, parties, batch1 } => KeygenState::R2 {
                secret: secret@,
                identifier: *identifier,
                parties: *parties,
                batch1: seqs(batch1@),
            },
            KeygenRound::Done { key, pubkey } => KeygenState::Done { key: key@, pubkey: pubkey@ },
        }
    }
}

/// One participant's key generation session.
#[derive(Debug, Clone)]
pub struct KeygenContext {
    pub round: KeygenRound,
}

impl View for KeygenContext {
    type V = KeygenState;

    open spec fn view(&self) -> KeygenState {
        self.round@
    }
}

impl KeygenState {
    /// A session in progress knows its own identifier among `parties >= 2`,
    /// holds a secret that the library can take, and after round two the
    /// peers' round-1 packages.
    pub open spec fn wf(self) -> bool {
        match self {
            KeygenState::R1 { secret, identifier, parties } => 1 <= identifier <= parties && parties >= 2
                && round1_usable(secret),
            KeygenState::R2 { secret, identifier, parties, batch1 } => 1 <= identifier <= parties && parties >= 2
                && batch1.len() + 1 == parties && round2_usable(secret),
            _ => true,
        }
    }
}

/// A batch keyed by the senders' identifiers, for the receiver `local`.
pub open spec fn keyed(batch: Seq<Seq<u8>>, local: u16) -> Seq<(u16, Seq<u8>)> {
    Seq::new(batch.len(), |i: int| (peer_identifier(i, local as int) as u16, batch[i]))
}

/// The error with which a group-init envelope is refused, if any.
pub open spec fn group_init_error(m: GroupInit) -> Option<ProtocolError> {
    if m.protocol_type != FROST_PROTOCOL {
        Some(ProtocolError::WrongProtocol)
    } else if m.threshold < 2 || m.parties < m.threshold || m.parties > u16::MAX {
        Some(ProtocolError::InvalidThreshold)
    } else if m.index < 1 || m.index > m.parties {
        Some(ProtocolError::InvalidIdentifier)
    } else {
        None
    }
}

/// What starting a key generation promises: the exact error with the state
/// kept, or round one with the envelope's identifier and party count and one
/// identical message for each peer.
pub open spec fn keygen_started(
    a: KeygenState,
    m: GroupInit,
    b: KeygenState,
    r: Result<Seq<Seq<u8>>, ProtocolError>,
) -> bool {
    match group_init_error(m) {
        Some(e) => r == Err::<Seq<Seq<u8>>, ProtocolError>(e) && b == a,
        None => match r {
            Err(e) => e == ProtocolError::CryptoError && b == a,
            Ok(out) => (b matches KeygenState::R1 { secret, identifier, parties } && identifier == m.index
                && parties == m.parties && round1_fields(secret) == Some(
                (identifier_bytes(m.index as u16), m.threshold as u16, m.parties as u16, m.threshold as nat),
            )) && out.len() + 1 == m.parties
                && forall|i: int, j: int| 0 <= i < out.len() && 0 <= j < out.len() ==> out[i] == out[j],
        },
    }
}

/// The outbound messages of a step, as plain contents.
pub open spec fn outbound(r: Result<Vec<Vec<u8>>, ProtocolError>) -> Result<Seq<Seq<u8>>, ProtocolError> {
    match r {
        Ok(v) => Ok(seqs(v@)),
        Err(e) => Err(e),
    }
}

/// Where `list` holds a package for the `k`-th peer of a batch of `n`, for
/// each `k`: those packages in batch order.
pub open spec fn routed(list: Seq<(Seq<u8>, Seq<u8>)>, local: u16, n: nat) -> Option<Seq<Seq<u8>>> {
    if forall|k: int| 0 <= k < n ==> #[trigger] holds_for(list, peer_identifier(k, local as int) as u16) {
        Some(Seq::new(n, |k: int| list[slot_for(list, peer_identifier(k, local as int) as u16)].1))
    } else {
        None
    }
}

/// Some entry of `list` is for participant `id`.
pub open spec fn holds_for(list: Seq<(Seq<u8>, Seq<u8>)>, id: u16) -> bool {
    exists|j: int| 0 <= j < list.len() && list[j].0 == identifier_bytes(id)
}

/// The entry of `list` for participant `id`.
pub open spec fn slot_for(list: Seq<(Seq<u8>, Seq<u8>)>, id: u16) -> int {
    choose|j: int| 0 <= j < list.len() && list[j].0 == identifier_bytes(id)
}

/// A step of key generation that is not its start: the next state and the
/// outbound messages, or the error (the state is then kept).
pub open spec fn keygen_next(s: KeygenState, input: Inbound) -> (KeygenState, Result<Seq<Seq<u8>>, ProtocolError>) {
    match s {
        KeygenState::R0 => match input {
            Inbound::Batch(_) => (s, Err(ProtocolError::NotInitialized)),
            _ => (s, Err(ProtocolError::DecodeError)),
        },
        KeygenState::R1 { secret, identifier, parties } => match input {
            Inbound::Batch(b) => if b@.len() + 1 != parties {
                (s, Err(ProtocolError::DecodeError))
            } else {
                let round1 = keyed(seqs(b@), identifier);
                match dkg_round2(secret, round1) {
                    Some((secret2, list)) => match routed(list, identifier, b@.len()) {
                        Some(msgs) => (
                            KeygenState::R2 { secret: secret2, identifier, parties, batch1: seqs(b@) },
                            Ok(msgs),
                        ),
                        None => (s, Err(ProtocolError::CryptoError)),
                    },
                    None => (s, Err(ProtocolError::CryptoError)),
                }
            },
            _ => (s, Err(ProtocolError::DecodeError)),
        },
        KeygenState::R2 { secret, identifier, parties, batch1 } => match input {
            Inbound::Batch(b) => if b@.len() + 1 != parties {
                (s, Err(ProtocolError::DecodeError))
            } else {
                let round2 = keyed(seqs(b@), identifier);
                match dkg_round3(secret, keyed(batch1, identifier), round2) {
                    Some((key, pubkey, group_key)) => (
                        KeygenState::Done { key, pubkey },
                        Ok(copies(group_key, b@.len())),
                    ),
                    None => (s, Err(ProtocolError::CryptoError)),
                }
            },
            _ => (s, Err(ProtocolError::DecodeError)),
        },
        KeygenState::Done { .. } => (s, Err(ProtocolError::AlreadyFinished)),
    }
}

/// Keys a batch by the senders' identifiers, skipping the receiver's own.
fn key_batch(batch: &Vec<Vec<u8>>, local: u16) -> (r: Vec<(u16, Vec<u8>)>)
    requires
        local >= 1,
        batch@.len() + 1 <= u16::MAX,
    ensures
        pairs(r@) == keyed(seqs(batch@), local),
{
    let mut r: Vec<(u16, Vec<u8>)> = Vec::new();
    let mut i: usize = 0;
    while i < batch.len()
        invariant
            i <= batch@.len(),
            batch@.len() + 1 <= u16::MAX,
            local >= 1,
            r@.len() == i,
            pairs(r@) == keyed(seqs(batch@), local).take(i as int),
        decreases batch@.len() - i,
    {
        let id: u16 = KeygenContext::index_to_identifier(i, local);
        let m = copy_bytes(&batch[i]);
        let ghost prev = r@;
        r.push((id, m));
        assert(seqs(batch@)[i as int] == batch@[i as int]@);
        assert forall|k: int| 0 <= k <= i implies pairs(r@)[k] == keyed(seqs(batch@), local)[k] by {
            if k < i {
                assert(r@[k] == prev[k]);
                assert(pairs(prev)[k] == keyed(seqs(batch@), local).take(i as int)[k]);
            }
        }
        assert(pairs(r@) =~= keyed(seqs(batch@), local).take(i + 1));
        i = i + 1;
    }
    assert(keyed(seqs(batch@), local).take(i as int) =~= keyed(seqs(batch@), local));
    r
}

/// The 32 identifier bytes of participant `n`.
fn identifier_bytes_of(n: u16) -> (r: Vec<u8>)
    ensures
        r@ == identifier_bytes(n),
{
    let mut r: Vec<u8> = Vec::new();
    let mut k: usize = 0;
    while k < 30
        invariant
            k <= 30,
            r@.len() == k,
            forall|i: int| 0 <= i < k ==> r@[i] == 0u8,
        decreases 30 - k,
    {
        r.push(0u8);
        k = k + 1;
    }
    r.push((n >> 8u16) as u8);
    r.push(n as u8);
    assert(r@ =~= identifier_bytes(n));
    r
}

/// Whether two byte strings are equal.
fn same_bytes(a: &Vec<u8>, b: &Vec<u8>) -> (r: bool)
    ensures
        r == (a@ == b@),
{
    if a.len() != b.len() {
        return false;
    }
    let mut i: usize = 0;
    while i < a.len()
        invariant
            a@.len() == b@.len(),
            i <= a@.len(),
            forall|k: int| 0 <= k < i ==> a@[k] == b@[k],
        decreases a@.len() - i,
    {
        if a[i] != b[i] {
            return false;
        }
        i = i + 1;
    }
    assert(a@ =~= b@);
    true
}

/// Puts the round-2 packages in batch order: entry `k` is the package for
/// the `k`-th peer, found by its identifier.
fn route(list: &Vec<(Vec<u8>, Vec<u8>)>, local: u16, n: usize) -> (r: Option<Vec<Vec<u8>>>)
    requires
        distinct_recipients(addressed(list@)),
        local >= 1,
        n + 1 <= u16::MAX,
    ensures
        match routed(addressed(list@), local, n as nat) {
            Some(s) => r matches Some(v) && seqs(v@) == s,
            None => r is None,
        },
{
    let ghost l = addressed(list@);
    let mut out: Vec<Vec<u8>> = Vec::new();
    let mut k: usize = 0;
    while k < n
        invariant
            l == addressed(list@),
            distinct_recipients(l),
            local >= 1,
            n + 1 <= u16::MAX,
            k <= n,
            out@.len() == k,
            forall|i: int| 0 <= i < k ==> #[trigger] holds_for(l, peer_identifier(i, local as int) as u16),
            forall|i: int| 0 <= i < k ==> out@[i]@ == l[slot_for(l, peer_identifier(i, local as int) as u16)].1,
        decreases n - k,
    {
        let id = KeygenContext::index_to_identifier(k, local);
        let target = identifier_bytes_of(id);
        let mut j: usize = 0;
        let mut found = false;
        assert(l.len() == list@.len());
        while !found && j < list.len()
            invariant
                l == addressed(list@),
                l.len() == list@.len(),
                target@ == identifier_bytes(id),
                j <= list@.len(),
                found ==> j < list@.len() && l[j as int].0 == identifier_bytes(id),
                !found ==> forall|i: int| 0 <= i < j ==> l[i].0 != identifier_bytes(id),
            decreases list@.len() - j + (if found { 0int } else { 1int }),
        {
            assert(l[j as int].0 == list@[j as int].0@);
            if same_bytes(&list[j].0, &target) {
                found = true;
            } else {
                j = j + 1;
            }
        }
        if !found {
            assert(!holds_for(l, id));
            assert(routed(l, local, n as nat) is None) by {
                assert(!holds_for(l, peer_identifier(k as int, local as int) as u16));
            }
            return None;
        }
        assert(l[j as int].1 == list@[j as int].1@);
        assert(holds_for(l, id));
        let ghost c = slot_for(l, id);
        assert(c == j as int) by {
            if c != j as int {
                if c < j as int {
                    assert(l[c].0 != l[j as int].0);
                } else {
                    assert(l[j as int].0 != l[c].0);
                }
            }
        }
        let ghost prev = out@;
        out.push(copy_bytes(&list[j].1));
        assert forall|i: int| 0 <= i < k + 1 implies out@[i]@ == l[slot_for(l, peer_identifier(i, local as int) as u16)].1 by {
            if i < k {
                assert(out@[i] == prev[i]);
            }
        }
        k = k + 1;
    }
    assert(seqs(out@) =~= Seq::new(n as nat, |i: int| l[slot_for(l, peer_identifier(i, local as int) as u16)].1));
    Some(out)
}

impl KeygenContext {
    /// A session that waits for its group-init envelope.
    pub fn new() -> (r: Self)
        ensures
            r@ == KeygenState::R0,
            r@.wf(),
    {
        KeygenContext { round: KeygenRound::R0 }
    }

    /// The identifier of the sender at `index` of a batch received by the
    /// participant `local_identifier`: the batch omits the receiver's own slot.
    pub fn index_to_identifier(index: usize, local_identifier: u16) -> (r: u16)
        requires
            local_identifier >= 1,
            index + 2 <= u16::MAX,
        ensures
            r == peer_identifier(index as int, local_identifier as int),
    {
        let position = index as u16 + 1;
        if position >= local_identifier {
            position + 1
        } else {
            position
        }
    }

    /// Round one: checks the envelope, draws this participant's round-1
    /// secret, and broadcasts the public package to the other participants.
    fn init(&mut self, msg: &GroupInit) -> (r: Result<Vec<Vec<u8>>, ProtocolError>)
        requires
            old(self)@ is R0,
        ensures
            keygen_started(old(self)@, *msg, final(self)@, outbound(r)),
            final(self)@.wf(),
    {
        if msg.protocol_type != FROST_PROTOCOL {
            return Err(ProtocolError::WrongProtocol);
        }
        if msg.threshold < 2 || msg.parties < msg.threshold || msg.parties > 65535 {
            return Err(ProtocolError::InvalidThreshold);
        }
        if msg.index < 1 || msg.index > msg.parties {
            return Err(ProtocolError::InvalidIdentifier);
        }
        let parties = msg.parties as u16;
        let identifier = msg.index as u16;
        match dkg_part1(identifier, parties, msg.threshold as u16) {
            Some((secret, package)) => {
                let out = inflate(&package, (parties - 1) as usize);
                assert(seqs(out@).len() == out@.len());
                self.round = KeygenRound::R1 { secret, identifier, parties };
                Ok(out)
            },
            None => Err(ProtocolError::CryptoError),
        }
    }
}

impl KeygenContext {
    /// Rounds two and three: keys the peers' packages by identifier, hands
    /// them to the library, and emits the next round's messages.
    fn update(&mut self, batch: &Vec<Vec<u8>>) -> (r: Result<Vec<Vec<u8>>, ProtocolError>)
        requires
            old(self)@.wf(),
        ensures
            (final(self)@, outbound(r)) == keygen_next(old(self)@, Inbound::Batch(*batch)),
            r matches Ok(out) ==> out@.len() == batch@.len(),
            final(self)@.wf(),
    {
        let (next, msgs) = match &self.round {
            KeygenRound::R0 => return Err(ProtocolError::NotInitialized),
            KeygenRound::R1 { secret, identifier, parties } => {
                if batch.len() != (*parties - 1) as usize {
                    return Err(ProtocolError::DecodeError);
                }
                let round1 = key_batch(batch, *identifier);
                match dkg_part2(secret, &round1) {
                    Some((secret2, list)) => match route(&list, *identifier, batch.len()) {
                        Some(msgs) => {
                            assert(seqs(msgs@).len() == msgs@.len());
                            (
                                KeygenRound::R2 { secret: secret2, identifier: *identifier, parties: *parties, batch1: copy_batch(batch) },
                                msgs,
                            )
                        },
                        None => return Err(ProtocolError::CryptoError),
                    },
                    None => return Err(ProtocolError::CryptoError),
                }
            },
            KeygenRound::R2 { secret, identifier, parties, batch1 } => {
                if batch.len() != (*parties - 1) as usize {
                    return Err(ProtocolError::DecodeError);
                }
                let round1 = key_batch(batch1, *identifier);
                let round2 = key_batch(batch, *identifier);
                match dkg_part3(secret, &round1, &round2) {
                    Some((key, pubkey, group_key)) => {
                        let out = inflate(&group_key, batch.len());
                        assert(seqs(out@).len() == out@.len());
                        (KeygenRound::Done { key, pubkey }, out)
                    },
                    None => return Err(ProtocolError::CryptoError),
                }
            },
            KeygenRound::Done { .. } => return Err(ProtocolError::AlreadyFinished),
        };
        self.round = next;
        Ok(msgs)
    }

    /// Feeds one inbound item and returns the messages for the relay. The
    /// group-init envelope starts the session; each later round takes the
    /// batch of the peers' messages. On an error the state is kept.
    pub fn advance(&mut self, input: Inbound) -> (r: Result<Vec<Vec<u8>>, ProtocolError>)
        requires
            old(self)@.wf(),
        ensures
            final(self)@.wf(),
            old(self)@ is R0 ==> match input {
                Inbound::GroupInit(msg) => keygen_started(old(self)@, msg, final(self)@, outbound(r)),
                _ => (final(self)@, outbound(r)) == keygen_next(old(self)@, input),
            },
            !(old(self)@ is R0) ==> (final(self)@, outbound(r)) == keygen_next(old(self)@, input),
            input matches Inbound::Batch(b) ==> (r matches Ok(out) ==> out@.len() == b@.len()),
    {
        match input {
            Inbound::GroupInit(msg) => {
                if let KeygenRound::R0 = self.round {
                    self.init(&msg)
                } else if let KeygenRound::Done { .. } = self.round {
                    Err(ProtocolError::AlreadyFinished)
                } else {
                    Err(ProtocolError::DecodeError)
                }
            },
            Inbound::Init(_) => {
                if let KeygenRound::Done { .. } = self.round {
                    Err(ProtocolError::AlreadyFinished)
                } else {
                    Err(ProtocolError::DecodeError)
                }
            },
            Inbound::Batch(batch) => self.update(&batch),
        }
    }

    /// The persisted key material: the JSON text of the pair (key package,
    /// public key package). Only a finished session has it.
    pub fn finish(self) -> (r: Result<Vec<u8>, ProtocolError>)
        ensures
            match self@ {
                KeygenState::Done { key, pubkey } => match group_encoding(key, pubkey) {
                    Some(g) => r matches Ok(x) && x@ == g,
                    None => r == Err::<Vec<u8>, ProtocolError>(ProtocolError::CryptoError),
                },
                _ => r == Err::<Vec<u8>, ProtocolError>(ProtocolError::NotFinished),
            },
    {
        match &self.round {
            KeygenRound::Done { key, pubkey } => match encode_group(key, pubkey) {
                Some(g) => Ok(g),
                None => Err(ProtocolError::CryptoError),
            },
            _ => Err(ProtocolError::NotFinished),
        }
    }
}

} // verus!
