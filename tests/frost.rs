use frost_driver::error::ProtocolError;
use frost_driver::protocol::{GroupInit, Inbound, Init, Protocol, ProtocolId, FROST_PROTOCOL};
use frost_secp256k1::keys::{KeyPackage, PublicKeyPackage};
use frost_secp256k1::{Signature, VerifyingKey};
use rand::rngs::OsRng;
use rand::seq::IteratorRandom;

/// The message that sender `from` addressed to receiver `to`, both positions
/// in the list of sessions.
fn addressed(outs: &[Vec<Vec<u8>>], from: usize, to: usize) -> Vec<u8> {
    let k = if to < from { to } else { to - 1 };
    outs[from][k].clone()
}

/// Relays one round: each session gets its peers' messages in order.
fn relay(sessions: &mut [Protocol], outs: &[Vec<Vec<u8>>]) -> Vec<Vec<Vec<u8>>> {
    let n = sessions.len();
    let mut next = Vec::new();
    for to in 0..n {
        let batch: Vec<Vec<u8>> = (0..n).filter(|&from| from != to).map(|from| addressed(outs, from, to)).collect();
        next.push(sessions[to].advance(Inbound::Batch(batch)).unwrap());
    }
    next
}

fn start_keygen(threshold: u32, parties: u32) -> (Vec<Protocol>, Vec<Vec<Vec<u8>>>) {
    let mut sessions = Vec::new();
    let mut outs = Vec::new();
    for i in 0..parties {
        let mut p = Protocol::keygen(ProtocolId::Frost).unwrap();
        let init = GroupInit { protocol_type: FROST_PROTOCOL, parties, threshold, index: i + 1 };
        outs.push(p.advance(Inbound::GroupInit(init)).unwrap());
        sessions.push(p);
    }
    (sessions, outs)
}

fn finish_all(sessions: Vec<Protocol>) -> Vec<Vec<u8>> {
    sessions.into_iter().map(|s| s.finish().unwrap()).collect()
}

/// Runs a whole key generation and returns each participant's key material.
fn run_keygen(threshold: u32, parties: u32) -> Vec<Vec<u8>> {
    let (mut sessions, outs) = start_keygen(threshold, parties);
    let outs = relay(&mut sessions, &outs);
    let _ = relay(&mut sessions, &outs);
    finish_all(sessions)
}

fn group_parts(group: &[u8]) -> (KeyPackage, PublicKeyPackage) {
    serde_json::from_slice(group).unwrap()
}

fn start_sign(groups: &[Vec<u8>], indices: &[u32], msg: &[u8]) -> (Vec<Protocol>, Vec<Vec<Vec<u8>>>) {
    let mut sessions = Vec::new();
    let mut outs = Vec::new();
    for &g in indices {
        let mut p = Protocol::init(ProtocolId::Frost, &groups[(g - 1) as usize]).unwrap();
        let init = Init { protocol_type: FROST_PROTOCOL, indices: indices.to_vec(), data: msg.to_vec() };
        outs.push(p.advance(Inbound::Init(init)).unwrap());
        sessions.push(p);
    }
    (sessions, outs)
}

/// Runs a signing run among `indices` and returns each signer's signature.
fn run_sign(groups: &[Vec<u8>], indices: &[u32], msg: &[u8]) -> Vec<Signature> {
    let (mut sessions, outs) = start_sign(groups, indices, msg);
    let outs = relay(&mut sessions, &outs);
    let _ = relay(&mut sessions, &outs);
    finish_all(sessions).iter().map(|s| serde_json::from_slice(s).unwrap()).collect()
}

fn group_key(group: &[u8]) -> VerifyingKey {
    *group_parts(group).1.verifying_key()
}

#[test]
fn keygen() {
    for threshold in 2..6 {
        for parties in threshold..6 {
            let groups = run_keygen(threshold as u32, parties as u32);
            let pks: Vec<VerifyingKey> = groups.iter().map(|g| group_key(g)).collect();
            for i in 1..parties {
                assert_eq!(pks[0], pks[i])
            }
        }
    }
}

#[test]
fn sign() {
    for threshold in 2..6 {
        for parties in threshold..6 {
            let groups = run_keygen(threshold as u32, parties as u32);
            let msg = b"hello";
            let pk = group_key(&groups[0]);
            let mut indices = (1..=parties as u32).choose_multiple(&mut OsRng, threshold);
            indices.sort();
            let results = run_sign(&groups, &indices, msg);
            let signature = results[0];
            for result in results {
                assert_eq!(signature, result);
            }
            assert!(pk.verify(msg, &signature).is_ok());
        }
    }
}

#[test]
fn keygen_all_sizes_agree() {
    for parties in 2..=6u32 {
        for threshold in 2..=parties {
            let groups = run_keygen(threshold, parties);
            let keys: Vec<Vec<u8>> = groups.iter().map(|g| group_key(g).serialize().unwrap()).collect();
            assert!(keys.iter().all(|k| *k == keys[0]));
        }
    }
}

#[test]
fn dkg_two_of_three() {
    let groups = run_keygen(2, 3);
    let key = group_key(&groups[0]);
    assert_eq!(group_key(&groups[1]), key);
    assert_eq!(group_key(&groups[2]), key);
    let shares: Vec<Vec<u8>> = groups.iter().map(|g| group_parts(g).0.signing_share().serialize()).collect();
    assert_ne!(shares[0], shares[1]);
    assert_ne!(shares[0], shares[2]);
    assert_ne!(shares[1], shares[2]);
}

#[test]
fn sign_one_and_three_hello() {
    let groups = run_keygen(2, 3);
    let sigs = run_sign(&groups, &[1, 3], b"hello");
    assert_eq!(sigs[0], sigs[1]);
    assert!(group_key(&groups[0]).verify(b"hello", &sigs[0]).is_ok());
}

#[test]
fn three_of_five_two_subsets() {
    let groups = run_keygen(3, 5);
    let key = group_key(&groups[0]);
    let a = run_sign(&groups, &[2, 3, 5], b"test");
    assert!(a.iter().all(|s| *s == a[0]));
    assert!(key.verify(b"test", &a[0]).is_ok());
    let b = run_sign(&groups, &[1, 2, 4], b"test2");
    assert!(b.iter().all(|s| *s == b[0]));
    assert!(key.verify(b"test2", &b[0]).is_ok());
}

#[test]
fn two_of_two() {
    let groups = run_keygen(2, 2);
    let sigs = run_sign(&groups, &[1, 2], b"hello");
    assert_eq!(sigs[0], sigs[1]);
    assert!(group_key(&groups[1]).verify(b"hello", &sigs[0]).is_ok());
}

#[test]
fn signer_outside_subset_is_refused() {
    let groups = run_keygen(2, 3);
    let mut p = Protocol::init(ProtocolId::Frost, &groups[0]).unwrap();
    let init = Init { protocol_type: FROST_PROTOCOL, indices: vec![2, 3], data: b"hello".to_vec() };
    assert_eq!(p.advance(Inbound::Init(init)), Err(ProtocolError::ParticipantNotIncluded));
}

#[test]
fn advance_after_done_is_refused() {
    let (mut sessions, outs) = start_keygen(2, 2);
    let outs = relay(&mut sessions, &outs);
    let outs = relay(&mut sessions, &outs);
    let batch = vec![addressed(&outs, 1, 0)];
    assert_eq!(sessions[0].advance(Inbound::Batch(batch)), Err(ProtocolError::AlreadyFinished));
}

#[test]
fn wrong_protocol_type_is_refused() {
    let mut p = Protocol::keygen(ProtocolId::Frost).unwrap();
    let init = GroupInit { protocol_type: FROST_PROTOCOL + 1, parties: 3, threshold: 2, index: 1 };
    assert_eq!(p.advance(Inbound::GroupInit(init)), Err(ProtocolError::WrongProtocol));
}

#[test]
fn batch_before_init_is_refused() {
    let mut p = Protocol::keygen(ProtocolId::Frost).unwrap();
    assert_eq!(p.advance(Inbound::Batch(vec![vec![1]])), Err(ProtocolError::NotInitialized));
}

#[test]
fn bad_group_parameters_are_refused() {
    let mut p = Protocol::keygen(ProtocolId::Frost).unwrap();
    let low = GroupInit { protocol_type: FROST_PROTOCOL, parties: 3, threshold: 1, index: 1 };
    assert_eq!(p.advance(Inbound::GroupInit(low)), Err(ProtocolError::InvalidThreshold));
    let out = GroupInit { protocol_type: FROST_PROTOCOL, parties: 3, threshold: 2, index: 4 };
    assert_eq!(p.advance(Inbound::GroupInit(out)), Err(ProtocolError::InvalidIdentifier));
    let zero = GroupInit { protocol_type: FROST_PROTOCOL, parties: 3, threshold: 2, index: 0 };
    assert_eq!(p.advance(Inbound::GroupInit(zero)), Err(ProtocolError::InvalidIdentifier));
}

#[test]
fn bad_subsets_are_refused() {
    let groups = run_keygen(3, 4);
    let mut p = Protocol::init(ProtocolId::Frost, &groups[0]).unwrap();
    let unsorted = Init { protocol_type: FROST_PROTOCOL, indices: vec![2, 1, 3], data: vec![] };
    assert_eq!(p.advance(Inbound::Init(unsorted)), Err(ProtocolError::InvalidIdentifier));
    let too_big = Init { protocol_type: FROST_PROTOCOL, indices: vec![1, 2, 5], data: vec![] };
    assert_eq!(p.advance(Inbound::Init(too_big)), Err(ProtocolError::InvalidIdentifier));
    let short = Init { protocol_type: FROST_PROTOCOL, indices: vec![1, 2], data: vec![] };
    assert_eq!(p.advance(Inbound::Init(short)), Err(ProtocolError::InsufficientSigners));
    let other = Init { protocol_type: FROST_PROTOCOL + 1, indices: vec![1, 2, 3], data: vec![] };
    assert_eq!(p.advance(Inbound::Init(other)), Err(ProtocolError::WrongProtocol));
}

#[test]
fn wrong_batch_length_is_refused() {
    let (mut sessions, _) = start_keygen(2, 3);
    assert_eq!(sessions[0].advance(Inbound::Batch(vec![vec![0]])), Err(ProtocolError::DecodeError));
}

#[test]
fn finish_before_done_is_refused() {
    let p = Protocol::keygen(ProtocolId::Frost).unwrap();
    assert_eq!(p.finish(), Err(ProtocolError::NotFinished));
}

#[test]
fn other_families_are_refused() {
    assert!(matches!(Protocol::keygen(ProtocolId::Gg18), Err(ProtocolError::WrongProtocol)));
    assert!(matches!(Protocol::init(ProtocolId::Elgamal, b"{}"), Err(ProtocolError::WrongProtocol)));
    assert!(matches!(Protocol::init(ProtocolId::Frost, b"not json"), Err(ProtocolError::DecodeError)));
}

#[test]
fn round_one_is_a_broadcast() {
    let (_, outs) = start_keygen(2, 4);
    assert_eq!(outs[0].len(), 3);
    assert!(outs[0].iter().all(|m| *m == outs[0][0]));
}

fn restore_all(sessions: Vec<Protocol>) -> Vec<Protocol> {
    sessions
        .iter()
        .map(|s| Protocol::deserialize(&s.serialize().unwrap()).unwrap())
        .collect()
}

#[test]
fn snapshot_after_round_one() {
    let (sessions, outs) = start_keygen(2, 3);
    let mut sessions = restore_all(sessions);
    let outs = relay(&mut sessions, &outs);
    let mut sessions = restore_all(sessions);
    let _ = relay(&mut sessions, &outs);
    let groups = finish_all(restore_all(sessions));
    let key = group_key(&groups[0]);
    assert_eq!(group_key(&groups[2]), key);

    let (sessions, outs) = start_sign(&groups, &[1, 2], b"hello");
    let mut sessions = restore_all(sessions);
    let outs = relay(&mut sessions, &outs);
    let mut sessions = restore_all(sessions);
    let _ = relay(&mut sessions, &outs);
    let sigs: Vec<Signature> =
        finish_all(sessions).iter().map(|s| serde_json::from_slice(s).unwrap()).collect();
    assert_eq!(sigs[0], sigs[1]);
    assert!(key.verify(b"hello", &sigs[0]).is_ok());
}

#[test]
fn snapshot_bytes_round_trip() {
    let (sessions, _) = start_keygen(2, 3);
    let b = sessions[0].serialize().unwrap();
    let again = Protocol::deserialize(&b).unwrap();
    assert_eq!(again.serialize().unwrap(), b);
    let fresh = Protocol::keygen(ProtocolId::Frost).unwrap().serialize().unwrap();
    assert_eq!(fresh, vec![0, 0, 0, 2, 1, 0]);
    assert!(Protocol::deserialize(&[0, 0, 0, 2, 9, 0]).is_none());
    assert!(Protocol::deserialize(&[0, 0, 0, 2, 1]).is_none());
}

#[test]
fn absent_signer_is_refused_before_range() {
    let groups = run_keygen(2, 3);
    let mut p = Protocol::init(ProtocolId::Frost, &groups[0]).unwrap();
    let init = Init { protocol_type: FROST_PROTOCOL, indices: vec![0], data: b"hello".to_vec() };
    assert_eq!(p.advance(Inbound::Init(init)), Err(ProtocolError::ParticipantNotIncluded));
    let init = Init { protocol_type: FROST_PROTOCOL, indices: vec![3, 2], data: b"hello".to_vec() };
    assert_eq!(p.advance(Inbound::Init(init)), Err(ProtocolError::ParticipantNotIncluded));
}

#[test]
fn round_two_is_one_package_per_peer() {
    let (mut sessions, outs) = start_keygen(3, 4);
    let outs = relay(&mut sessions, &outs);
    assert!(outs.iter().all(|o| o.len() == 3));
    assert_ne!(outs[0][0], outs[0][1]);
}
