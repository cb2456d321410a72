//! The calls into frost-secp256k1 and k256. Every value of the cryptographic
//! library is carried as the bytes of its own `serialize`, and is read back
//! with its own `deserialize`.
use vstd::prelude::*;
use crate::codec::{addressed, pairs, seqs};
use frost_secp256k1 as frost;
use frost::keys::dkg::{round1, round2};
use frost::keys::{KeyPackage, PublicKeyPackage};
use frost::round1::{NonceCommitment, SigningCommitments, SigningNonces};
use frost::round2::SignatureShare;
use frost::{Identifier, Signature, SigningPackage};
use k256::elliptic_curve::sec1::{FromEncodedPoint, ToEncodedPoint};
use rand::rngs::OsRng;
use std::collections::BTreeMap;

verus! {

/// What `dkg::part2` answers for a round-1 secret and the peers' round-1
/// packages: the round-2 secret, and each round-2 package after the bytes of
/// the identifier of the peer it is for.
pub uninterp spec fn dkg_round2(secret: Seq<u8>, peers: Seq<(u16, Seq<u8>)>) -> Option<(Seq<u8>, Seq<(Seq<u8>, Seq<u8>)>)>;

/// The identifier bytes, threshold, number of parties and number of secret
/// coefficients that a round-1 secret package holds, for bytes that are one.
pub uninterp spec fn round1_fields(secret: Seq<u8>) -> Option<(Seq<u8>, u16, u16, nat)>;

/// The identifier bytes, threshold and number of parties that a round-2
/// secret package holds, for bytes that are one.
pub uninterp spec fn round2_fields(secret: Seq<u8>) -> Option<(Seq<u8>, u16, u16)>;

/// The 32 big-endian bytes of the identifier scalar of participant `n`.
pub open spec fn identifier_bytes(n: u16) -> Seq<u8> {
    Seq::new(32, |k: int| if k == 30 { (n >> 8u16) as u8 } else if k == 31 { n as u8 } else { 0u8 })
}

/// A round-1 secret that `dkg::part2` can take without panicking: frost
/// subtracts one from its party count and evaluates its polynomial, which
/// needs a coefficient.
pub open spec fn round1_usable(secret: Seq<u8>) -> bool {
    round1_fields(secret) matches Some(f) ==> f.2 >= 1 && f.3 >= 1
}

/// A round-2 secret that `dkg::part3` can take without panicking: frost
/// subtracts one from its party count.
pub open spec fn round2_usable(secret: Seq<u8>) -> bool {
    round2_fields(secret) matches Some(f) ==> f.2 >= 1
}

/// The identifiers of a list of addressed packages are pairwise distinct.
pub open spec fn distinct_recipients(p: Seq<(Seq<u8>, Seq<u8>)>) -> bool {
    forall|i: int, j: int| 0 <= i < j < p.len() ==> p[i].0 != p[j].0
}

/// What `dkg::part3` answers: key package, public key package and the JSON
/// text of the group verifying key.
pub uninterp spec fn dkg_round3(
    secret: Seq<u8>,
    round1: Seq<(u16, Seq<u8>)>,
    round2: Seq<(u16, Seq<u8>)>,
) -> Option<(Seq<u8>, Seq<u8>, Seq<u8>)>;

/// What `SigningPackage::new` builds from the signers' commitments and a message.
pub uninterp spec fn signing_package_of(commitments: Seq<(u16, Seq<u8>)>, message: Seq<u8>) -> Option<Seq<u8>>;

/// What `round2::sign` answers for a signing package, nonces and key package.
pub uninterp spec fn signature_share_of(package: Seq<u8>, nonces: Seq<u8>, key: Seq<u8>) -> Option<Seq<u8>>;

/// What `aggregate` answers for a signing package, the shares and the public
/// key package.
pub uninterp spec fn aggregate_of(package: Seq<u8>, shares: Seq<(u16, Seq<u8>)>, pubkey: Seq<u8>) -> Option<Seq<u8>>;

/// The JSON text of the pair (key package, public key package).
pub uninterp spec fn group_encoding(key: Seq<u8>, pubkey: Seq<u8>) -> Option<Seq<u8>>;

/// The JSON text of a signature.
pub uninterp spec fn signature_encoding(signature: Seq<u8>) -> Option<Seq<u8>>;

/// What a persisted key group holds: key package, public key package,
/// the bytes of this participant's identifier, the threshold and the number
/// of parties.
pub uninterp spec fn group_decoding(group: Seq<u8>) -> Option<(Seq<u8>, Seq<u8>, Seq<u8>, u16, usize)>;

/// A SEC1 point re-encoded, compressed or not.
pub uninterp spec fn reencoded(point: Seq<u8>, compress: bool) -> Option<Seq<u8>>;

/// The hiding and binding points of a commitment, each as the library encodes it.
pub uninterp spec fn commitment_points(commitments: Seq<u8>) -> Option<(Seq<u8>, Seq<u8>)>;

/// Signing commitments made from a hiding and a binding point.
pub uninterp spec fn commitments_of_points(hiding: Seq<u8>, binding: Seq<u8>) -> Option<Seq<u8>>;

/// A signature share read from its scalar bytes.
pub uninterp spec fn share_of_bytes(bytes: Seq<u8>) -> Option<Seq<u8>>;

/// Relies on frost's `dkg::part1` with the operating system's generator: a
/// fresh round-1 secret package and the package to broadcast. The secret
/// package holds the identifier, threshold and party count it was given, and
/// `threshold` coefficients; nothing is promised of what is drawn.
#[verifier::external_body]
pub(crate) fn dkg_part1(identifier: u16, parties: u16, threshold: u16) -> (r: Option<(Vec<u8>, Vec<u8>)>)
    ensures
        r matches Some(x) ==> round1_fields(x.0@) == Some((identifier_bytes(identifier), threshold, parties, threshold as nat)),
{
    let id = Identifier::try_from(identifier).ok()?;
    let (secret, package) = frost::keys::dkg::part1(id, parties, threshold, OsRng).ok()?;
    Some((secret.serialize().ok()?, package.serialize().ok()?))
}

/// Relies on frost's `dkg::part2`, whose answer is a function of the secret
/// and the peers' packages. It makes one round-2 package for each peer in the
/// map it is given, keyed by that peer's identifier (distinct keys, each
/// written by `Identifier::serialize`), and a round-2 secret that keeps the
/// round-1 secret's identifier, threshold and party count.
#[verifier::external_body]
pub(crate) fn dkg_part2(secret: &Vec<u8>, peers: &Vec<(u16, Vec<u8>)>) -> (r: Option<(Vec<u8>, Vec<(Vec<u8>, Vec<u8>)>)>)
    requires
        round1_usable(secret@),
    ensures
        r matches Some(x) ==> dkg_round2(secret@, pairs(peers@)) == Some((x.0@, addressed(x.1@))),
        r is None ==> dkg_round2(secret@, pairs(peers@)) is None,
        r matches Some(x) ==> distinct_recipients(addressed(x.1@)),
        r matches Some(x) ==> (round1_fields(secret@) matches Some(f) && round2_fields(x.0@) == Some((f.0, f.1, f.2))),
{
    let secret = round1::SecretPackage::deserialize(secret).ok()?;
    let mut map = BTreeMap::new();
    for (i, p) in peers {
        map.insert(Identifier::try_from(*i).ok()?, round1::Package::deserialize(p).ok()?);
    }
    let (secret, out) = frost::keys::dkg::part2(secret, &map).ok()?;
    let msgs: Option<Vec<(Vec<u8>, Vec<u8>)>> = out.iter().map(|(i, p)| Some((i.serialize(), p.serialize().ok()?))).collect();
    Some((secret.serialize().ok()?, msgs?))
}

/// Relies on frost's `dkg::part3`, whose answer is a function of its
/// arguments; the verifying key is written by `serde_json::to_vec`.
#[verifier::external_body]
pub(crate) fn dkg_part3(secret: &Vec<u8>, round1: &Vec<(u16, Vec<u8>)>, round2: &Vec<(u16, Vec<u8>)>) -> (r: Option<(Vec<u8>, Vec<u8>, Vec<u8>)>)
    requires
        round2_usable(secret@),
    ensures
        r matches Some(x) ==> dkg_round3(secret@, pairs(round1@), pairs(round2@)) == Some((x.0@, x.1@, x.2@)),
        r is None ==> dkg_round3(secret@, pairs(round1@), pairs(round2@)) is None,
{
    let secret = round2::SecretPackage::deserialize(secret).ok()?;
    let mut m1 = BTreeMap::new();
    for (i, p) in round1 { m1.insert(Identifier::try_from(*i).ok()?, round1::Package::deserialize(p).ok()?); }
    let mut m2 = BTreeMap::new();
    for (i, p) in round2 { m2.insert(Identifier::try_from(*i).ok()?, round2::Package::deserialize(p).ok()?); }
    let (key, pubkey) = frost::keys::dkg::part3(&secret, &m1, &m2).ok()?;
    let vk = serde_json::to_vec(pubkey.verifying_key()).ok()?;
    Some((key.serialize().ok()?, pubkey.serialize().ok()?, vk))
}

/// Relies on frost's round-1 `SecretPackage::deserialize` and its getters for
/// the identifier, threshold, party count and coefficients.
#[verifier::external_body]
pub(crate) fn read_round1_secret(secret: &Vec<u8>) -> (r: Option<(Vec<u8>, u16, u16, usize)>)
    ensures
        r matches Some(x) ==> round1_fields(secret@) == Some((x.0@, x.1, x.2, x.3 as nat)),
        r is None ==> round1_fields(secret@) is None,
{
    let s = round1::SecretPackage::deserialize(secret).ok()?;
    Some((s.identifier().serialize(), *s.min_signers(), *s.max_signers(), s.coefficients().len()))
}

/// Relies on frost's round-2 `SecretPackage::deserialize` and its getters for
/// the identifier, threshold and party count.
#[verifier::external_body]
pub(crate) fn read_round2_secret(secret: &Vec<u8>) -> (r: Option<(Vec<u8>, u16, u16)>)
    ensures
        r matches Some(x) ==> round2_fields(secret@) == Some((x.0@, x.1, x.2)),
        r is None ==> round2_fields(secret@) is None,
{
    let s = round2::SecretPackage::deserialize(secret).ok()?;
    Some((s.identifier().serialize(), *s.min_signers(), *s.max_signers()))
}

/// Relies on frost's `round1::commit` with the operating system's generator:
/// fresh nonces and their commitments. Nothing is promised of what is drawn.
#[verifier::external_body]
pub(crate) fn commit(key: &Vec<u8>) -> (r: Option<(Vec<u8>, Vec<u8>)>) {
    let key = KeyPackage::deserialize(key).ok()?;
    let (nonces, commitments) = frost::round1::commit(key.signing_share(), &mut OsRng);
    Some((nonces.serialize().ok()?, commitments.serialize().ok()?))
}

/// Relies on frost's `SigningPackage::new`, a function of the commitments and
/// the message.
#[verifier::external_body]
pub(crate) fn signing_package(commitments: &Vec<(u16, Vec<u8>)>, message: &Vec<u8>) -> (r: Option<Vec<u8>>)
    ensures
        r matches Some(x) ==> signing_package_of(pairs(commitments@), message@) == Some(x@),
        r is None ==> signing_package_of(pairs(commitments@), message@) is None,
{
    let mut map = BTreeMap::new();
    for (i, c) in commitments {
        map.insert(Identifier::try_from(*i).ok()?, SigningCommitments::deserialize(c).ok()?);
    }
    SigningPackage::new(map, message).serialize().ok()
}

/// Relies on frost's `round2::sign`, a function of its arguments.
#[verifier::external_body]
pub(crate) fn sign_share(package: &Vec<u8>, nonces: &Vec<u8>, key: &Vec<u8>) -> (r: Option<Vec<u8>>)
    ensures
        r matches Some(x) ==> signature_share_of(package@, nonces@, key@) == Some(x@),
        r is None ==> signature_share_of(package@, nonces@, key@) is None,
{
    let package = SigningPackage::deserialize(package).ok()?;
    let nonces = SigningNonces::deserialize(nonces).ok()?;
    let key = KeyPackage::deserialize(key).ok()?;
    Some(frost::round2::sign(&package, &nonces, &key).ok()?.serialize())
}

/// Relies on frost's `aggregate`, a function of its arguments; it checks the
/// shares and the signature it makes.
#[verifier::external_body]
pub(crate) fn aggregate(package: &Vec<u8>, shares: &Vec<(u16, Vec<u8>)>, pubkey: &Vec<u8>) -> (r: Option<Vec<u8>>)
    ensures
        r matches Some(x) ==> aggregate_of(package@, pairs(shares@), pubkey@) == Some(x@),
        r is None ==> aggregate_of(package@, pairs(shares@), pubkey@) is None,
{
    let package = SigningPackage::deserialize(package).ok()?;
    let mut map = BTreeMap::new();
    for (i, s) in shares { map.insert(Identifier::try_from(*i).ok()?, SignatureShare::deserialize(s).ok()?); }
    let pubkey = PublicKeyPackage::deserialize(pubkey).ok()?;
    frost::aggregate(&package, &map, &pubkey).ok()?.serialize().ok()
}

/// Relies on `serde_json::to_vec` of the pair (key package, public key package).
#[verifier::external_body]
pub(crate) fn encode_group(key: &Vec<u8>, pubkey: &Vec<u8>) -> (r: Option<Vec<u8>>)
    ensures
        r matches Some(x) ==> group_encoding(key@, pubkey@) == Some(x@),
        r is None ==> group_encoding(key@, pubkey@) is None,
{
    let key = KeyPackage::deserialize(key).ok()?;
    let pubkey = PublicKeyPackage::deserialize(pubkey).ok()?;
    serde_json::to_vec(&(key, pubkey)).ok()
}

/// Relies on `serde_json::from_slice` of the pair (key package, public key
/// package), and on frost's getters for the identifier, the threshold and the
/// verifying shares.
#[verifier::external_body]
pub(crate) fn decode_group(group: &[u8]) -> (r: Option<(Vec<u8>, Vec<u8>, Vec<u8>, u16, usize)>)
    ensures
        r matches Some(x) ==> group_decoding(group@) == Some((x.0@, x.1@, x.2@, x.3, x.4)),
        r is None ==> group_decoding(group@) is None,
{
    let (key, pubkey): (KeyPackage, PublicKeyPackage) = serde_json::from_slice(group).ok()?;
    let id = key.identifier().serialize();
    let n = pubkey.verifying_shares().len();
    Some((key.serialize().ok()?, pubkey.serialize().ok()?, id, *key.min_signers(), n))
}

/// Relies on `serde_json::to_vec` of a frost signature.
#[verifier::external_body]
pub(crate) fn encode_signature(signature: &Vec<u8>) -> (r: Option<Vec<u8>>)
    ensures
        r matches Some(x) ==> signature_encoding(signature@) == Some(x@),
        r is None ==> signature_encoding(signature@) is None,
{
    serde_json::to_vec(&Signature::deserialize(signature).ok()?).ok()
}

/// Relies on k256: `EncodedPoint::from_bytes`, `AffinePoint::from_encoded_point`
/// and `to_encoded_point`. A point that is not on the curve gives `None`; the
/// SEC1 form is 33 bytes compressed and 65 bytes uncompressed, 1 byte for
/// the point at infinity.
#[verifier::external_body]
pub(crate) fn reencode_point(point: &[u8], compress: bool) -> (r: Option<Vec<u8>>)
    ensures
        r matches Some(x) ==> reencoded(point@, compress) == Some(x@),
        r is None ==> reencoded(point@, compress) is None,
        r matches Some(x) ==> x@.len() == 1 || x@.len() == (if compress { 33nat } else { 65nat }),
{
    let encoded = k256::EncodedPoint::from_bytes(point).ok()?;
    let affine = Option::<k256::AffinePoint>::from(k256::AffinePoint::from_encoded_point(&encoded))?;
    Some(affine.to_encoded_point(compress).as_bytes().to_vec())
}

/// Relies on frost's `SigningCommitments::hiding` and `binding`, each point
/// written by `NonceCommitment::serialize`.
#[verifier::external_body]
pub(crate) fn split_commitments(commitments: &Vec<u8>) -> (r: Option<(Vec<u8>, Vec<u8>)>)
    ensures
        r matches Some(x) ==> commitment_points(commitments@) == Some((x.0@, x.1@)),
        r is None ==> commitment_points(commitments@) is None,
{
    let c = SigningCommitments::deserialize(commitments).ok()?;
    Some((c.hiding().serialize().ok()?, c.binding().serialize().ok()?))
}

/// Relies on frost's `NonceCommitment::deserialize` and `SigningCommitments::new`.
#[verifier::external_body]
pub(crate) fn join_commitments(hiding: &[u8], binding: &[u8]) -> (r: Option<Vec<u8>>)
    ensures
        r matches Some(x) ==> commitments_of_points(hiding@, binding@) == Some(x@),
        r is None ==> commitments_of_points(hiding@, binding@) is None,
{
    let hiding = NonceCommitment::deserialize(hiding).ok()?;
    let binding = NonceCommitment::deserialize(binding).ok()?;
    SigningCommitments::new(hiding, binding).serialize().ok()
}

/// Relies on frost's `SignatureShare::deserialize` of a scalar.
#[verifier::external_body]
pub(crate) fn read_share(bytes: &[u8]) -> (r: Option<Vec<u8>>)
    ensures
        r matches Some(x) ==> share_of_bytes(bytes@) == Some(x@),
        r is None ==> share_of_bytes(bytes@) is None,
{
    Some(SignatureShare::deserialize(bytes).ok()?.serialize())
}

} // verus!
