//! Snapshots of a session: every field it holds, framed as one byte string,
//! so that a session can be stopped and resumed in another process. A
//! snapshot holds secret material (round secrets, nonces): keep it private.
use vstd::prelude::*;
use crate::codec::{copy_bytes, framable, pack, packed, seqs, unpack, unpacked, lemma_unpack_pack};
use crate::crypto::{read_round1_secret, read_round2_secret};
use crate::keygen::{KeygenContext, KeygenRound, KeygenState};
use crate::protocol::{Protocol, ProtocolState};
use crate::sign::{SignContext, SignRound, SignStage, SignState};

verus! {

/// Marks a key generation in the first field of a snapshot.
pub const KEYGEN_TAG: u8 = 1;
/// Marks a signing run in the first field of a snapshot.
pub const SIGN_TAG: u8 = 2;

/// The two big-endian bytes of a number.
pub open spec fn be16(x: u16) -> Seq<u8> {
    seq![(x >> 8u16) as u8, x as u8]
}

/// The number that the two bytes at `k` spell.
#[verifier::opaque]
pub open spec fn read16(b: Seq<u8>, k: int) -> u16 {
    ((b[k] as u16) << 8u16) | (b[k + 1] as u16)
}

/// A list of numbers, two bytes each.
pub open spec fn numbers(s: Seq<u16>) -> Seq<u8> {
    Seq::new(2 * s.len(), |k: int| if k % 2 == 0 { (s[k / 2] >> 8u16) as u8 } else { s[k / 2] as u8 })
}

/// The numbers that a byte string of even length lists.
pub open spec fn read_numbers(b: Seq<u8>) -> Seq<u16> {
    Seq::new(b.len() / 2, |i: int| read16(b, 2 * i))
}

/// The fields of a session, in the order a snapshot holds them.
pub open spec fn fields(s: ProtocolState) -> Seq<Seq<u8>> {
    match s {
        ProtocolState::Keygen(k) => match k {
            KeygenState::R0 => seq![seq![KEYGEN_TAG, 0u8]],
            KeygenState::R1 { secret, identifier, parties } => seq![
                seq![KEYGEN_TAG, 1u8],
                secret,
                be16(identifier) + be16(parties),
            ],
            KeygenState::R2 { secret, identifier, parties, batch1 } => seq![
                seq![KEYGEN_TAG, 2u8],
                secret,
                be16(identifier) + be16(parties),
                packed(batch1),
            ],
            KeygenState::Done { key, pubkey } => seq![seq![KEYGEN_TAG, 3u8], key, pubkey],
        },
        ProtocolState::Sign(c) => {
            let common = seq![
                c.key,
                c.pubkey,
                be16(c.identifier) + be16(c.threshold) + be16(c.parties),
                c.message,
                numbers(c.indices),
            ];
            match c.stage {
                SignStage::R0 => seq![seq![SIGN_TAG, 0u8]] + common,
                SignStage::R1 { nonces, commitments } => seq![seq![SIGN_TAG, 1u8]] + common + seq![nonces, commitments],
                SignStage::R2 { package, share } => seq![seq![SIGN_TAG, 2u8]] + common + seq![package, share],
                SignStage::Done { signature } => seq![seq![SIGN_TAG, 3u8]] + common + seq![signature],
            }
        },
    }
}

/// The session that a list of fields describes, if it describes a
/// well-formed one.
pub open spec fn from_fields(f: Seq<Seq<u8>>) -> Option<ProtocolState> {
    if f.len() == 0 || f[0].len() != 2 {
        None
    } else if f[0][0] == KEYGEN_TAG {
        let st = if f[0][1] == 0 && f.len() == 1 {
            Some(KeygenState::R0)
        } else if f[0][1] == 1 && f.len() == 3 && f[2].len() == 4 {
            Some(KeygenState::R1 { secret: f[1], identifier: read16(f[2], 0), parties: read16(f[2], 2) })
        } else if f[0][1] == 2 && f.len() == 4 && f[2].len() == 4 && unpacked(f[3]) is Some {
            Some(KeygenState::R2 {
                secret: f[1],
                identifier: read16(f[2], 0),
                parties: read16(f[2], 2),
                batch1: unpacked(f[3])->Some_0,
            })
        } else if f[0][1] == 3 && f.len() == 3 {
            Some(KeygenState::Done { key: f[1], pubkey: f[2] })
        } else {
            None
        };
        match st {
            Some(k) => if k.wf() { Some(ProtocolState::Keygen(k)) } else { None },
            None => None,
        }
    } else if f[0][0] == SIGN_TAG && f.len() >= 6 && f[3].len() == 6 && f[5].len() % 2 == 0 {
        let stage = if f[0][1] == 0 && f.len() == 6 {
            Some(SignStage::R0)
        } else if f[0][1] == 1 && f.len() == 8 {
            Some(SignStage::R1 { nonces: f[6], commitments: f[7] })
        } else if f[0][1] == 2 && f.len() == 8 {
            Some(SignStage::R2 { package: f[6], share: f[7] })
        } else if f[0][1] == 3 && f.len() == 7 {
            Some(SignStage::Done { signature: f[6] })
        } else {
            None
        };
        match stage {
            Some(stage) => {
                let c = SignState {
                    key: f[1],
                    pubkey: f[2],
                    identifier: read16(f[3], 0),
                    threshold: read16(f[3], 2),
                    parties: read16(f[3], 4),
                    message: f[4],
                    indices: read_numbers(f[5]),
                    stage,
                };
                if c.wf() { Some(ProtocolState::Sign(c)) } else { None }
            },
            None => None,
        }
    } else {
        None
    }
}

/// The session that a snapshot restores, if it is one.
pub open spec fn restored(b: Seq<u8>) -> Option<ProtocolState> {
    match unpacked(b) {
        Some(f) => from_fields(f),
        None => None,
    }
}

proof fn lemma_be16(x: u16, rest: Seq<u8>, pre: Seq<u8>)
    ensures
        read16(pre + be16(x) + rest, pre.len() as int) == x,
{
    reveal(read16);
    let b = pre + be16(x) + rest;
    let (hi, lo) = (b[pre.len() as int], b[pre.len() as int + 1]);
    assert(hi == (x >> 8u16) as u8 && lo == x as u8);
    assert(((hi as u16) << 8u16) | (lo as u16) == x) by (bit_vector)
        requires
            hi == (x >> 8u16) as u8 && lo == x as u8,
    ;
}

proof fn lemma_packed_holds(s: Seq<Seq<u8>>, i: int)
    requires
        0 <= i < s.len(),
    ensures
        s[i].len() <= packed(s).len(),
    decreases s.len(),
{
    if i > 0 {
        lemma_packed_holds(s.drop_first(), i - 1);
    }
}

proof fn lemma_numbers(s: Seq<u16>)
    ensures
        numbers(s).len() % 2 == 0,
        read_numbers(numbers(s)) == s,
{
    let b = numbers(s);
    assert forall|i: int| 0 <= i < s.len() implies #[trigger] read_numbers(b)[i] == s[i] by {
        let x = s[i];
        assert(b[2 * i] == (x >> 8u16) as u8);
        assert(b[2 * i + 1] == x as u8);
        lemma_be16(x, b.skip(2 * i + 2), b.take(2 * i));
        assert(b.take(2 * i) + be16(x) + b.skip(2 * i + 2) =~= b);
    }
    assert(read_numbers(b) =~= s);
}

/// Restoring a snapshot of a well-formed session gives back that session,
/// so the restored session answers every later input as the snapshotted one would.
pub proof fn lemma_snapshot_round_trip(s: ProtocolState)
    requires
        s.wf(),
        framable(fields(s)),
    ensures
        restored(packed(fields(s))) == Some(s),
{
    let f = fields(s);
    lemma_unpack_pack(f);
    let e = Seq::<u8>::empty();
    match s {
        ProtocolState::Keygen(k) => match k {
            KeygenState::R1 { secret, identifier, parties } => {
                lemma_be16(identifier, be16(parties), e);
                lemma_be16(parties, e, be16(identifier));
                assert(e + be16(identifier) + be16(parties) =~= be16(identifier) + be16(parties));
                assert(be16(identifier) + be16(parties) + e =~= be16(identifier) + be16(parties));
            },
            KeygenState::R2 { secret, identifier, parties, batch1 } => {
                lemma_be16(identifier, be16(parties), e);
                lemma_be16(parties, e, be16(identifier));
                assert(e + be16(identifier) + be16(parties) =~= be16(identifier) + be16(parties));
                assert(be16(identifier) + be16(parties) + e =~= be16(identifier) + be16(parties));
                assert(f[3] == packed(batch1));
                assert(framable(batch1)) by {
                    assert forall|i: int| 0 <= i < batch1.len() implies #[trigger] batch1[i].len() <= u32::MAX by {
                        lemma_packed_holds(batch1, i);
                    }
                }
                lemma_unpack_pack(batch1);
            },
            _ => {},
        },
        ProtocolState::Sign(c) => {
            let n = be16(c.identifier) + be16(c.threshold) + be16(c.parties);
            lemma_be16(c.identifier, be16(c.threshold) + be16(c.parties), e);
            lemma_be16(c.threshold, be16(c.parties), be16(c.identifier));
            lemma_be16(c.parties, e, be16(c.identifier) + be16(c.threshold));
            assert(e + be16(c.identifier) + (be16(c.threshold) + be16(c.parties)) =~= n);
            assert(be16(c.identifier) + be16(c.threshold) + be16(c.parties) =~= n);
            assert(be16(c.identifier) + be16(c.threshold) + be16(c.parties) + e =~= n);
            lemma_numbers(c.indices);
        },
    }
}

fn be16_bytes(x: u16) -> (r: Vec<u8>)
    ensures
        r@ == be16(x),
{
    let r = vec![(x >> 8u16) as u8, x as u8];
    assert(r@ =~= be16(x));
    r
}

fn append(a: Vec<u8>, b: &Vec<u8>) -> (r: Vec<u8>)
    ensures
        r@ == a@ + b@,
{
    let mut r = a;
    let ghost start = r@;
    let mut i: usize = 0;
    while i < b.len()
        invariant
            i <= b@.len(),
            r@ == start + b@.take(i as int),
        decreases b@.len() - i,
    {
        r.push(b[i]);
        assert(r@ =~= start + b@.take(i + 1));
        i = i + 1;
    }
    assert(b@.take(i as int) =~= b@);
    r
}

fn read_u16(b: &Vec<u8>, k: usize) -> (r: u16)
    requires
        k + 1 < b.len(),
    ensures
        r == read16(b@, k as int),
{
    reveal(read16);
    ((b[k] as u16) << 8u16) | (b[k + 1] as u16)
}

fn encode_numbers(s: &Vec<u16>) -> (r: Vec<u8>)
    ensures
        r@ == numbers(s@),
{
    let mut r: Vec<u8> = Vec::new();
    let mut i: usize = 0;
    while i < s.len()
        invariant
            i <= s@.len(),
            r@ == numbers(s@).take(2 * i),
        decreases s@.len() - i,
    {
        let x = s[i];
        r.push((x >> 8u16) as u8);
        r.push(x as u8);
        assert(r@ =~= numbers(s@).take(2 * i + 2)) by {
            assert((2 * i) / 2 == i && (2 * i) % 2 == 0);
            assert((2 * i + 1) / 2 == i && (2 * i + 1) % 2 == 1);
        }
        i = i + 1;
    }
    assert(numbers(s@).take(2 * i) =~= numbers(s@));
    r
}

fn decode_numbers(b: &Vec<u8>) -> (r: Vec<u16>)
    ensures
        r@ == read_numbers(b@),
{
    let mut r: Vec<u16> = Vec::new();
    let mut i: usize = 0;
    let n = b.len() / 2;
    while i < n
        invariant
            n == b@.len() / 2,
            i <= n,
            r@ == read_numbers(b@).take(i as int),
        decreases n - i,
    {
        assert(i + i + 1 < b.len());
        r.push(read_u16(b, i + i));
        assert(r@ =~= read_numbers(b@).take(i + 1));
        i = i + 1;
    }
    assert(read_numbers(b@).take(i as int) =~= read_numbers(b@));
    r
}

/// Whether a signing subset is ascending, within `1..=parties`, and holds `own`.
fn check_indices(indices: &Vec<u16>, parties: u16, own: u16) -> (r: bool)
    ensures
        r == ((forall|i: int| 0 <= i < indices@.len() ==> 1 <= #[trigger] indices@[i] <= parties)
            && (forall|i: int, j: int| 0 <= i < j < indices@.len() ==> indices@[i] < indices@[j])
            && indices@.contains(own)),
{
    let mut found = false;
    let mut k: usize = 0;
    while k < indices.len()
        invariant
            k <= indices@.len(),
            forall|i: int| 0 <= i < k ==> 1 <= #[trigger] indices@[i] <= parties,
            forall|i: int, j: int| 0 <= i < j < k ==> indices@[i] < indices@[j],
            found == exists|i: int| 0 <= i < k && indices@[i] == own,
        decreases indices@.len() - k,
    {
        let x = indices[k];
        if x < 1 || x > parties {
            return false;
        }
        if k > 0 && indices[k - 1] >= x {
            assert(!(indices@[k - 1] < indices@[k as int]));
            return false;
        }
        assert forall|i: int, j: int| 0 <= i < j < k + 1 implies indices@[i] < indices@[j] by {
            if j == k && i < k - 1 {
                assert(indices@[i] < indices@[k - 1]);
            }
        }
        if x == own {
            found = true;
        }
        k = k + 1;
    }
    proof {
        if found {
            let i = choose|i: int| 0 <= i < k && indices@[i] == own;
            assert(indices@[i] == own);
        }
        if indices@.contains(own) {
            let i = choose|i: int| 0 <= i < indices@.len() && indices@[i] == own;
            assert(0 <= i < k && indices@[i] == own);
        }
    }
    found
}

/// Whether every field fits the four-byte length of the framing.
fn all_framable(f: &Vec<Vec<u8>>) -> (r: bool)
    ensures
        r == framable(seqs(f@)),
{
    let mut i: usize = 0;
    while i < f.len()
        invariant
            i <= f@.len(),
            forall|k: int| 0 <= k < i ==> #[trigger] seqs(f@)[k].len() <= u32::MAX,
        decreases f@.len() - i,
    {
        assert(seqs(f@)[i as int] == f@[i as int]@);
        if f[i].len() > 4294967295 {
            return false;
        }
        i = i + 1;
    }
    true
}

fn tag(kind: u8, round: u8) -> (r: Vec<u8>)
    ensures
        r@ == seq![kind, round],
{
    let r = vec![kind, round];
    assert(r@ =~= seq![kind, round]);
    r
}

impl Protocol {
    /// The fields of this session as byte strings.
    fn fields(&self) -> (r: Vec<Vec<u8>>)
        ensures
            seqs(r@) == fields(self@),
    {
        let mut f: Vec<Vec<u8>> = Vec::new();
        match self {
            Protocol::Keygen(k) => match &k.round {
                KeygenRound::R0 => {
                    f.push(tag(KEYGEN_TAG, 0));
                },
                KeygenRound::R1 { secret, identifier, parties } => {
                    f.push(tag(KEYGEN_TAG, 1));
                    f.push(copy_bytes(secret));
                    f.push(append(be16_bytes(*identifier), &be16_bytes(*parties)));
                },
                KeygenRound::R2 { secret, identifier, parties, batch1 } => {
                    f.push(tag(KEYGEN_TAG, 2));
                    f.push(copy_bytes(secret));
                    f.push(append(be16_bytes(*identifier), &be16_bytes(*parties)));
                    f.push(pack(batch1));
                },
                KeygenRound::Done { key, pubkey } => {
                    f.push(tag(KEYGEN_TAG, 3));
                    f.push(copy_bytes(key));
                    f.push(copy_bytes(pubkey));
                },
            },
            Protocol::Sign(c) => {
                let round: u8 = match &c.round {
                    SignRound::R0 => 0,
                    SignRound::R1 { .. } => 1,
                    SignRound::R2 { .. } => 2,
                    SignRound::Done { .. } => 3,
                };
                f.push(tag(SIGN_TAG, round));
                f.push(copy_bytes(&c.key));
                f.push(copy_bytes(&c.pubkey));
                let ints = append(append(be16_bytes(c.identifier), &be16_bytes(c.threshold)), &be16_bytes(c.parties));
                f.push(ints);
                f.push(copy_bytes(&c.message));
                f.push(encode_numbers(&c.indices));
                match &c.round {
                    SignRound::R0 => {},
                    SignRound::R1 { nonces, commitments } => {
                        f.push(copy_bytes(nonces));
                        f.push(copy_bytes(commitments));
                    },
                    SignRound::R2 { package, share } => {
                        f.push(copy_bytes(package));
                        f.push(copy_bytes(share));
                    },
                    SignRound::Done { signature } => {
                        f.push(copy_bytes(signature));
                    },
                }
            },
        }
        assert(seqs(f@) =~= fields(self@));
        f
    }
}

impl Protocol {
    /// A snapshot of this session; `None` only where a value it holds is
    /// longer than four bytes can frame.
    pub fn serialize(&self) -> (r: Option<Vec<u8>>)
        ensures
            match r {
                Some(b) => framable(fields(self@)) && b@ == packed(fields(self@)),
                None => !framable(fields(self@)),
            },
    {
        let f = self.fields();
        if !all_framable(&f) {
            return None;
        }
        Some(pack(&f))
    }

    /// The session that a snapshot holds; `None` where the bytes are no
    /// snapshot of a well-formed session.
    pub fn deserialize(bytes: &[u8]) -> (r: Option<Protocol>)
        ensures
            match restored(bytes@) {
                Some(st) => r matches Some(p) && p@ == st,
                None => r is None,
            },
            r matches Some(p) ==> p@.wf(),
    {
        let f = match unpack(bytes) {
            Some(f) => f,
            None => return None,
        };
        let ghost g = seqs(f@);
        assert forall|i: int| 0 <= i < f@.len() implies #[trigger] g[i] == f@[i]@ by {}
        if f.len() == 0 || f[0].len() != 2 {
            return None;
        }
        let kind = f[0][0];
        let round = f[0][1];
        if kind == KEYGEN_TAG {
            let k = if round == 0 && f.len() == 1 {
                KeygenRound::R0
            } else if round == 1 && f.len() == 3 && f[2].len() == 4 {
                KeygenRound::R1 {
                    secret: copy_bytes(&f[1]),
                    identifier: read_u16(&f[2], 0),
                    parties: read_u16(&f[2], 2),
                }
            } else if round == 2 && f.len() == 4 && f[2].len() == 4 {
                match unpack(f[3].as_slice()) {
                    Some(batch1) => KeygenRound::R2 {
                        secret: copy_bytes(&f[1]),
                        identifier: read_u16(&f[2], 0),
                        parties: read_u16(&f[2], 2),
                        batch1,
                    },
                    None => return None,
                }
            } else if round == 3 && f.len() == 3 {
                KeygenRound::Done { key: copy_bytes(&f[1]), pubkey: copy_bytes(&f[2]) }
            } else {
                return None;
            };
            let ok = match &k {
                KeygenRound::R1 { secret, identifier, parties } => 1 <= *identifier && *identifier <= *parties
                    && *parties >= 2 && match read_round1_secret(secret) {
                    Some((_, _, n, coefficients)) => n >= 1 && coefficients >= 1,
                    None => true,
                },
                KeygenRound::R2 { secret, identifier, parties, batch1 } => 1 <= *identifier && *identifier <= *parties
                    && *parties >= 2 && batch1.len() == (*parties - 1) as usize && match read_round2_secret(secret) {
                    Some((_, _, n)) => n >= 1,
                    None => true,
                },
                _ => true,
            };
            if !ok {
                return None;
            }
            Some(Protocol::Keygen(KeygenContext { round: k }))
        } else if kind == SIGN_TAG && f.len() >= 6 && f[3].len() == 6 && f[5].len() % 2 == 0 {
            let stage = if round == 0 && f.len() == 6 {
                SignRound::R0
            } else if round == 1 && f.len() == 8 {
                SignRound::R1 { nonces: copy_bytes(&f[6]), commitments: copy_bytes(&f[7]) }
            } else if round == 2 && f.len() == 8 {
                SignRound::R2 { package: copy_bytes(&f[6]), share: copy_bytes(&f[7]) }
            } else if round == 3 && f.len() == 7 {
                SignRound::Done { signature: copy_bytes(&f[6]) }
            } else {
                return None;
            };
            let c = SignContext {
                key: copy_bytes(&f[1]),
                pubkey: copy_bytes(&f[2]),
                identifier: read_u16(&f[3], 0),
                threshold: read_u16(&f[3], 2),
                parties: read_u16(&f[3], 4),
                message: copy_bytes(&f[4]),
                indices: decode_numbers(&f[5]),
                round: stage,
            };
            let ok = match &c.round {
                SignRound::R0 => true,
                _ => check_indices(&c.indices, c.parties, c.identifier) && c.indices.len() >= c.threshold as usize,
            };
            if !ok {
                return None;
            }
            Some(Protocol::Sign(c))
        } else {
            None
        }
    }
}

} // verus!
