//! Views of message batches, and the framing of a batch into one byte string.
use vstd::prelude::*;

verus! {

/// The contents of a batch of byte strings.
pub open spec fn seqs(v: Seq<Vec<u8>>) -> Seq<Seq<u8>> {
    v.map_values(|m: Vec<u8>| m@)
}

/// The contents of a list of messages keyed by participant number.
pub open spec fn pairs(v: Seq<(u16, Vec<u8>)>) -> Seq<(u16, Seq<u8>)> {
    v.map_values(|p: (u16, Vec<u8>)| (p.0, p.1@))
}

/// The contents of a list of packages, each after its recipient's identifier bytes.
pub open spec fn addressed(v: Seq<(Vec<u8>, Vec<u8>)>) -> Seq<(Seq<u8>, Seq<u8>)> {
    v.map_values(|p: (Vec<u8>, Vec<u8>)| (p.0@, p.1@))
}

/// A copy of a byte string.
pub fn copy_bytes(v: &Vec<u8>) -> (r: Vec<u8>)
    ensures
        r@ == v@,
{
    let r = v.clone();
    assert(r@ =~= v@);
    r
}

/// A copy of a batch.
pub fn copy_batch(v: &Vec<Vec<u8>>) -> (r: Vec<Vec<u8>>)
    ensures
        seqs(r@) == seqs(v@),
{
    let mut r: Vec<Vec<u8>> = Vec::new();
    let mut i: usize = 0;
    while i < v.len()
        invariant
            i <= v@.len(),
            r@.len() == i,
            seqs(r@) == seqs(v@).take(i as int),
        decreases v@.len() - i,
    {
        let ghost prev = r@;
        let m = copy_bytes(&v[i]);
        r.push(m);
        assert forall|k: int| 0 <= k <= i implies seqs(r@)[k] == seqs(v@)[k] by {
            if k < i {
                assert(r@[k] == prev[k]);
                assert(seqs(prev)[k] == seqs(v@).take(i as int)[k]);
            }
        }
        assert(seqs(r@) =~= seqs(v@).take(i + 1));
        i = i + 1;
    }
    assert(seqs(v@).take(i as int) =~= seqs(v@));
    r
}

/// `n` copies of one message.
pub open spec fn copies(m: Seq<u8>, n: nat) -> Seq<Seq<u8>> {
    Seq::new(n, |i: int| m)
}

/// Replicates `bytes` once for each of `n` recipients.
pub fn inflate(bytes: &Vec<u8>, n: usize) -> (r: Vec<Vec<u8>>)
    ensures
        seqs(r@) == copies(bytes@, n as nat),
{
    let mut r: Vec<Vec<u8>> = Vec::new();
    let mut i: usize = 0;
    while i < n
        invariant
            i <= n,
            r@.len() == i,
            forall|j: int| 0 <= j < i ==> r@[j]@ == bytes@,
        decreases n - i,
    {
        r.push(copy_bytes(bytes));
        i = i + 1;
    }
    assert(seqs(r@) =~= copies(bytes@, n as nat));
    r
}

/// The four big-endian bytes of a length.
pub open spec fn be32(n: u32) -> Seq<u8> {
    seq![(n >> 24u32) as u8, (n >> 16u32) as u8, (n >> 8u32) as u8, n as u8]
}

/// The length that four big-endian bytes spell.
#[verifier::opaque]
pub open spec fn read_be32(b: Seq<u8>) -> u32 {
    ((b[0] as u32) << 24u32) | ((b[1] as u32) << 16u32) | ((b[2] as u32) << 8u32) | (b[3] as u32)
}

/// A batch framed as one byte string: each message after its length.
pub open spec fn packed(s: Seq<Seq<u8>>) -> Seq<u8>
    decreases s.len(),
{
    if s.len() == 0 {
        Seq::empty()
    } else {
        be32(s[0].len() as u32) + s[0] + packed(s.drop_first())
    }
}

/// The batch that a byte string frames, if it frames one.
pub open spec fn unpacked(b: Seq<u8>) -> Option<Seq<Seq<u8>>>
    decreases b.len(),
{
    if b.len() == 0 {
        Some(Seq::empty())
    } else if b.len() < 4 {
        None
    } else {
        let n = read_be32(b.take(4)) as int;
        if 4 + n > b.len() {
            None
        } else {
            match unpacked(b.skip(4 + n)) {
                Some(rest) => Some(seq![b.subrange(4, 4 + n)] + rest),
                None => None,
            }
        }
    }
}

/// Every message of the batch has a length that fits in four bytes.
pub open spec fn framable(s: Seq<Seq<u8>>) -> bool {
    forall|i: int| 0 <= i < s.len() ==> #[trigger] s[i].len() <= u32::MAX
}

proof fn lemma_be32(n: u32)
    ensures
        read_be32(be32(n)) == n,
{
    reveal(read_be32);
    let b = be32(n);
    let (b0, b1, b2, b3) = (b[0], b[1], b[2], b[3]);
    assert(b0 == (n >> 24u32) as u8 && b1 == (n >> 16u32) as u8 && b2 == (n >> 8u32) as u8 && b3 == n as u8);
    assert(((b0 as u32) << 24u32) | ((b1 as u32) << 16u32) | ((b2 as u32) << 8u32) | (b3 as u32) == n) by (bit_vector)
        requires
            b0 == (n >> 24u32) as u8 && b1 == (n >> 16u32) as u8 && b2 == (n >> 8u32) as u8 && b3 == n as u8,
    ;
}

/// Unframing a framed batch gives the batch back.
pub proof fn lemma_unpack_pack(s: Seq<Seq<u8>>)
    requires
        framable(s),
    ensures
        unpacked(packed(s)) == Some(s),
    decreases s.len(),
{
    if s.len() > 0 {
        let rest = s.drop_first();
        assert(framable(rest)) by {
            assert forall|i: int| 0 <= i < rest.len() implies #[trigger] rest[i].len() <= u32::MAX by {
                assert(rest[i] == s[i + 1]);
            }
        }
        lemma_unpack_pack(rest);
        let b = packed(s);
        let n = s[0].len() as u32;
        assert(n as int == s[0].len());
        lemma_be32(n);
        assert(b == be32(n) + s[0] + packed(rest));
        assert(b.take(4) =~= be32(n));
        assert(read_be32(b.take(4)) as int == s[0].len());
        assert(b.subrange(4, 4 + n as int) =~= s[0]);
        assert(b.skip(4 + n as int) =~= packed(rest));
        assert(b.len() >= 4);
        assert(unpacked(b) == Some(seq![b.subrange(4, 4 + n as int)] + rest));
        assert(seq![s[0]] + rest =~= s);
    }
}

/// Frames a batch as one byte string.
pub fn pack(msgs: &Vec<Vec<u8>>) -> (r: Vec<u8>)
    ensures
        r@ == packed(seqs(msgs@)),
{
    let mut r: Vec<u8> = Vec::new();
    let mut i: usize = msgs.len();
    let ghost all = seqs(msgs@);
    while i > 0
        invariant
            i <= msgs@.len(),
            all == seqs(msgs@),
            r@ == packed(all.skip(i as int)),
        decreases i,
    {
        i = i - 1;
        let m = &msgs[i];
        assert(all[i as int] == m@);
        let n = m.len() as u32;
        let mut f: Vec<u8> = vec![(n >> 24u32) as u8, (n >> 16u32) as u8, (n >> 8u32) as u8, n as u8];
        let mut k: usize = 0;
        while k < m.len()
            invariant
                k <= m@.len(),
                f@ == be32(n) + m@.take(k as int),
            decreases m@.len() - k,
        {
            f.push(m[k]);
            assert(f@ =~= be32(n) + m@.take(k + 1));
            k = k + 1;
        }
        let mut j: usize = 0;
        let ghost tail = r@;
        while j < r.len()
            invariant
                j <= tail.len(),
                f@ == be32(n) + m@ + tail.take(j as int),
                r@ == tail,
            decreases tail.len() - j,
        {
            f.push(r[j]);
            assert(f@ =~= be32(n) + m@ + tail.take(j + 1));
            j = j + 1;
        }
        assert(m@.take(m@.len() as int) =~= m@);
        assert(tail.take(tail.len() as int) =~= tail);
        assert(all.skip(i as int).drop_first() =~= all.skip(i + 1));
        assert(all.skip(i as int)[0] == all[i as int]);
        r = f;
    }
    assert(all.skip(0) =~= all);
    r
}

/// Splits a framed byte string back into its batch; `None` where the bytes
/// frame no batch.
pub fn unpack(b: &[u8]) -> (r: Option<Vec<Vec<u8>>>)
    ensures
        match unpacked(b@) {
            Some(s) => r matches Some(v) && seqs(v@) == s,
            None => r is None,
        },
{
    let mut acc: Vec<Vec<u8>> = Vec::new();
    let mut pos: usize = 0;
    assert(b@.skip(0) =~= b@);
    proof {
        if let Some(rest) = unpacked(b@) {
            assert(seqs(acc@) + rest =~= rest);
        }
    }
    while pos < b.len()
        invariant
            pos <= b@.len(),
            unpacked(b@) == match unpacked(b@.skip(pos as int)) {
                Some(rest) => Some(seqs(acc@) + rest),
                None => None::<Seq<Seq<u8>>>,
            },
        decreases b@.len() - pos,
    {
        let ghost here = b@.skip(pos as int);
        let remaining = b.len() - pos;
        if remaining < 4 {
            return None;
        }
        let n: u32 = ((b[pos] as u32) << 24u32) | ((b[pos + 1] as u32) << 16u32) | ((b[pos + 2] as u32) << 8u32)
            | (b[pos + 3] as u32);
        assert(n == read_be32(here.take(4))) by {
            reveal(read_be32);
            assert(here.take(4)[0] == b@[pos as int]);
            assert(here.take(4)[1] == b@[pos + 1]);
            assert(here.take(4)[2] == b@[pos + 2]);
            assert(here.take(4)[3] == b@[pos + 3]);
        }
        if n as usize > remaining - 4 {
            return None;
        }
        let start = pos + 4;
        let end = start + n as usize;
        let mut m: Vec<u8> = Vec::new();
        let mut k: usize = start;
        while k < end
            invariant
                start <= k <= end,
                end <= b@.len(),
                m@ == b@.subrange(start as int, k as int),
            decreases end - k,
        {
            m.push(b[k]);
            assert(m@ =~= b@.subrange(start as int, k + 1));
            k = k + 1;
        }
        assert(m@ =~= here.subrange(4, 4 + n as int));
        assert(here.skip(4 + n as int) =~= b@.skip(end as int));
        let ghost prev = acc@;
        acc.push(m);
        assert(seqs(acc@) =~= seqs(prev).push(m@));
        proof {
            if let Some(rest) = unpacked(b@.skip(end as int)) {
                assert(seqs(prev) + (seq![m@] + rest) =~= seqs(acc@) + rest);
            }
        }
        pos = end;
    }
    assert(b@.skip(pos as int) =~= Seq::<u8>::empty());
    assert(seqs(acc@) + Seq::<Seq<u8>>::empty() =~= seqs(acc@));
    Some(acc)
}

} // verus!
