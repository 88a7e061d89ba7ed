//! The Fiat-Shamir transcript: a Blake2s digest that absorbs messages, and the
//! stream of extension elements that can be drawn from it.
use crate::fields::{SecureField, M31};
use vstd::prelude::*;

verus! {

/// The digest of `stwo`'s `Blake2sChannel` after it has mixed one 64-bit word
/// into a channel with the given digest.
pub uninterp spec fn blake2s_mix_u64(digest: Seq<u8>, value: u64) -> Seq<u8>;

/// The digest of `stwo`'s `Blake2sChannel` after it has mixed extension
/// elements, given as consecutive coordinates, into a channel with the given
/// digest.
pub uninterp spec fn blake2s_mix_felts(digest: Seq<u8>, coordinates: Seq<u32>) -> Seq<u8>;

/// The digest of `stwo`'s `Blake2sChannel` after a Merkle root has been mixed
/// into a channel with the given digest.
pub uninterp spec fn blake2s_mix_root(digest: Seq<u8>, root: Seq<u8>) -> Seq<u8>;

/// The four coordinates of the element at a position of the stream that
/// `stwo`'s `Blake2sChannel` draws from a fresh channel with the given digest.
pub uninterp spec fn blake2s_felt(digest: Seq<u8>, position: nat) -> Seq<u32>;

/// Bound on the blocks drawn from one digest; the channel counts its draws in
/// 32 bits.
pub const MAX_DRAW_BLOCKS: usize = 0x10_0000;

/// The state of the transcript.
#[derive(Clone, Copy, Debug)]
pub struct Transcript {
    pub digest: [u8; 32],
    /// Hash blocks drawn since the digest last changed. A block holds two
    /// extension elements.
    pub blocks: usize,
}

/// Coordinates of a list of elements, one after the other.
pub open spec fn coordinates(felts: Seq<SecureField>) -> Seq<u32>
    decreases felts.len(),
{
    if felts.len() == 0 {
        Seq::empty()
    } else {
        coordinates(felts.drop_last()) + seq![
            felts.last().c0.0,
            felts.last().c1.0,
            felts.last().c2.0,
            felts.last().c3.0,
        ]
    }
}

/// The element with the given coordinates.
pub open spec fn felt_of(c: Seq<u32>) -> SecureField {
    SecureField { c0: M31(c[0]), c1: M31(c[1]), c2: M31(c[2]), c3: M31(c[3]) }
}

/// The digest after a sequence of 64-bit words has been mixed, one by one.
pub open spec fn absorb_words(digest: Seq<u8>, words: Seq<u64>) -> Seq<u8>
    decreases words.len(),
{
    if words.len() == 0 {
        digest
    } else {
        blake2s_mix_u64(absorb_words(digest, words.drop_last()), words.last())
    }
}

/// Absorbing two lists in turn absorbs their concatenation.
pub proof fn lemma_absorb_concat(digest: Seq<u8>, a: Seq<u64>, b: Seq<u64>)
    ensures
        absorb_words(absorb_words(digest, a), b) == absorb_words(digest, a + b),
    decreases b.len(),
{
    if b.len() == 0 {
        assert(a + b =~= a);
    } else {
        lemma_absorb_concat(digest, a, b.drop_last());
        assert((a + b).drop_last() =~= a + b.drop_last());
        assert((a + b).last() == b.last());
    }
}

/// The digest after each element has been mixed in a message of its own.
pub open spec fn absorb_felts(digest: Seq<u8>, felts: Seq<SecureField>) -> Seq<u8>
    decreases felts.len(),
{
    if felts.len() == 0 {
        digest
    } else {
        blake2s_mix_felts(
            absorb_felts(digest, felts.drop_last()),
            coordinates(seq![felts.last()]),
        )
    }
}

/// `Blake2sChannel::mix_u64` on a channel with the given digest: the new
/// digest depends on the old one and the word alone.
#[verifier::external_body]
fn channel_mix_u64(digest: &[u8; 32], value: u64) -> (r: [u8; 32])
    ensures
        r@ == blake2s_mix_u64(digest@, value),
{
    let mut channel = stwo::core::channel::Blake2sChannel::default();
    channel.update_digest(stwo::core::vcs::blake2_hash::Blake2sHash(*digest));
    stwo::core::channel::Channel::mix_u64(&mut channel, value);
    channel.digest().0
}

/// `Blake2sChannel::mix_felts` on a channel with the given digest: the new
/// digest depends on the old one and the coordinates alone.
#[verifier::external_body]
fn channel_mix_felts(digest: &[u8; 32], felts: &Vec<SecureField>) -> (r: [u8; 32])
    ensures
        r@ == blake2s_mix_felts(digest@, coordinates(felts@)),
{
    let qs: Vec<stwo::core::fields::qm31::QM31> = felts
        .iter()
        .map(|x| stwo::core::fields::qm31::QM31::from_u32_unchecked(x.c0.0, x.c1.0, x.c2.0, x.c3.0))
        .collect();
    let mut channel = stwo::core::channel::Blake2sChannel::default();
    channel.update_digest(stwo::core::vcs::blake2_hash::Blake2sHash(*digest));
    stwo::core::channel::Channel::mix_felts(&mut channel, &qs);
    channel.digest().0
}

/// `Blake2sMerkleChannel::mix_root` on a channel with the given digest: the
/// new digest depends on the old one and the root alone.
#[verifier::external_body]
fn channel_mix_root(digest: &[u8; 32], root: &[u8; 32]) -> (r: [u8; 32])
    ensures
        r@ == blake2s_mix_root(digest@, root@),
{
    let mut channel = stwo::core::channel::Blake2sChannel::default();
    channel.update_digest(stwo::core::vcs::blake2_hash::Blake2sHash(*digest));
    <stwo::core::vcs_lifted::blake2_merkle::Blake2sMerkleChannel as stwo::core::channel::MerkleChannel>::mix_root(
        &mut channel,
        stwo::core::vcs::blake2_hash::Blake2sHash(*root),
    );
    channel.digest().0
}

/// `Blake2sChannel::draw_secure_felts` on a fresh channel with the given
/// digest: a prefix of one stream of reduced elements.
#[verifier::external_body]
fn channel_draw_felts(digest: &[u8; 32], n: usize) -> (r: Vec<SecureField>)
    requires
        n <= 0x20_0000,
    ensures
        r@.len() == n,
        forall|i: int|
            0 <= i < n ==> #[trigger] r@[i] == felt_of(blake2s_felt(digest@, i as nat))
                && r@[i].wf(),
{
    let mut channel = stwo::core::channel::Blake2sChannel::default();
    channel.update_digest(stwo::core::vcs::blake2_hash::Blake2sHash(*digest));
    stwo::core::channel::Channel::draw_secure_felts(&mut channel, n)
        .into_iter()
        .map(|q| q.to_m31_array())
        .map(|[a, b, c, d]| SecureField { c0: M31(a.0), c1: M31(b.0), c2: M31(c.0), c3: M31(d.0) })
        .collect()
}

impl Transcript {
    /// The empty transcript: an all-zero digest.
    pub fn new() -> (r: Transcript)
        ensures
            r.digest@ == Seq::new(32, |i: int| 0u8),
            r.blocks == 0,
    {
        let r = Transcript { digest: [0u8;32], blocks: 0 };
        assert(r.digest@ =~= Seq::new(32, |i: int| 0u8));
        r
    }

    /// Absorbs a 64-bit word.
    pub fn mix_u64(&mut self, value: u64)
        ensures
            final(self).digest@ == blake2s_mix_u64(old(self).digest@, value),
            final(self).blocks == 0,
    {
        self.digest = channel_mix_u64(&self.digest, value);
        self.blocks = 0;
    }

    /// Absorbs a list of extension elements in one message.
    pub fn mix_felts(&mut self, felts: &Vec<SecureField>)
        ensures
            final(self).digest@ == blake2s_mix_felts(old(self).digest@, coordinates(felts@)),
            final(self).blocks == 0,
    {
        self.digest = channel_mix_felts(&self.digest, felts);
        self.blocks = 0;
    }

    /// Absorbs a commitment root.
    pub fn mix_root(&mut self, root: &[u8; 32])
        ensures
            final(self).digest@ == blake2s_mix_root(old(self).digest@, root@),
            final(self).blocks == 0,
    {
        self.digest = channel_mix_root(&self.digest, root);
        self.blocks = 0;
    }

    /// Absorbs each word of a list, in order.
    pub fn mix_words(&mut self, words: &Vec<u64>)
        ensures
            final(self).digest@ == absorb_words(old(self).digest@, words@),
            words@.len() > 0 ==> final(self).blocks == 0,
            words@.len() == 0 ==> final(self).blocks == old(self).blocks,
    {
        let ghost start = self.digest@;
        let ghost blocks = self.blocks;
        proof {
            assert(words@.take(0) =~= Seq::<u64>::empty());
        }
        let mut i: usize = 0;
        while i < words.len()
            invariant
                i <= words@.len(),
                self.digest@ == absorb_words(start, words@.take(i as int)),
                self.blocks == (if i == 0 {
                    blocks
                } else {
                    0
                }),
            decreases words@.len() - i,
        {
            proof {
                assert(words@.take(i + 1).drop_last() =~= words@.take(i as int));
                assert(words@.take(i + 1).last() == words@[i as int]);
            }
            self.mix_u64(words[i]);
            i = i + 1;
        }
        proof {
            assert(words@.take(i as int) =~= words@);
        }
    }

    /// Absorbs one element in a message of its own.
    pub fn mix_felt(&mut self, felt: SecureField)
        ensures
            final(self).digest@ == blake2s_mix_felts(old(self).digest@, coordinates(seq![felt])),
            final(self).blocks == 0,
    {
        let mut felts: Vec<SecureField> = Vec::new();
        felts.push(felt);
        proof {
            assert(felts@ =~= seq![felt]);
        }
        self.mix_felts(&felts);
    }

    /// Draws the next two elements of the stream.
    pub fn draw_pair(&mut self) -> (r: (SecureField, SecureField))
        requires
            old(self).blocks < MAX_DRAW_BLOCKS,
        ensures
            r.0 == felt_of(blake2s_felt(old(self).digest@, (2 * old(self).blocks) as nat)),
            r.1 == felt_of(blake2s_felt(old(self).digest@, (2 * old(self).blocks + 1) as nat)),
            r.0.wf(),
            r.1.wf(),
            final(self).digest@ == old(self).digest@,
            final(self).blocks == old(self).blocks + 1,
    {
        let felts: Vec<SecureField> = channel_draw_felts(&self.digest, 2 * (self.blocks + 1));
        let r = (felts[2 * self.blocks], felts[2 * self.blocks + 1]);
        self.blocks = self.blocks + 1;
        r
    }
}

} // verus!
