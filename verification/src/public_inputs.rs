//! The public statements of a proof, in limb form.
use crate::curve::field_p;
use crate::fields::{M31, M31_P};
use crate::limbs::P256M31BigInt;
use crate::public_key_check::is_less_than_modulus;
use crate::transcript::{absorb_words, Transcript};
use crate::types::EcdsaVerifyInput;
use vstd::prelude::*;

verus! {

/// One public ECDSA statement `(z, r, s, pub_x, pub_y)`.
#[derive(Clone, Copy, Debug)]
pub struct PublicEcdsaInstance {
    pub sig_id: M31,
    pub z: P256M31BigInt,
    pub r: P256M31BigInt,
    pub s: P256M31BigInt,
    pub pub_x: P256M31BigInt,
    pub pub_y: P256M31BigInt,
}

/// All public statements of a proof.
#[derive(Clone, Debug)]
pub struct PublicEcdsaInputClaim {
    pub instances: Vec<PublicEcdsaInstance>,
}

/// Every limb is a 13-bit digit and the number is below the field modulus.
pub open spec fn canonical_field_element(v: P256M31BigInt) -> bool {
    &&& forall|i: int| 0 <= i < 20 ==> (#[trigger] v.limbs@[i]).0 < 8192
    &&& v.spec_value() < field_p()
}

/// Whether a value is a canonical field element.
pub fn is_canonical_field_element(v: &P256M31BigInt) -> (r: bool)
    ensures
        r == canonical_field_element(*v),
{
    let mut i: usize = 0;
    while i < 20
        invariant
            i <= 20,
            forall|k: int| 0 <= k < i ==> (#[trigger] v.limbs@[k]).0 < 8192,
        decreases 20 - i,
    {
        if v.limbs[i].0 >= 8192 {
            return false;
        }
        i = i + 1;
    }
    is_less_than_modulus(v)
}

impl PublicEcdsaInstance {
    /// The limb form of a statement.
    pub open spec fn encodes(&self, input: EcdsaVerifyInput) -> bool {
        &&& self.z.canonical() && self.z.spec_value() == input.message_hash.spec_value()
        &&& self.r.canonical() && self.r.spec_value() == input.signature.r.spec_value()
        &&& self.s.canonical() && self.s.spec_value() == input.signature.s.spec_value()
        &&& self.pub_x.canonical() && self.pub_x.spec_value() == input.public_key.x.spec_value()
        &&& self.pub_y.canonical() && self.pub_y.spec_value() == input.public_key.y.spec_value()
    }

    /// The field name of the first public-key coordinate that is not a
    /// canonical field element.
    pub open spec fn spec_non_canonical_field(&self) -> Option<&'static str> {
        if !canonical_field_element(self.pub_x) {
            Some("pub_x")
        } else if !canonical_field_element(self.pub_y) {
            Some("pub_y")
        } else {
            None
        }
    }

    /// The first public-key coordinate that is not a canonical field element,
    /// if there is one.
    pub fn non_canonical_public_key_field(&self) -> (r: Option<&'static str>)
        ensures
            r == self.spec_non_canonical_field(),
    {
        if !is_canonical_field_element(&self.pub_x) {
            return Some("pub_x");
        }
        if !is_canonical_field_element(&self.pub_y) {
            return Some("pub_y");
        }
        None
    }

    /// The same statement: equal limbs in every part.
    pub open spec fn spec_same(&self, other: &PublicEcdsaInstance) -> bool {
        &&& self.sig_id == other.sig_id
        &&& self.z.limbs@ == other.z.limbs@
        &&& self.r.limbs@ == other.r.limbs@
        &&& self.s.limbs@ == other.s.limbs@
        &&& self.pub_x.limbs@ == other.pub_x.limbs@
        &&& self.pub_y.limbs@ == other.pub_y.limbs@
    }
}

impl PartialEq for PublicEcdsaInstance {
    fn eq(&self, other: &Self) -> (r: bool) {
        self.sig_id == other.sig_id && self.z == other.z && self.r == other.r && self.s == other.s
            && self.pub_x == other.pub_x && self.pub_y == other.pub_y
    }
}

impl Eq for PublicEcdsaInstance {

}

impl vstd::std_specs::cmp::PartialEqSpecImpl for PublicEcdsaInstance {
    open spec fn obeys_eq_spec() -> bool {
        true
    }

    open spec fn eq_spec(&self, other: &Self) -> bool {
        self.spec_same(other)
    }
}

/// The two lists make the same statements in the same order.
pub open spec fn same_instances(a: Seq<PublicEcdsaInstance>, b: Seq<PublicEcdsaInstance>) -> bool {
    a.len() == b.len() && forall|i: int| 0 <= i < a.len() ==> (#[trigger] a[i]).spec_same(&b[i])
}

/// The limbs of a number as words.
pub open spec fn limb_words(v: P256M31BigInt) -> Seq<u64> {
    v.limbs@.map_values(|limb: M31| limb.0 as u64)
}

/// A statement as words: its index and the limbs of its five numbers.
pub open spec fn instance_words(instance: PublicEcdsaInstance) -> Seq<u64> {
    seq![instance.sig_id.0 as u64] + limb_words(instance.z) + limb_words(instance.r) + limb_words(
        instance.s,
    ) + limb_words(instance.pub_x) + limb_words(instance.pub_y)
}

/// The words of a list of statements.
pub open spec fn statement_words(instances: Seq<PublicEcdsaInstance>) -> Seq<u64>
    decreases instances.len(),
{
    if instances.len() == 0 {
        Seq::empty()
    } else {
        statement_words(instances.drop_last()) + instance_words(instances.last())
    }
}

fn push_limbs(words: &mut Vec<u64>, v: &P256M31BigInt)
    ensures
        final(words)@ == old(words)@ + limb_words(*v),
{
    let ghost start = words@;
    let ghost all = limb_words(*v);
    let mut i: usize = 0;
    while i < 20
        invariant
            i <= 20,
            all == limb_words(*v),
            words@ == start + all.take(i as int),
        decreases 20 - i,
    {
        words.push(v.limbs[i].0 as u64);
        proof {
            assert(all.take(i + 1) =~= all.take(i as int).push(all[i as int]));
        }
        i = i + 1;
    }
    proof {
        assert(all.take(20) =~= all);
    }
}

impl PublicEcdsaInputClaim {
    /// Every statement as words, in order.
    pub fn words(&self) -> (r: Vec<u64>)
        ensures
            r@ == statement_words(self.instances@),
    {
        let mut words: Vec<u64> = Vec::new();
        let mut i: usize = 0;
        let ghost all = self.instances@;
        proof {
            assert(all.take(0) =~= Seq::<PublicEcdsaInstance>::empty());
        }
        while i < self.instances.len()
            invariant
                i <= self.instances@.len(),
                all == self.instances@,
                words@ == statement_words(all.take(i as int)),
            decreases self.instances@.len() - i,
        {
            let instance = self.instances[i];
            let ghost before = words@;
            words.push(instance.sig_id.0 as u64);
            push_limbs(&mut words, &instance.z);
            push_limbs(&mut words, &instance.r);
            push_limbs(&mut words, &instance.s);
            push_limbs(&mut words, &instance.pub_x);
            push_limbs(&mut words, &instance.pub_y);
            proof {
                assert(words@ =~= before + instance_words(all[i as int]));
                assert(all.take(i + 1).drop_last() =~= all.take(i as int));
                assert(all.take(i + 1).last() == all[i as int]);
            }
            i = i + 1;
        }
        proof {
            assert(all.take(i as int) =~= all);
        }
        words
    }

    /// Absorbs every statement.
    pub fn mix_into(&self, channel: &mut Transcript)
        ensures
            final(channel).digest@ == absorb_words(
                old(channel).digest@,
                statement_words(self.instances@),
            ),
            self.instances@.len() > 0 ==> final(channel).blocks == 0,
            self.instances@.len() == 0 ==> final(channel).blocks == old(channel).blocks,
    {
        let words: Vec<u64> = self.words();
        proof {
            lemma_statement_length(self.instances@);
        }
        channel.mix_words(&words);
    }

    /// A copy of the claim.
    pub fn duplicate(&self) -> (r: PublicEcdsaInputClaim)
        ensures
            r.instances@ == self.instances@,
    {
        let mut instances: Vec<PublicEcdsaInstance> = Vec::new();
        let mut i: usize = 0;
        while i < self.instances.len()
            invariant
                i <= self.instances@.len(),
                instances@ == self.instances@.take(i as int),
            decreases self.instances@.len() - i,
        {
            instances.push(self.instances[i]);
            i = i + 1;
        }
        proof {
            assert(self.instances@.take(i as int) =~= self.instances@);
        }
        PublicEcdsaInputClaim { instances }
    }

    /// The claim for a list of inputs; the position is the signature id.
    pub fn from_inputs(inputs: &[EcdsaVerifyInput]) -> (claim: PublicEcdsaInputClaim)
        requires
            inputs@.len() <= M31_P,
        ensures
            claim.instances@.len() == inputs@.len(),
            forall|i: int|
                0 <= i < inputs@.len() ==> (#[trigger] claim.instances@[i]).encodes(inputs@[i])
                    && claim.instances@[i].sig_id.0 == i,
    {
        let mut instances: Vec<PublicEcdsaInstance> = Vec::new();
        let mut i: usize = 0;
        while i < inputs.len()
            invariant
                i <= inputs@.len() <= M31_P,
                instances@.len() == i,
                forall|k: int|
                    0 <= k < i ==> (#[trigger] instances@[k]).encodes(inputs@[k])
                        && instances@[k].sig_id.0 == k,
            decreases inputs@.len() - i,
        {
            let input: EcdsaVerifyInput = inputs[i];
            instances.push(
                PublicEcdsaInstance {
                    sig_id: M31(i as u32),
                    z: P256M31BigInt::from_u256(&input.message_hash),
                    r: P256M31BigInt::from_u256(&input.signature.r),
                    s: P256M31BigInt::from_u256(&input.signature.s),
                    pub_x: P256M31BigInt::from_u256(&input.public_key.x),
                    pub_y: P256M31BigInt::from_u256(&input.public_key.y),
                },
            );
            i = i + 1;
        }
        PublicEcdsaInputClaim { instances }
    }
}

/// A statement takes 101 words.
proof fn lemma_statement_length(instances: Seq<PublicEcdsaInstance>)
    ensures
        statement_words(instances).len() == 101 * instances.len(),
    decreases instances.len(),
{
    if instances.len() > 0 {
        lemma_statement_length(instances.drop_last());
    }
}

/// Law: the absorbed words determine the statements: two lists of the same
/// words state the same.
pub proof fn law_words_determine_the_statement(
    a: Seq<PublicEcdsaInstance>,
    b: Seq<PublicEcdsaInstance>,
)
    requires
        statement_words(a) == statement_words(b),
    ensures
        same_instances(a, b),
    decreases a.len(),
{
    lemma_statement_length(a);
    lemma_statement_length(b);
    if a.len() > 0 {
        let n = 101 * (a.len() - 1);
        let (ra, rb) = (a.drop_last(), b.drop_last());
        lemma_statement_length(ra);
        lemma_statement_length(rb);
        assert(statement_words(a).take(n) =~= statement_words(ra));
        assert(statement_words(b).take(n) =~= statement_words(rb));
        assert(statement_words(a).skip(n) =~= instance_words(a.last()));
        assert(statement_words(b).skip(n) =~= instance_words(b.last()));
        law_words_determine_the_statement(ra, rb);
        lemma_instance_words(a.last(), b.last());
        assert forall|i: int| 0 <= i < a.len() implies (#[trigger] a[i]).spec_same(&b[i]) by {
            if i < ra.len() {
                assert(ra[i] == a[i] && rb[i] == b[i]);
                assert(ra[i].spec_same(&rb[i]));
            }
        }
    }
}

/// The words of a statement determine it.
proof fn lemma_instance_words(a: PublicEcdsaInstance, b: PublicEcdsaInstance)
    requires
        instance_words(a) == instance_words(b),
    ensures
        a.spec_same(&b),
{
    let (wa, wb) = (instance_words(a), instance_words(b));
    assert(wa[0] == a.sig_id.0 && wb[0] == b.sig_id.0);
    lemma_limb_words(a.z, b.z, wa, wb, 1);
    lemma_limb_words(a.r, b.r, wa, wb, 21);
    lemma_limb_words(a.s, b.s, wa, wb, 41);
    lemma_limb_words(a.pub_x, b.pub_x, wa, wb, 61);
    lemma_limb_words(a.pub_y, b.pub_y, wa, wb, 81);
}

/// Equal words at the place of a number mean equal limbs.
proof fn lemma_limb_words(
    a: P256M31BigInt,
    b: P256M31BigInt,
    wa: Seq<u64>,
    wb: Seq<u64>,
    at: int,
)
    requires
        wa == wb,
        forall|i: int| 0 <= i < 20 ==> #[trigger] limb_words(a)[i] == wa[at + i],
        forall|i: int| 0 <= i < 20 ==> #[trigger] limb_words(b)[i] == wb[at + i],
    ensures
        a.limbs@ == b.limbs@,
{
    assert forall|i: int| 0 <= i < 20 implies a.limbs@[i] == b.limbs@[i] by {
        assert(limb_words(a)[i] == limb_words(b)[i]);
    }
    assert(a.limbs@ =~= b.limbs@);
}

} // verus!
