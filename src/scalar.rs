use vstd::prelude::*;

use ark_bls12_381::Fr;
use ark_ff::{BigInteger256, PrimeField};

verus! {

/// The radix of one limb.
pub open spec fn limb_base() -> nat {
    0x1_0000_0000_0000_0000
}

/// The number that four little-endian 64-bit limbs stand for.
pub open spec fn limbs_value(l: [u64; 4]) -> nat {
    l[0] as nat + limb_base() * (l[1] as nat + limb_base() * (l[2] as nat + limb_base() * (l[3] as nat)))
}

/// The order `r` of the BLS12-381 scalar field.
pub open spec fn scalar_modulus() -> nat {
    limbs_value([0xffffffff00000001u64, 0x53bda402fffe5bfeu64, 0x3339d80809a1d805u64, 0x73eda753299d7d48u64])
}

/// An element of the BLS12-381 scalar field, held as the canonical
/// little-endian limbs of its representative in `[0, r)`.
#[derive(Clone, Copy, Debug, PartialEq, Eq, Structural)]
pub struct Scalar {
    l0: u64,
    l1: u64,
    l2: u64,
    l3: u64,
}

impl Scalar {
    spec fn spec_limbs(self) -> [u64; 4] {
        [self.l0, self.l1, self.l2, self.l3]
    }

    fn of_limbs(l: [u64; 4]) -> (r: Scalar)
        requires
            limbs_value(l) < scalar_modulus(),
        ensures
            r.spec_limbs() == l,
    {
        let r = Scalar { l0: l[0], l1: l[1], l2: l[2], l3: l[3] };
        assert(r.spec_limbs() =~= l);
        r
    }
}

impl View for Scalar {
    type V = nat;

    closed spec fn view(&self) -> nat {
        limbs_value(self.spec_limbs())
    }
}

/// Relies on `PrimeField::from_repr` of `Fr`: it accepts exactly the limbs of a
/// number below the modulus, and `into_repr` gives them back unchanged.
#[verifier::external_body]
fn fr_from_repr(limbs: [u64; 4]) -> (r: Option<[u64; 4]>)
    ensures
        r is Some <==> limbs_value(limbs) < scalar_modulus(),
        r is Some ==> r->0 == limbs,
{
    Fr::from_repr(BigInteger256(limbs)).map(|f| f.into_repr().0)
}

/// Relies on the multiplication of `Fr`: the product modulo `r`, given back
/// through `into_repr` as canonical limbs.
#[verifier::external_body]
fn fr_mul(a: [u64; 4], b: [u64; 4]) -> (r: [u64; 4])
    requires
        limbs_value(a) < scalar_modulus(),
        limbs_value(b) < scalar_modulus(),
    ensures
        limbs_value(r) == (limbs_value(a) * limbs_value(b)) % scalar_modulus(),
{
    let p = Fr::from_repr(BigInteger256(a)).unwrap() * Fr::from_repr(BigInteger256(b)).unwrap();
    p.into_repr().0
}

/// Relies on the addition of `Fr`: the sum modulo `r`, given back through
/// `into_repr` as canonical limbs.
#[verifier::external_body]
fn fr_add(a: [u64; 4], b: [u64; 4]) -> (r: [u64; 4])
    requires
        limbs_value(a) < scalar_modulus(),
        limbs_value(b) < scalar_modulus(),
    ensures
        limbs_value(r) == (limbs_value(a) + limbs_value(b)) % scalar_modulus(),
{
    let p = Fr::from_repr(BigInteger256(a)).unwrap() + Fr::from_repr(BigInteger256(b)).unwrap();
    p.into_repr().0
}

proof fn lemma_limb_split(lo: u64, hi: nat)
    ensures
        (lo as nat + limb_base() * hi) % limb_base() == lo as nat,
        (lo as nat + limb_base() * hi) / limb_base() == hi,
{
    let x: nat = lo as nat + limb_base() * hi;
    vstd::arithmetic::mul::lemma_mul_is_commutative(hi as int, limb_base() as int);
    vstd::arithmetic::div_mod::lemma_fundamental_div_mod_converse(x as int, limb_base() as int, hi as int, lo as int);
}

/// Four limbs stand for one number only.
proof fn lemma_limbs_value_injective(l: [u64; 4], m: [u64; 4])
    requires
        limbs_value(l) == limbs_value(m),
    ensures
        l == m,
{
    let b = limb_base();
    let l3 = l[3] as nat;
    let m3 = m[3] as nat;
    let l2: nat = l[2] as nat + b * l3;
    let m2: nat = m[2] as nat + b * m3;
    let l1: nat = l[1] as nat + b * l2;
    let m1: nat = m[1] as nat + b * m2;
    lemma_limb_split(l[0], l1);
    lemma_limb_split(m[0], m1);
    lemma_limb_split(l[1], l2);
    lemma_limb_split(m[1], m2);
    lemma_limb_split(l[2], l3);
    lemma_limb_split(m[2], m3);
    assert(l =~= m);
}

impl Scalar {
    #[verifier::type_invariant]
    spec fn canonical(self) -> bool {
        limbs_value(self.spec_limbs()) < scalar_modulus()
    }

    /// The scalar whose value is `v`.
    pub fn from_u64(v: u64) -> (r: Scalar)
        ensures
            r@ == v as nat,
    {
        let l: [u64; 4] = [v, 0, 0, 0];
        assert(limbs_value(l) == v as nat);
        Scalar::of_limbs(l)
    }

    /// The scalar with these limbs, if they stand for a number below the modulus.
    pub fn from_limbs(limbs: [u64; 4]) -> (r: Option<Scalar>)
        ensures
            r is Some <==> limbs_value(limbs) < scalar_modulus(),
            r is Some ==> r->0@ == limbs_value(limbs),
    {
        match fr_from_repr(limbs) {
            Some(l) => Some(Scalar::of_limbs(l)),
            None => None,
        }
    }

    /// The canonical little-endian limbs.
    pub fn limbs(&self) -> (r: [u64; 4])
        ensures
            limbs_value(r) == self@,
            self@ < scalar_modulus(),
    {
        proof {
            use_type_invariant(self);
        }
        [self.l0, self.l1, self.l2, self.l3]
    }

    /// Whether the two scalars are the same field element.
    pub fn same_value(&self, other: &Scalar) -> (r: bool)
        ensures
            r == (self@ == other@),
    {
        let a = self.limbs();
        let b = other.limbs();
        proof {
            if limbs_value(a) == limbs_value(b) {
                lemma_limbs_value_injective(a, b);
            }
        }
        a[0] == b[0] && a[1] == b[1] && a[2] == b[2] && a[3] == b[3]
    }

    /// The product in the field.
    pub fn mul(&self, other: &Scalar) -> (r: Scalar)
        ensures
            r@ == (self@ * other@) % scalar_modulus(),
    {
        proof {
            use_type_invariant(self);
            use_type_invariant(other);
        }
        let l = fr_mul(self.limbs(), other.limbs());
        proof {
            assert(scalar_modulus() > 0);
            vstd::arithmetic::div_mod::lemma_mod_bound((self@ * other@) as int, scalar_modulus() as int);
        }
        Scalar::of_limbs(l)
    }

    /// The sum in the field.
    pub fn add(&self, other: &Scalar) -> (r: Scalar)
        ensures
            r@ == (self@ + other@) % scalar_modulus(),
    {
        proof {
            use_type_invariant(self);
            use_type_invariant(other);
        }
        let l = fr_add(self.limbs(), other.limbs());
        proof {
            vstd::arithmetic::div_mod::lemma_mod_bound((self@ + other@) as int, scalar_modulus() as int);
        }
        Scalar::of_limbs(l)
    }
}

} // verus!
