use ark_bls12_381::{Bls12_381, Fr};
use ark_ff::{BigInteger256, PrimeField};
use ark_marlin::{IndexProverKey, IndexVerifierKey, Marlin, Proof};
use ark_poly::univariate::DensePolynomial;
use ark_poly_commit::sonic_pc::SonicKZG10;
use ark_relations::r1cs::{
    ConstraintSynthesizer, ConstraintSystemRef, LinearCombination, SynthesisError, Variable,
};
use ark_serialize::{CanonicalDeserialize, CanonicalSerialize};
use blake2::Blake2s;
use rand::RngCore;

use linear_marlin::circuit::{AllocKind, LinearCircuit, R1csLayout, Term, VarRef};
use linear_marlin::pipeline::{indexing_layout, proving_layout, PipelineError, SetupBounds};
use linear_marlin::rng::SeededRng;
use linear_marlin::scalar::Scalar;

type Pc = SonicKZG10<Bls12_381, DensePolynomial<Fr>>;
type LinearMarlin = Marlin<Fr, Pc, Blake2s>;

fn fr(s: &Scalar) -> Fr {
    Fr::from_repr(BigInteger256(s.limbs())).unwrap()
}

struct TestRng(SeededRng);

impl RngCore for TestRng {
    fn next_u32(&mut self) -> u32 {
        let b = self.0.next_bytes(4);
        u32::from_le_bytes([b[0], b[1], b[2], b[3]])
    }
    fn next_u64(&mut self) -> u64 {
        let b = self.0.next_bytes(8);
        u64::from_le_bytes([b[0], b[1], b[2], b[3], b[4], b[5], b[6], b[7]])
    }
    fn fill_bytes(&mut self, dest: &mut [u8]) {
        let b = self.0.next_bytes(dest.len());
        dest.copy_from_slice(&b);
    }
    fn try_fill_bytes(&mut self, dest: &mut [u8]) -> Result<(), rand::Error> {
        self.fill_bytes(dest);
        Ok(())
    }
}

fn test_rng(tag: u8) -> TestRng {
    TestRng(SeededRng::from_seed([tag; 32]))
}

struct LayoutCircuit(R1csLayout);

fn to_lc(terms: &[Term], vars: &[Variable]) -> LinearCombination<Fr> {
    let mut lc = LinearCombination::zero();
    for t in terms {
        let v = match t.var {
            VarRef::One => Variable::One,
            VarRef::Alloc(i) => vars[i],
        };
        lc = lc + (fr(&t.coeff), v);
    }
    lc
}

impl ConstraintSynthesizer<Fr> for LayoutCircuit {
    fn generate_constraints(self, cs: ConstraintSystemRef<Fr>) -> Result<(), SynthesisError> {
        let mut vars = Vec::new();
        for al in &self.0.allocations {
            let value = al.value.map(|s| fr(&s)).ok_or(SynthesisError::AssignmentMissing);
            let var = match al.kind {
                AllocKind::Witness => cs.new_witness_variable(|| value)?,
                AllocKind::Input => cs.new_input_variable(|| value)?,
            };
            vars.push(var);
        }
        for k in &self.0.constraints {
            cs.enforce_constraint(to_lc(&k.a, &vars), to_lc(&k.b, &vars), to_lc(&k.c, &vars))?;
        }
        Ok(())
    }
}

type Keys = (IndexProverKey<Fr, Pc>, IndexVerifierKey<Fr, Pc>);

fn keys_for(a: Scalar, b: Scalar) -> Keys {
    let layout = indexing_layout(a, b);
    let bounds = SetupBounds::for_layout(&layout);
    let srs = LinearMarlin::universal_setup(
        bounds.num_constraints,
        bounds.num_variables,
        bounds.num_non_zero,
        &mut test_rng(1),
    )
    .unwrap();
    LinearMarlin::index(&srs, LayoutCircuit(layout)).unwrap()
}

fn prove(keys: &Keys, c: &LinearCircuit, tag: u8) -> Proof<Fr, Pc> {
    let layout = proving_layout(c).unwrap();
    LinearMarlin::prove(&keys.0, LayoutCircuit(layout), &mut test_rng(tag)).unwrap()
}

fn verify(keys: &Keys, y: u64, proof: &Proof<Fr, Pc>) -> bool {
    LinearMarlin::verify(&keys.1, &[Fr::from(y)], proof, &mut test_rng(9)).unwrap()
}

#[test]
fn linear_relation_scenario() {
    let a = Scalar::from_u64(3);
    let b = Scalar::from_u64(5);
    let layout = indexing_layout(a, b);
    let bounds = SetupBounds::for_layout(&layout);
    assert_eq!((bounds.num_constraints, bounds.num_variables, bounds.num_non_zero), (2, 3, 6));
    let keys = keys_for(a, b);
    let c = LinearCircuit { x: Some(Scalar::from_u64(11)), y: Some(Scalar::from_u64(38)), a, b };
    let proof = prove(&keys, &c, 2);
    let mut bytes = Vec::new();
    proof.serialize(&mut bytes).unwrap();
    assert!(!bytes.is_empty());
    assert!(verify(&keys, 38, &proof));
    assert!(!verify(&keys, 39, &proof));
}

#[test]
fn keys_serve_several_witnesses() {
    let a = Scalar::from_u64(3);
    let b = Scalar::from_u64(5);
    let keys = keys_for(a, b);
    let mut sizes = Vec::new();
    for (x, y) in [(0u64, 5u64), (7, 26), (1000, 3005)] {
        let c = LinearCircuit::assigned(a, b, Scalar::from_u64(x));
        assert_eq!(c.y, Some(Scalar::from_u64(y)));
        let proof = prove(&keys, &c, 3);
        assert!(verify(&keys, y, &proof));
        assert!(!verify(&keys, y + 1, &proof));
        let mut bytes = Vec::new();
        proof.serialize(&mut bytes).unwrap();
        sizes.push(bytes.len());
    }
    assert!(sizes.iter().all(|s| *s == sizes[0]));
}

#[test]
fn tampered_proof_is_not_accepted() {
    let a = Scalar::from_u64(3);
    let b = Scalar::from_u64(5);
    let keys = keys_for(a, b);
    let c = LinearCircuit::assigned(a, b, Scalar::from_u64(11));
    let proof = prove(&keys, &c, 4);
    let mut bytes = Vec::new();
    proof.serialize(&mut bytes).unwrap();
    let last = bytes.len() - 1;
    bytes[last] ^= 1;
    let accepted = match Proof::<Fr, Pc>::deserialize(&bytes[..]) {
        Ok(p) => matches!(LinearMarlin::verify(&keys.1, &[Fr::from(38u64)], &p, &mut test_rng(9)), Ok(true)),
        Err(_) => false,
    };
    assert!(!accepted);
}

#[test]
fn proving_without_witness_fails() {
    let a = Scalar::from_u64(3);
    let b = Scalar::from_u64(5);
    let c = LinearCircuit { x: None, y: Some(Scalar::from_u64(38)), a, b };
    assert_eq!(proving_layout(&c).err(), Some(PipelineError::AssignmentMissing));
    let keys = keys_for(a, b);
    let layout = c.generate_constraints();
    let r = LinearMarlin::prove(&keys.0, LayoutCircuit(layout), &mut test_rng(5));
    assert!(r.is_err());
}
