use vstd::prelude::*;

use crate::scalar::{scalar_modulus, Scalar};

verus! {

/// A variable of a rank-1 constraint system: the constant one, or the
/// variable made by the allocation at this position of a layout.
#[derive(Clone, Copy, Debug, PartialEq, Eq, Structural)]
pub enum VarRef {
    One,
    Alloc(usize),
}

/// One summand `coeff · var` of a linear combination.
#[derive(Clone, Copy, Debug, PartialEq, Eq, Structural)]
pub struct Term {
    pub coeff: Scalar,
    pub var: VarRef,
}

/// The constraint `⟨a⟩ · ⟨b⟩ = ⟨c⟩` over three linear combinations.
#[derive(Clone, Debug)]
pub struct R1csConstraint {
    pub a: Vec<Term>,
    pub b: Vec<Term>,
    pub c: Vec<Term>,
}

/// Whether an allocated variable is private to the prover or a public input.
#[derive(Clone, Copy, Debug, PartialEq, Eq, Structural)]
pub enum AllocKind {
    Witness,
    Input,
}

/// An allocated variable and, when the circuit carries it, its value.
#[derive(Clone, Copy, Debug, PartialEq, Eq, Structural)]
pub struct Allocation {
    pub kind: AllocKind,
    pub value: Option<Scalar>,
}

/// What synthesis records: the allocations in order, then the constraints.
#[derive(Clone, Debug)]
pub struct R1csLayout {
    pub allocations: Vec<Allocation>,
    pub constraints: Vec<R1csConstraint>,
}

/// Why a concrete assignment cannot be produced.
#[derive(Clone, Copy, Debug, PartialEq, Eq, Structural)]
pub enum CircuitError {
    AssignmentMissing,
}

/// The relation `y = a·x + b` with the constants `a`, `b`, the private
/// witness `x` and the public input `y`; a placeholder carries neither value.
#[derive(Clone, Copy, Debug)]
pub struct LinearCircuit {
    pub x: Option<Scalar>,
    pub y: Option<Scalar>,
    pub a: Scalar,
    pub b: Scalar,
}

/// The value of an optional scalar.
pub open spec fn value_of(o: Option<Scalar>) -> Option<nat> {
    match o {
        Some(s) => Some(s@),
        None => None,
    }
}

/// The value of a variable under the values of a layout's allocations.
pub open spec fn var_value(v: VarRef, vals: Seq<nat>) -> nat {
    match v {
        VarRef::One => 1,
        VarRef::Alloc(i) => if i < vals.len() {
            vals[i as int]
        } else {
            0
        },
    }
}

/// The value of a linear combination, as an integer (not yet reduced).
pub open spec fn lc_value(lc: Seq<Term>, vals: Seq<nat>) -> nat
    decreases lc.len(),
{
    if lc.len() == 0 {
        0
    } else {
        lc_value(lc.drop_last(), vals) + lc.last().coeff@ * var_value(lc.last().var, vals)
    }
}

/// A constraint holds when both sides agree modulo the field order.
pub open spec fn constraint_holds(c: R1csConstraint, vals: Seq<nat>) -> bool {
    (lc_value(c.a@, vals) * lc_value(c.b@, vals)) % scalar_modulus() == lc_value(c.c@, vals)
        % scalar_modulus()
}

/// Every constraint of the layout holds.
pub open spec fn layout_satisfied(l: R1csLayout, vals: Seq<nat>) -> bool {
    forall|i: int| 0 <= i < l.constraints@.len() ==> constraint_holds(#[trigger] l.constraints@[i], vals)
}

/// The linear combination consists of exactly these (coefficient, variable) pairs.
pub open spec fn lc_is(lc: Seq<Term>, terms: Seq<(nat, VarRef)>) -> bool {
    &&& lc.len() == terms.len()
    &&& forall|i: int| 0 <= i < lc.len() ==> (#[trigger] lc[i]).coeff@ == terms[i].0 && lc[i].var == terms[i].1
}

/// The allocation has this kind and this (optional) value.
pub open spec fn allocation_is(al: Allocation, kind: AllocKind, value: Option<nat>) -> bool {
    al.kind == kind && value_of(al.value) == value
}

/// `a·x mod r` when `x` is present.
pub open spec fn tmp_of(c: LinearCircuit) -> Option<nat> {
    match c.x {
        Some(x) => Some((c.a@ * x@) % scalar_modulus()),
        None => None,
    }
}

/// The layout of the relation: `x` (witness), `y` (input), `tmp` (witness),
/// then `a·x · 1 = tmp` and `(tmp + b·1) · 1 = y`.
pub open spec fn is_layout_of(c: LinearCircuit, l: R1csLayout) -> bool {
    &&& l.allocations@.len() == 3
    &&& allocation_is(l.allocations@[0], AllocKind::Witness, value_of(c.x))
    &&& allocation_is(l.allocations@[1], AllocKind::Input, value_of(c.y))
    &&& allocation_is(l.allocations@[2], AllocKind::Witness, tmp_of(c))
    &&& l.constraints@.len() == 2
    &&& lc_is(l.constraints@[0].a@, seq![(c.a@, VarRef::Alloc(0))])
    &&& lc_is(l.constraints@[0].b@, seq![(1nat, VarRef::One)])
    &&& lc_is(l.constraints@[0].c@, seq![(1nat, VarRef::Alloc(2))])
    &&& lc_is(l.constraints@[1].a@, seq![(1nat, VarRef::Alloc(2)), (c.b@, VarRef::One)])
    &&& lc_is(l.constraints@[1].b@, seq![(1nat, VarRef::One)])
    &&& lc_is(l.constraints@[1].c@, seq![(1nat, VarRef::Alloc(1))])
}

/// The kinds of the allocations, in order.
pub open spec fn allocation_kinds(l: R1csLayout) -> Seq<AllocKind> {
    l.allocations@.map_values(|al: Allocation| al.kind)
}

/// The variables that each linear combination of each constraint mentions.
pub open spec fn constraint_vars(l: R1csLayout) -> Seq<(Seq<VarRef>, Seq<VarRef>, Seq<VarRef>)> {
    l.constraints@.map_values(
        |c: R1csConstraint|
            (
                c.a@.map_values(|t: Term| t.var),
                c.b@.map_values(|t: Term| t.var),
                c.c@.map_values(|t: Term| t.var),
            ),
    )
}

/// The values recorded in the allocations, absent ones read as zero.
pub open spec fn allocated_values(l: R1csLayout) -> Seq<nat> {
    l.allocations@.map_values(
        |al: Allocation|
            match al.value {
                Some(s) => s@,
                None => 0,
            },
    )
}

/// The values of a sequence of scalars.
pub open spec fn values_of(v: Seq<Scalar>) -> Seq<nat> {
    v.map_values(|s: Scalar| s@)
}

fn var_eval(var: VarRef, vals: &Vec<Scalar>) -> (r: Scalar)
    ensures
        r@ == var_value(var, values_of(vals@)),
{
    match var {
        VarRef::One => Scalar::from_u64(1),
        VarRef::Alloc(i) => if i < vals.len() {
            vals[i]
        } else {
            Scalar::from_u64(0)
        },
    }
}

fn lc_eval(lc: &Vec<Term>, vals: &Vec<Scalar>) -> (r: Scalar)
    ensures
        r@ == lc_value(lc@, values_of(vals@)) % scalar_modulus(),
{
    let ghost vs = values_of(vals@);
    let ghost m = scalar_modulus();
    let mut acc = Scalar::from_u64(0);
    proof {
        assert(lc@.take(0).len() == 0);
        vstd::arithmetic::div_mod::lemma_small_mod(0, m);
    }
    let mut i: usize = 0;
    while i < lc.len()
        invariant
            i <= lc@.len(),
            vs == values_of(vals@),
            m == scalar_modulus(),
            acc@ == lc_value(lc@.take(i as int), vs) % m,
        decreases lc.len() - i,
    {
        let t = lc[i];
        let v = var_eval(t.var, vals);
        let p = t.coeff.mul(&v);
        proof {
            let pre = lc@.take(i as int);
            let next = lc@.take(i + 1);
            assert(next.drop_last() =~= pre);
            assert(next.last() == lc@[i as int]);
            vstd::arithmetic::div_mod::lemma_add_mod_noop(
                lc_value(pre, vs) as int,
                (t.coeff@ * v@) as int,
                m as int,
            );
        }
        acc = acc.add(&p);
        i = i + 1;
    }
    proof {
        assert(lc@.take(lc@.len() as int) =~= lc@);
    }
    acc
}

impl R1csLayout {
    /// Whether every constraint holds when the allocated variables take
    /// `vals`, position for position (a position past the end reads as zero).
    pub fn is_satisfied_by(&self, vals: &Vec<Scalar>) -> (r: bool)
        ensures
            r == layout_satisfied(*self, values_of(vals@)),
    {
        let ghost vs = values_of(vals@);
        let ghost m = scalar_modulus();
        let mut i: usize = 0;
        while i < self.constraints.len()
            invariant
                i <= self.constraints@.len(),
                vs == values_of(vals@),
                m == scalar_modulus(),
                forall|j: int| 0 <= j < i ==> constraint_holds(#[trigger] self.constraints@[j], vs),
            decreases self.constraints.len() - i,
        {
            let k = &self.constraints[i];
            let a = lc_eval(&k.a, vals);
            let b = lc_eval(&k.b, vals);
            let c = lc_eval(&k.c, vals);
            let ab = a.mul(&b);
            proof {
                vstd::arithmetic::div_mod::lemma_mul_mod_noop(
                    lc_value(k.a@, vs) as int,
                    lc_value(k.b@, vs) as int,
                    m as int,
                );
            }
            if !ab.same_value(&c) {
                return false;
            }
            i = i + 1;
        }
        true
    }
}

fn single_term(coeff: Scalar, var: VarRef) -> (r: Vec<Term>)
    ensures
        lc_is(r@, seq![(coeff@, var)]),
{
    let r = vec![Term { coeff, var }];
    assert(r@[0].coeff@ == seq![(coeff@, var)][0].0);
    r
}

impl LinearCircuit {
    /// The circuit with no values, whose synthesis fixes only the shape.
    pub fn placeholder(a: Scalar, b: Scalar) -> (r: LinearCircuit)
        ensures
            r.x is None,
            r.y is None,
            r.a == a,
            r.b == b,
    {
        LinearCircuit { x: None, y: None, a, b }
    }

    /// The circuit for witness `x` with the public input `y = a·x + b`.
    pub fn assigned(a: Scalar, b: Scalar, x: Scalar) -> (r: LinearCircuit)
        ensures
            r.x == Some(x),
            r.y is Some,
            r.y->0@ == (a@ * x@ + b@) % scalar_modulus(),
            r.a == a,
            r.b == b,
    {
        let ax = a.mul(&x);
        let y = ax.add(&b);
        proof {
            vstd::arithmetic::div_mod::lemma_add_mod_noop_right(b@ as int, (a@ * x@) as int, scalar_modulus() as int);
        }
        LinearCircuit { x: Some(x), y: Some(y), a, b }
    }

    /// The intermediate witness `tmp = a·x`, present exactly when `x` is.
    pub fn tmp_value(&self) -> (r: Option<Scalar>)
        ensures
            value_of(r) == tmp_of(*self),
    {
        match &self.x {
            Some(x) => Some(self.a.mul(x)),
            None => None,
        }
    }

    /// Lowers the relation into its rank-1 constraints: allocates `x`, `y` and
    /// `tmp`, then enforces `a·x = tmp` and `tmp + b = y`.
    pub fn generate_constraints(&self) -> (r: R1csLayout)
        ensures
            is_layout_of(*self, r),
    {
        let one = Scalar::from_u64(1);
        let mut allocations: Vec<Allocation> = Vec::new();
        allocations.push(Allocation { kind: AllocKind::Witness, value: self.x });
        allocations.push(Allocation { kind: AllocKind::Input, value: self.y });
        allocations.push(Allocation { kind: AllocKind::Witness, value: self.tmp_value() });
        let first = R1csConstraint {
            a: single_term(self.a, VarRef::Alloc(0)),
            b: single_term(one, VarRef::One),
            c: single_term(one, VarRef::Alloc(2)),
        };
        let second_a = vec![Term { coeff: one, var: VarRef::Alloc(2) }, Term { coeff: self.b, var: VarRef::One }];
        let second = R1csConstraint {
            a: second_a,
            b: single_term(one, VarRef::One),
            c: single_term(one, VarRef::Alloc(1)),
        };
        let mut constraints: Vec<R1csConstraint> = Vec::new();
        constraints.push(first);
        constraints.push(second);
        let r = R1csLayout { allocations, constraints };
        assert(lc_is(r.constraints@[1].a@, seq![(1nat, VarRef::Alloc(2)), (self.b@, VarRef::One)]));
        r
    }

    /// The values of `x`, `y` and `tmp` in allocation order, or
    /// `AssignmentMissing` when the circuit lacks `x` or `y`.
    pub fn assignment(&self) -> (r: Result<Vec<Scalar>, CircuitError>)
        ensures
            r is Err <==> (self.x is None || self.y is None),
            r is Err ==> r == Err::<Vec<Scalar>, CircuitError>(CircuitError::AssignmentMissing),
            r is Ok ==> r->Ok_0@.len() == 3 && r->Ok_0@[0] == self.x->0 && r->Ok_0@[1] == self.y->0
                && Some(r->Ok_0@[2]@) == tmp_of(*self),
    {
        match (self.x, self.y) {
            (Some(x), Some(y)) => Ok(vec![x, y, self.a.mul(&x)]),
            _ => Err(CircuitError::AssignmentMissing),
        }
    }
}

/// The assignment of a circuit gives its layout's allocations their values.
pub proof fn lemma_assignment_matches_layout(c: LinearCircuit, l: R1csLayout, vals: Seq<Scalar>)
    requires
        is_layout_of(c, l),
        vals.len() == 3,
        vals[0] == c.x->0,
        vals[1] == c.y->0,
        c.x is Some,
        c.y is Some,
        Some(vals[2]@) == tmp_of(c),
    ensures
        values_of(vals) == allocated_values(l),
{
    assert(values_of(vals) =~= allocated_values(l));
}

/// Synthesis fixes the same shape whether or not the circuit carries values:
/// one public input and two witnesses, in the same order, and two constraints
/// over the same variables.
pub proof fn lemma_shape_independent_of_values(c1: LinearCircuit, c2: LinearCircuit, l1: R1csLayout, l2: R1csLayout)
    requires
        is_layout_of(c1, l1),
        is_layout_of(c2, l2),
    ensures
        allocation_kinds(l1) == allocation_kinds(l2),
        allocation_kinds(l1) == seq![AllocKind::Witness, AllocKind::Input, AllocKind::Witness],
        constraint_vars(l1) == constraint_vars(l2),
        l1.constraints@.len() == 2,
{
    assert(allocation_kinds(l1) =~= seq![AllocKind::Witness, AllocKind::Input, AllocKind::Witness]);
    assert(allocation_kinds(l2) =~= seq![AllocKind::Witness, AllocKind::Input, AllocKind::Witness]);
    assert forall|i: int| 0 <= i < 2 implies constraint_vars(l1)[i] == constraint_vars(l2)[i] by {
        let k1 = l1.constraints@[i];
        let k2 = l2.constraints@[i];
        assert(k1.a@.map_values(|t: Term| t.var) =~= k2.a@.map_values(|t: Term| t.var));
        assert(k1.b@.map_values(|t: Term| t.var) =~= k2.b@.map_values(|t: Term| t.var));
        assert(k1.c@.map_values(|t: Term| t.var) =~= k2.c@.map_values(|t: Term| t.var));
    }
    assert(constraint_vars(l1) =~= constraint_vars(l2));
}

/// With both values present, the synthesized constraints hold of the
/// allocated values exactly when `y ≡ a·x + b` modulo the field order.
pub proof fn lemma_satisfied_iff_relation(c: LinearCircuit, l: R1csLayout)
    requires
        is_layout_of(c, l),
        c.x is Some,
        c.y is Some,
    ensures
        layout_satisfied(l, allocated_values(l)) <==> c.y->0@ % scalar_modulus() == (c.a@ * c.x->0@ + c.b@)
            % scalar_modulus(),
{
    reveal_with_fuel(lc_value, 3);
    let m = scalar_modulus();
    let x = c.x->0@;
    let y = c.y->0@;
    let t = (c.a@ * x) % m;
    let vals = allocated_values(l);
    assert(vals[0] == x);
    assert(vals[1] == y);
    assert(vals[2] == t);
    let k0 = l.constraints@[0];
    let k1 = l.constraints@[1];
    assert(lc_value(k0.a@, vals) == c.a@ * x) by {
        assert(k0.a@.drop_last().len() == 0);
    }
    assert(lc_value(k0.b@, vals) == 1) by {
        assert(k0.b@.drop_last().len() == 0);
    }
    assert(lc_value(k0.c@, vals) == t) by {
        assert(k0.c@.drop_last().len() == 0);
        assert(k0.c@[0].coeff@ == 1 && k0.c@[0].var == VarRef::Alloc(2));
        assert(var_value(VarRef::Alloc(2), vals) == t);
        assert(k0.c@.last() == k0.c@[0]);
    }
    assert(lc_value(k1.a@, vals) == t + c.b@) by {
        assert(k1.a@.drop_last().drop_last().len() == 0);
        assert(k1.a@.drop_last().last() == k1.a@[0]);
        assert(k1.a@.last() == k1.a@[1]);
        assert(k1.a@[0].coeff@ == 1 && k1.a@[0].var == VarRef::Alloc(2));
        assert(k1.a@[1].coeff@ == c.b@ && k1.a@[1].var == VarRef::One);
        assert(var_value(VarRef::Alloc(2), vals) == t);
    }
    assert(lc_value(k1.b@, vals) == 1) by {
        assert(k1.b@.drop_last().len() == 0);
    }
    assert(lc_value(k1.c@, vals) == y) by {
        assert(k1.c@.drop_last().len() == 0);
        assert(k1.c@.last() == k1.c@[0]);
    }
    vstd::arithmetic::div_mod::lemma_mod_bound((c.a@ * x) as int, m as int);
    lemma_mod_of_reduced(t);
    assert(constraint_holds(k0, vals));
    vstd::arithmetic::div_mod::lemma_add_mod_noop_right(c.b@ as int, (c.a@ * x) as int, m as int);
    assert(constraint_holds(k1, vals) <==> y % m == (c.a@ * x + c.b@) % m);
}

/// For every `a`, `b` and `x`, the circuit whose public input is
/// `y = a·x + b` satisfies its own constraints.
pub proof fn lemma_relation_instance_satisfied(c: LinearCircuit, l: R1csLayout)
    requires
        is_layout_of(c, l),
        c.x is Some,
        c.y is Some,
        c.y->0@ == (c.a@ * c.x->0@ + c.b@) % scalar_modulus(),
    ensures
        layout_satisfied(l, allocated_values(l)),
{
    lemma_satisfied_iff_relation(c, l);
    vstd::arithmetic::div_mod::lemma_mod_twice((c.a@ * c.x->0@ + c.b@) as int, scalar_modulus() as int);
}

proof fn lemma_mod_of_reduced(v: nat)
    requires
        v < scalar_modulus(),
    ensures
        v % scalar_modulus() == v,
{
    vstd::arithmetic::div_mod::lemma_small_mod(v, scalar_modulus());
}

} // verus!
