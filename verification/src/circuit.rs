//! The circuit descriptor: the relation `a + b = c`.
//!
//! The descriptor holds three optional scalar-field slots. Either all three
//! are present (assigned mode, used to build a concrete proof) or all three
//! are absent (shape-only mode, used only to describe the constraint
//! topology for setup); partial assignment is invalid.

use vstd::prelude::*;

use ark_bn254::Fr;
use ark_relations::r1cs::SynthesisError;

use crate::backend::{
    alloc_input, alloc_witness, cs_constraints, cs_input_vars, cs_witness_vars,
    enforce_sum_constraint, fr_from_u64, fr_of, ConstraintSystemHandle,
};
use ark_relations::r1cs::Variable;

verus! {

/// The descriptor of the single demonstration relation: private witnesses
/// `a` and `b`, public input `c`, one constraint `(a + b) * 1 = c`.
#[derive(Clone, Copy)]
pub struct Circuit {
    /// The private witness `a`.
    pub a: Option<Fr>,
    /// The private witness `b`.
    pub b: Option<Fr>,
    /// The public input `c`.
    pub c: Option<Fr>,
}

impl Circuit {
    /// All three slots are present: the descriptor can back a proof.
    pub open spec fn is_assigned(self) -> bool {
        self.a is Some && self.b is Some && self.c is Some
    }

    /// All three slots are absent: the descriptor only describes the
    /// constraint topology.
    pub open spec fn is_shape_only(self) -> bool {
        self.a is None && self.b is None && self.c is None
    }

    /// The descriptor's invariant: assigned or shape-only, never partial.
    pub open spec fn wf(self) -> bool {
        self.is_assigned() || self.is_shape_only()
    }

    /// The all-absent descriptor, used exclusively for setup.
    pub fn shape_only() -> (r: Circuit)
        ensures
            r.is_shape_only(),
    {
        Circuit { a: None, b: None, c: None }
    }

    /// The all-present descriptor, used to build a concrete proof.
    pub fn assigned(a: Fr, b: Fr, c: Fr) -> (r: Circuit)
        ensures
            r.is_assigned(),
            r.a == Some(a),
            r.b == Some(b),
            r.c == Some(c),
    {
        Circuit { a: Some(a), b: Some(b), c: Some(c) }
    }

    /// The demonstration assignment: witnesses `4` and `2`, public
    /// output `6`.
    pub fn demo_assignment() -> (r: Circuit)
        ensures
            r.is_assigned(),
            r.a == Some(fr_of(4)),
            r.b == Some(fr_of(2)),
            r.c == Some(fr_of(6)),
    {
        Circuit::assigned(fr_from_u64(4), fr_from_u64(2), fr_from_u64(6))
    }

    /// Executable test of the descriptor's invariant.
    pub fn is_well_formed(&self) -> (r: bool)
        ensures
            r == self.wf(),
    {
        (self.a.is_some() && self.b.is_some() && self.c.is_some()) || (self.a.is_none()
            && self.b.is_none() && self.c.is_none())
    }

    /// The public-input vector that must accompany a proof built from this
    /// descriptor: exactly the single declared public value `c`, or nothing
    /// when `c` is absent.
    pub fn public_inputs(&self) -> (r: Option<Vec<Fr>>)
        ensures
            r is Some <==> self.c is Some,
            r is Some ==> r->0@ == seq![self.c->0],
    {
        match self.c {
            Some(c) => Some(vec![c]),
            None => None,
        }
    }

    /// Drives the backend's constraint construction: allocates witness `a`,
    /// then witness `b`, then public input `c` — key material is sensitive
    /// to this order — and registers the single constraint
    /// `(a + b) * 1 = c`. On success the handle gained exactly those two
    /// witness variables, that one input variable and that one constraint,
    /// in that order, and nothing else. In proving mode the backend fails
    /// the allocation of an absent slot; in setup mode values are never
    /// consulted.
    pub fn synthesize(self, cs: &mut ConstraintSystemHandle) -> (r: Result<(), SynthesisError>)
        requires
            self.wf(),
        ensures
            r is Ok ==> exists|va: Variable, vb: Variable, vc: Variable|
                sum_circuit_synthesized(*old(cs), *final(cs), va, vb, vc),
    {
        let va = match alloc_witness(cs, self.a) {
            Ok(v) => v,
            Err(e) => {
                return Err(e);
            },
        };
        let vb = match alloc_witness(cs, self.b) {
            Ok(v) => v,
            Err(e) => {
                return Err(e);
            },
        };
        let vc = match alloc_input(cs, self.c) {
            Ok(v) => v,
            Err(e) => {
                return Err(e);
            },
        };
        let left = vec![va, vb];
        let out = vec![vc];
        match enforce_sum_constraint(cs, left, out) {
            Ok(u) => {
                proof {
                    assert(left@ =~= seq![va, vb]);
                    assert(out@ =~= seq![vc]);
                    assert(cs_witness_vars(*cs) =~= cs_witness_vars(*old(cs)) + seq![va, vb]);
                    assert(cs_input_vars(*cs) =~= cs_input_vars(*old(cs)) + seq![vc]);
                    assert(cs_constraints(*cs) == cs_constraints(*old(cs)).push(
                        (seq![va, vb], seq![vc]),
                    ));
                    assert(sum_circuit_synthesized(*old(cs), *cs, va, vb, vc));
                }
                Ok(u)
            },
            Err(e) => Err(e),
        }
    }
}

/// Holds when the step from `before` to `after` added to the constraint
/// system exactly the demonstration relation: the two witness variables
/// `va` and `vb` in that order, the public-input variable `vc`, and the
/// single constraint `(va + vb) * 1 = vc` — nothing else.
pub open spec fn sum_circuit_synthesized(
    before: ConstraintSystemHandle,
    after: ConstraintSystemHandle,
    va: Variable,
    vb: Variable,
    vc: Variable,
) -> bool {
    &&& cs_witness_vars(after) == cs_witness_vars(before) + seq![va, vb]
    &&& cs_input_vars(after) == cs_input_vars(before) + seq![vc]
    &&& cs_constraints(after) == cs_constraints(before).push((seq![va, vb], seq![vc]))
}

} // verus!
