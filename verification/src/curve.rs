//! The boundary to the curve arithmetic.
//!
//! The elliptic-curve and pairing arithmetic itself is an outside capability:
//! each operation the workloads need — random sampling, scalar
//! multiplication, multi-exponentiation, affine conversion, pairing and the
//! Miller-loop/final-exponentiation split — is consumed through one trusted
//! wrapper around the corresponding `blstrs` call. The group elements are
//! opaque here; where a call's result is a deterministic function of its
//! arguments alone — affine conversion, line precomputation, the Miller loop
//! and the final exponentiation — that result carries a name, so that
//! contracts downstream can pin it exactly.
//!
//! [`multi_pairing`] is the one piece of verified logic in this module: it
//! pairs two equal-length sequences position by position into one combined
//! Miller loop followed by a single final exponentiation, and its contract
//! says so over the names.

use vstd::prelude::*;

verus! {

#[verifier::external_type_specification]
#[verifier::external_body]
pub struct ExScalar(blstrs::Scalar);

#[verifier::external_type_specification]
#[verifier::external_body]
pub struct ExG1Projective(blstrs::G1Projective);

#[verifier::external_type_specification]
#[verifier::external_body]
pub struct ExG2Projective(blstrs::G2Projective);

#[verifier::external_type_specification]
#[verifier::external_body]
pub struct ExG1Affine(blstrs::G1Affine);

#[verifier::external_type_specification]
#[verifier::external_body]
pub struct ExG2Affine(blstrs::G2Affine);

#[verifier::external_type_specification]
#[verifier::external_body]
pub struct ExG2Prepared(blstrs::G2Prepared);

#[verifier::external_type_specification]
#[verifier::external_body]
pub struct ExGt(blstrs::Gt);

#[verifier::external_type_specification]
#[verifier::external_body]
pub struct ExMillerLoopResult(blstrs::MillerLoopResult);

#[verifier::external_type_specification]
#[verifier::external_body]
pub struct ExThreadRng(rand::rngs::ThreadRng);

/// The affine form of a G1 point, as `group::Curve::to_affine` returns it.
pub uninterp spec fn g1_affine_of(p: blstrs::G1Projective) -> blstrs::G1Affine;

/// The affine form of a G2 point, as `group::Curve::to_affine` returns it.
pub uninterp spec fn g2_affine_of(q: blstrs::G2Projective) -> blstrs::G2Affine;

/// The precomputed lines of an affine G2 point, as
/// `blstrs::G2Prepared::from` returns them.
pub uninterp spec fn g2_prepared_of(q: blstrs::G2Affine) -> blstrs::G2Prepared;

/// The combined Miller loop over terms paired by position, as
/// `pairing::MultiMillerLoop::multi_miller_loop` for `blstrs::Bls12`
/// returns it.
pub uninterp spec fn miller_of(g1s: Seq<blstrs::G1Affine>, g2s: Seq<blstrs::G2Prepared>) -> blstrs::MillerLoopResult;

/// The final exponentiation of a Miller-loop accumulator, as
/// `pairing::MillerLoopResult::final_exponentiation` returns it.
pub uninterp spec fn final_exp_of(m: blstrs::MillerLoopResult) -> blstrs::Gt;

/// The affine forms of a sequence of G1 points, position by position.
pub open spec fn affine_g1s(ps: Seq<blstrs::G1Projective>) -> Seq<blstrs::G1Affine> {
    ps.map_values(|p: blstrs::G1Projective| g1_affine_of(p))
}

/// The prepared forms of a sequence of G2 points, position by position: each
/// brought to affine form, then precomputed for a Miller loop.
pub open spec fn prepared_g2s(qs: Seq<blstrs::G2Projective>) -> Seq<blstrs::G2Prepared> {
    qs.map_values(|q: blstrs::G2Projective| g2_prepared_of(g2_affine_of(q)))
}

/// Relies on `ff::Field::random` for `blstrs::Scalar`: a uniformly random
/// scalar; nothing is promised of the value drawn.
#[verifier::external_body]
pub(crate) fn scalar_random(rng: &mut rand::rngs::ThreadRng) -> blstrs::Scalar {
    <blstrs::Scalar as group::ff::Field>::random(&mut *rng)
}

/// Relies on `group::Group::random` for `blstrs::G1Projective`: a uniformly
/// random G1 element; nothing is promised of the value drawn.
#[verifier::external_body]
pub(crate) fn g1_random(rng: &mut rand::rngs::ThreadRng) -> blstrs::G1Projective {
    <blstrs::G1Projective as group::Group>::random(&mut *rng)
}

/// Relies on `group::Group::random` for `blstrs::G2Projective`: a uniformly
/// random G2 element; nothing is promised of the value drawn.
#[verifier::external_body]
pub(crate) fn g2_random(rng: &mut rand::rngs::ThreadRng) -> blstrs::G2Projective {
    <blstrs::G2Projective as group::Group>::random(&mut *rng)
}

/// Relies on `Mul<blstrs::Scalar>` for `blstrs::G1Projective`: one scalar
/// multiplication in G1. The result is an opaque group element.
#[verifier::external_body]
pub(crate) fn g1_mul(base: &blstrs::G1Projective, scalar: &blstrs::Scalar) -> blstrs::G1Projective {
    *base * *scalar
}

/// Relies on `Mul<blstrs::Scalar>` for `blstrs::G2Projective`: one scalar
/// multiplication in G2. The result is an opaque group element.
#[verifier::external_body]
pub(crate) fn g2_mul(base: &blstrs::G2Projective, scalar: &blstrs::Scalar) -> blstrs::G2Projective {
    *base * *scalar
}

/// Relies on `blstrs::G1Projective::multi_exp`: one multi-exponentiation over
/// the given bases and scalars. Its source does not say what mismatched or
/// empty inputs do, so only equal-length, non-empty inputs are admitted.
#[verifier::external_body]
pub(crate) fn g1_multi_exp(bases: &Vec<blstrs::G1Projective>, scalars: &Vec<blstrs::Scalar>) -> blstrs::G1Projective
    requires
        bases@.len() == scalars@.len(),
        bases@.len() >= 1,
{
    blstrs::G1Projective::multi_exp(bases.as_slice(), scalars.as_slice())
}

/// Relies on `blstrs::G2Projective::multi_exp`: one multi-exponentiation over
/// the given bases and scalars. Its source does not say what mismatched or
/// empty inputs do, so only equal-length, non-empty inputs are admitted.
#[verifier::external_body]
pub(crate) fn g2_multi_exp(bases: &Vec<blstrs::G2Projective>, scalars: &Vec<blstrs::Scalar>) -> blstrs::G2Projective
    requires
        bases@.len() == scalars@.len(),
        bases@.len() >= 1,
{
    blstrs::G2Projective::multi_exp(bases.as_slice(), scalars.as_slice())
}

/// Relies on `group::Curve::to_affine` for `blstrs::G1Projective`: the affine
/// form of the same point, a function of the point alone, named
/// [`g1_affine_of`].
#[verifier::external_body]
pub(crate) fn g1_to_affine(p: &blstrs::G1Projective) -> (r: blstrs::G1Affine)
    ensures
        r == g1_affine_of(*p),
{
    group::Curve::to_affine(p)
}

/// Relies on `group::Curve::to_affine` for `blstrs::G2Projective`: the affine
/// form of the same point, a function of the point alone, named
/// [`g2_affine_of`].
#[verifier::external_body]
pub(crate) fn g2_to_affine(p: &blstrs::G2Projective) -> (r: blstrs::G2Affine)
    ensures
        r == g2_affine_of(*p),
{
    group::Curve::to_affine(p)
}

/// Relies on `From<blstrs::G2Affine>` for `blstrs::G2Prepared`: the
/// precomputed line coefficients of the point, ready for a Miller loop — a
/// function of the point alone, named [`g2_prepared_of`].
#[verifier::external_body]
pub(crate) fn g2_prepare(p: &blstrs::G2Affine) -> (r: blstrs::G2Prepared)
    ensures
        r == g2_prepared_of(*p),
{
    blstrs::G2Prepared::from(*p)
}

/// Relies on `blstrs::pairing`: one bilinear pairing of an affine G1 and an
/// affine G2 element. The result is an opaque target-group element.
#[verifier::external_body]
pub(crate) fn single_pairing(a: &blstrs::G1Affine, b: &blstrs::G2Affine) -> blstrs::Gt {
    blstrs::pairing(a, b)
}

/// Relies on `pairing::MultiMillerLoop::multi_miller_loop` for
/// `blstrs::Bls12`: one combined Miller loop over the terms paired by
/// position — a deterministic function of the terms alone, named
/// [`miller_of`]. Its source walks the two-sided terms together, so equal
/// lengths are required.
#[verifier::external_body]
pub(crate) fn multi_miller_loop_terms(g1s: &Vec<blstrs::G1Affine>, g2s: &Vec<blstrs::G2Prepared>) -> (r: blstrs::MillerLoopResult)
    requires
        g1s@.len() == g2s@.len(),
    ensures
        r == miller_of(g1s@, g2s@),
{
    let terms: Vec<(&blstrs::G1Affine, &blstrs::G2Prepared)> =
        g1s.iter().zip(g2s.iter()).collect();
    <blstrs::Bls12 as pairing::MultiMillerLoop>::multi_miller_loop(&terms)
}

/// Relies on `pairing::MillerLoopResult::final_exponentiation` for
/// `blstrs::MillerLoopResult`: the single final exponentiation that turns a
/// Miller-loop accumulator into a target-group element — a function of the
/// accumulator alone, named [`final_exp_of`].
#[verifier::external_body]
pub(crate) fn final_exponentiation(m: &blstrs::MillerLoopResult) -> (r: blstrs::Gt)
    ensures
        r == final_exp_of(*m),
{
    pairing::MillerLoopResult::final_exponentiation(m)
}

/// Relies on `std::hint::black_box`: forces the simulated results to count as
/// used, so the optimizer cannot drop the computation being measured.
#[verifier::external_body]
pub(crate) fn opaque_use<T>(v: T) {
    let _ = std::hint::black_box(v);
}

/// Combines two equal-length sequences of group elements into one
/// multi-pairing: each position is brought to affine form, the G2 side is
/// prepared, and a single combined Miller loop is closed by one final
/// exponentiation — exactly the value the contract names. Unequal lengths
/// are a programming error and are ruled out up front.
pub fn multi_pairing(lhs: &Vec<blstrs::G1Projective>, rhs: &Vec<blstrs::G2Projective>) -> (r: blstrs::Gt)
    requires
        lhs@.len() == rhs@.len(),
    ensures
        r == final_exp_of(miller_of(affine_g1s(lhs@), prepared_g2s(rhs@))),
{
    let mut g1s: Vec<blstrs::G1Affine> = Vec::new();
    let mut preps: Vec<blstrs::G2Prepared> = Vec::new();
    let mut i: usize = 0;
    while i < lhs.len()
        invariant
            lhs@.len() == rhs@.len(),
            i <= lhs@.len(),
            g1s@ == affine_g1s(lhs@.take(i as int)),
            preps@ == prepared_g2s(rhs@.take(i as int)),
        decreases lhs@.len() - i,
    {
        g1s.push(g1_to_affine(&lhs[i]));
        let affine = g2_to_affine(&rhs[i]);
        preps.push(g2_prepare(&affine));
        proof {
            assert(lhs@.take(i + 1) =~= lhs@.take(i as int).push(lhs@[i as int]));
            assert(rhs@.take(i + 1) =~= rhs@.take(i as int).push(rhs@[i as int]));
            assert(g1s@ =~= affine_g1s(lhs@.take(i + 1)));
            assert(preps@ =~= prepared_g2s(rhs@.take(i + 1)));
        }
        i += 1;
    }
    proof {
        assert(lhs@.take(lhs@.len() as int) =~= lhs@);
        assert(rhs@.take(rhs@.len() as int) =~= rhs@);
    }
    let m = multi_miller_loop_terms(&g1s, &preps);
    final_exponentiation(&m)
}

} // verus!
