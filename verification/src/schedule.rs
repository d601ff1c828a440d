//! The operation-count cost model for Groth16.
//!
//! A [`Schedule`] lists how many group operations of each kind one party must
//! perform: plain exponentiations per group, multi-exponentiation batches
//! (as `(repetitions, batch size)` entries), pairings, and multi-pairing
//! batches. [`groth16_schedule`] maps the circuit parameters (n, k, t, l) to
//! the prover's and the verifier's schedule; the exact counts are the
//! authoritative contract, stated by [`prover_model`] and [`verifier_model`].

use vstd::prelude::*;

verus! {

/// An operation schedule for one party: how many exponentiations,
/// multi-exponentiation batches, pairings and multi-pairing batches to run.
///
/// Each entry of a batch list is `(num, size)`: run `num` invocations, each
/// over `size` operands. An entry with `num == 0` or `size == 0` contributes
/// no work, and is kept rather than rejected.
pub struct Schedule {
    /// Number of scalar exponentiations in G1.
    pub g1_exps: usize,
    /// Multi-exponentiation batches in G1, as `(num, size)` entries.
    pub g1_multi_exps: Vec<(usize, usize)>,
    /// Number of scalar exponentiations in G2.
    pub g2_exps: usize,
    /// Multi-exponentiation batches in G2, as `(num, size)` entries.
    pub g2_multi_exps: Vec<(usize, usize)>,
    /// Number of individual pairings.
    pub pairings: usize,
    /// Multi-pairing batches, as `(num, size)` entries.
    pub multi_pairings: Vec<(usize, usize)>,
}

/// The mathematical model of a [`Schedule`]: the same counts over `int`.
#[verifier::ext_equal]
pub ghost struct ScheduleModel {
    pub g1_exps: int,
    pub g1_multi_exps: Seq<(int, int)>,
    pub g2_exps: int,
    pub g2_multi_exps: Seq<(int, int)>,
    pub pairings: int,
    pub multi_pairings: Seq<(int, int)>,
}

/// Widens a batch list to its model.
pub open spec fn batches_model(v: Seq<(usize, usize)>) -> Seq<(int, int)> {
    v.map_values(|e: (usize, usize)| (e.0 as int, e.1 as int))
}

impl View for Schedule {
    type V = ScheduleModel;

    open spec fn view(&self) -> ScheduleModel {
        ScheduleModel {
            g1_exps: self.g1_exps as int,
            g1_multi_exps: batches_model(self.g1_multi_exps@),
            g2_exps: self.g2_exps as int,
            g2_multi_exps: batches_model(self.g2_multi_exps@),
            pairings: self.pairings as int,
            multi_pairings: batches_model(self.multi_pairings@),
        }
    }
}

/// The prover's operation counts as a function of the circuit parameters.
pub open spec fn prover_model(n: int, k: int, t: int, l: int) -> ScheduleModel {
    ScheduleModel {
        g1_exps: n + 2 * k + l + 2,
        g1_multi_exps: seq![(2int, n), (n * k + n + k + l + 1, 2int)],
        g2_exps: t + 1,
        g2_multi_exps: seq![],
        pairings: 0,
        multi_pairings: seq![],
    }
}

/// The verifier's operation counts as a function of the circuit parameters.
///
/// The three pairings of verification are combined into one multi-pairing of
/// size 3; the single field inversion that this combination costs is
/// deliberately not charged for.
pub open spec fn verifier_model(n: int, k: int, t: int, l: int) -> ScheduleModel {
    ScheduleModel {
        g1_exps: n + 2,
        g1_multi_exps: seq![
            (1int, 2int),
            (2int, n + 1),
            (n, k + 1),
            (1int, l + 1),
            (1int, k * n * l + l + 1),
            (1int, n + 2),
            (2int, k),
        ],
        g2_exps: 1,
        g2_multi_exps: seq![(1int, t + 1), (1int, k)],
        pairings: 0,
        multi_pairings: seq![(1int, 3int)],
    }
}

/// Maps the Groth16 circuit parameters — n multiplication gates, k public
/// inputs, evaluation-domain degree bound t, l linear-combination outputs —
/// to the prover's and the verifier's operation schedule.
///
/// The counts are a pure arithmetic function of the four parameters; no
/// validation is performed, and degenerate inputs yield degenerate (possibly
/// zero-size) schedules. The preconditions only keep every derived count
/// within the machine word.
pub fn groth16_schedule(n: usize, k: usize, t: usize, l: usize) -> (r: (Schedule, Schedule))
    requires
        n + 2 * k + l + 2 <= usize::MAX,
        n * k + n + k + l + 1 <= usize::MAX,
        t + 1 <= usize::MAX,
        k * n * l + l + 1 <= usize::MAX,
    ensures
        r.0@ == prover_model(n as int, k as int, t as int, l as int),
        r.1@ == verifier_model(n as int, k as int, t as int, l as int),
{
    let mut prover_mexps: Vec<(usize, usize)> = Vec::new();
    prover_mexps.push((2, n));
    prover_mexps.push((n * k + n + k + l + 1, 2));
    let prover = Schedule {
        g1_exps: n + 2 * k + l + 2,
        g1_multi_exps: prover_mexps,
        g2_exps: t + 1,
        g2_multi_exps: Vec::new(),
        pairings: 0,
        multi_pairings: Vec::new(),
    };

    let combined_size: usize = if n == 0 || k == 0 || l == 0 {
        proof {
            assert(k * n * l == 0) by (nonlinear_arith)
                requires
                    n == 0 || k == 0 || l == 0,
            ;
        }
        l + 1
    } else {
        proof {
            assert(k * n <= k * n * l) by (nonlinear_arith)
                requires
                    k >= 1,
                    n >= 1,
                    l >= 1,
            ;
        }
        k * n * l + l + 1
    };
    let mut verifier_mexps: Vec<(usize, usize)> = Vec::new();
    verifier_mexps.push((1, 2));
    verifier_mexps.push((2, n + 1));
    verifier_mexps.push((n, k + 1));
    verifier_mexps.push((1, l + 1));
    verifier_mexps.push((1, combined_size));
    verifier_mexps.push((1, n + 2));
    verifier_mexps.push((2, k));
    let mut verifier_g2_mexps: Vec<(usize, usize)> = Vec::new();
    verifier_g2_mexps.push((1, t + 1));
    verifier_g2_mexps.push((1, k));
    let mut verifier_mps: Vec<(usize, usize)> = Vec::new();
    verifier_mps.push((1, 3));
    let verifier = Schedule {
        g1_exps: n + 2,
        g1_multi_exps: verifier_mexps,
        g2_exps: 1,
        g2_multi_exps: verifier_g2_mexps,
        pairings: 0,
        multi_pairings: verifier_mps,
    };

    proof {
        let ni = n as int;
        let ki = k as int;
        let ti = t as int;
        let li = l as int;
        assert(prover@.g1_multi_exps =~= prover_model(ni, ki, ti, li).g1_multi_exps);
        assert(prover@.g2_multi_exps =~= prover_model(ni, ki, ti, li).g2_multi_exps);
        assert(prover@.multi_pairings =~= prover_model(ni, ki, ti, li).multi_pairings);
        assert(prover@ =~= prover_model(ni, ki, ti, li));
        assert(verifier@.g1_multi_exps =~= verifier_model(ni, ki, ti, li).g1_multi_exps);
        assert(verifier@.g2_multi_exps =~= verifier_model(ni, ki, ti, li).g2_multi_exps);
        assert(verifier@.multi_pairings =~= verifier_model(ni, ki, ti, li).multi_pairings);
        assert(verifier@ =~= verifier_model(ni, ki, ti, li));
    }
    (prover, verifier)
}

/// The schedule totals are a function of (n, k, t, l) alone: any two pairs of
/// schedules that meet the cost model's contract carry identical counts and
/// batch sizes. In particular two calls of [`groth16_schedule`] on the same
/// parameters agree, whatever else differs between them.
pub proof fn lemma_schedule_deterministic(
    n: int,
    k: int,
    t: int,
    l: int,
    a: (ScheduleModel, ScheduleModel),
    b: (ScheduleModel, ScheduleModel),
)
    requires
        a.0 == prover_model(n, k, t, l),
        a.1 == verifier_model(n, k, t, l),
        b.0 == prover_model(n, k, t, l),
        b.1 == verifier_model(n, k, t, l),
    ensures
        a == b,
{
}

} // verus!
