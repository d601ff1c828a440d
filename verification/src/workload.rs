//! Randomized workloads shaped by a [`Schedule`].
//!
//! A [`WorkloadItem`] is one self-contained batch of randomized operands
//! together with the one kind of operation to run over them; its
//! [`WorkloadItem::simulate`] performs the operations and forces their
//! results to be used, generating no randomness of its own. A
//! [`GroupOpsSimulation`] accumulates items in order against one shared
//! random source and runs them back to back; insertion order is execution
//! order, and the descriptor of every item — its kind, repetition count and
//! batch size — never depends on what the random source returned.

use vstd::prelude::*;

use crate::curve::{
    g1_mul, g1_multi_exp, g1_random, g1_to_affine, g2_mul, g2_multi_exp, g2_random, g2_to_affine,
    multi_pairing, opaque_use, scalar_random, single_pairing,
};
use crate::schedule::{batches_model, Schedule, ScheduleModel};

verus! {

/// What a [`WorkloadItem`] looks like from the outside: its kind, how many
/// invocations it runs, and over how many operands each invocation works.
/// The sampled operand values themselves do not appear here.
#[verifier::ext_equal]
pub ghost enum ItemDesc {
    G1Exps { count: int },
    G2Exps { count: int },
    G1MultiExps { num: int, size: int },
    G2MultiExps { num: int, size: int },
    Pairings { count: int },
    MultiPairings { num: int, size: int },
}

/// One batch of randomized operands plus the operation to run over them.
///
/// The operands are sampled once, at construction, from a caller-supplied
/// random source; `simulate` only consumes them.
pub enum WorkloadItem {
    /// `count` independent scalar multiplications in G1, one per
    /// (base, scalar) pair.
    G1Exps { bases: Vec<blstrs::G1Projective>, scalars: Vec<blstrs::Scalar> },
    /// `count` independent scalar multiplications in G2.
    G2Exps { bases: Vec<blstrs::G2Projective>, scalars: Vec<blstrs::Scalar> },
    /// `num` multi-exponentiations in G1, each over the same fixed
    /// (bases, scalars) batch.
    G1MultiExps { num: usize, bases: Vec<blstrs::G1Projective>, scalars: Vec<blstrs::Scalar> },
    /// `num` multi-exponentiations in G2, each over the same fixed batch.
    G2MultiExps { num: usize, bases: Vec<blstrs::G2Projective>, scalars: Vec<blstrs::Scalar> },
    /// Independent pairings, one per (G1, G2) pair, paired by position.
    Pairings { args_g1: Vec<blstrs::G1Affine>, args_g2: Vec<blstrs::G2Affine> },
    /// `num` multi-pairings, each over the same fixed set of (G1, G2) pairs.
    MultiPairings { num: usize, args_g1: Vec<blstrs::G1Projective>, args_g2: Vec<blstrs::G2Projective> },
}

impl WorkloadItem {
    /// The two operand vectors of an item always run in parallel: one scalar
    /// per base, one G2 element per G1 element.
    pub open spec fn wf(&self) -> bool {
        match self {
            WorkloadItem::G1Exps { bases, scalars } => bases@.len() == scalars@.len(),
            WorkloadItem::G2Exps { bases, scalars } => bases@.len() == scalars@.len(),
            WorkloadItem::G1MultiExps { num, bases, scalars } => bases@.len() == scalars@.len(),
            WorkloadItem::G2MultiExps { num, bases, scalars } => bases@.len() == scalars@.len(),
            WorkloadItem::Pairings { args_g1, args_g2 } => args_g1@.len() == args_g2@.len(),
            WorkloadItem::MultiPairings { num, args_g1, args_g2 } => args_g1@.len() == args_g2@.len(),
        }
    }

    /// The item's descriptor: its kind with its counts, independent of the
    /// sampled operand values.
    pub open spec fn desc(&self) -> ItemDesc {
        match self {
            WorkloadItem::G1Exps { bases, scalars } => ItemDesc::G1Exps { count: bases@.len() as int },
            WorkloadItem::G2Exps { bases, scalars } => ItemDesc::G2Exps { count: bases@.len() as int },
            WorkloadItem::G1MultiExps { num, bases, scalars } => ItemDesc::G1MultiExps {
                num: *num as int,
                size: bases@.len() as int,
            },
            WorkloadItem::G2MultiExps { num, bases, scalars } => ItemDesc::G2MultiExps {
                num: *num as int,
                size: bases@.len() as int,
            },
            WorkloadItem::Pairings { args_g1, args_g2 } => ItemDesc::Pairings {
                count: args_g1@.len() as int,
            },
            WorkloadItem::MultiPairings { num, args_g1, args_g2 } => ItemDesc::MultiPairings {
                num: *num as int,
                size: args_g1@.len() as int,
            },
        }
    }

    /// Samples `num` (base, scalar) pairs in G1 for independent
    /// exponentiations.
    pub fn new_g1_exps(rng: &mut rand::rngs::ThreadRng, num: usize) -> (r: WorkloadItem)
        ensures
            r.wf(),
            r.desc() == (ItemDesc::G1Exps { count: num as int }),
    {
        let mut bases: Vec<blstrs::G1Projective> = Vec::new();
        let mut scalars: Vec<blstrs::Scalar> = Vec::new();
        let mut i: usize = 0;
        while i < num
            invariant
                i <= num,
                bases@.len() == i as int,
                scalars@.len() == i as int,
            decreases num - i,
        {
            bases.push(g1_random(rng));
            scalars.push(scalar_random(rng));
            i += 1;
        }
        WorkloadItem::G1Exps { bases, scalars }
    }

    /// Samples `num` (base, scalar) pairs in G2 for independent
    /// exponentiations.
    pub fn new_g2_exps(rng: &mut rand::rngs::ThreadRng, num: usize) -> (r: WorkloadItem)
        ensures
            r.wf(),
            r.desc() == (ItemDesc::G2Exps { count: num as int }),
    {
        let mut bases: Vec<blstrs::G2Projective> = Vec::new();
        let mut scalars: Vec<blstrs::Scalar> = Vec::new();
        let mut i: usize = 0;
        while i < num
            invariant
                i <= num,
                bases@.len() == i as int,
                scalars@.len() == i as int,
            decreases num - i,
        {
            bases.push(g2_random(rng));
            scalars.push(scalar_random(rng));
            i += 1;
        }
        WorkloadItem::G2Exps { bases, scalars }
    }

    /// Samples one fixed batch of `size` (base, scalar) pairs in G1, to be
    /// multi-exponentiated `num` times.
    pub fn new_g1_multi_exps(rng: &mut rand::rngs::ThreadRng, num: usize, size: usize) -> (r: WorkloadItem)
        ensures
            r.wf(),
            r.desc() == (ItemDesc::G1MultiExps { num: num as int, size: size as int }),
    {
        let mut bases: Vec<blstrs::G1Projective> = Vec::new();
        let mut scalars: Vec<blstrs::Scalar> = Vec::new();
        let mut i: usize = 0;
        while i < size
            invariant
                i <= size,
                bases@.len() == i as int,
                scalars@.len() == i as int,
            decreases size - i,
        {
            bases.push(g1_random(rng));
            scalars.push(scalar_random(rng));
            i += 1;
        }
        WorkloadItem::G1MultiExps { num, bases, scalars }
    }

    /// Samples one fixed batch of `size` (base, scalar) pairs in G2, to be
    /// multi-exponentiated `num` times.
    pub fn new_g2_multi_exps(rng: &mut rand::rngs::ThreadRng, num: usize, size: usize) -> (r: WorkloadItem)
        ensures
            r.wf(),
            r.desc() == (ItemDesc::G2MultiExps { num: num as int, size: size as int }),
    {
        let mut bases: Vec<blstrs::G2Projective> = Vec::new();
        let mut scalars: Vec<blstrs::Scalar> = Vec::new();
        let mut i: usize = 0;
        while i < size
            invariant
                i <= size,
                bases@.len() == i as int,
                scalars@.len() == i as int,
            decreases size - i,
        {
            bases.push(g2_random(rng));
            scalars.push(scalar_random(rng));
            i += 1;
        }
        WorkloadItem::G2MultiExps { num, bases, scalars }
    }

    /// Samples `num` (G1, G2) pairs, already in affine form, for independent
    /// pairings.
    pub fn new_pairings(rng: &mut rand::rngs::ThreadRng, num: usize) -> (r: WorkloadItem)
        ensures
            r.wf(),
            r.desc() == (ItemDesc::Pairings { count: num as int }),
    {
        let mut args_g1: Vec<blstrs::G1Affine> = Vec::new();
        let mut args_g2: Vec<blstrs::G2Affine> = Vec::new();
        let mut i: usize = 0;
        while i < num
            invariant
                i <= num,
                args_g1@.len() == i as int,
                args_g2@.len() == i as int,
            decreases num - i,
        {
            let p = g1_random(rng);
            args_g1.push(g1_to_affine(&p));
            let q = g2_random(rng);
            args_g2.push(g2_to_affine(&q));
            i += 1;
        }
        WorkloadItem::Pairings { args_g1, args_g2 }
    }

    /// Samples one fixed set of `size` (G1, G2) pairs, to be multi-paired
    /// `num` times.
    pub fn new_multi_pairings(rng: &mut rand::rngs::ThreadRng, num: usize, size: usize) -> (r: WorkloadItem)
        ensures
            r.wf(),
            r.desc() == (ItemDesc::MultiPairings { num: num as int, size: size as int }),
    {
        let mut args_g1: Vec<blstrs::G1Projective> = Vec::new();
        let mut args_g2: Vec<blstrs::G2Projective> = Vec::new();
        let mut i: usize = 0;
        while i < size
            invariant
                i <= size,
                args_g1@.len() == i as int,
                args_g2@.len() == i as int,
            decreases size - i,
        {
            args_g1.push(g1_random(rng));
            args_g2.push(g2_random(rng));
            i += 1;
        }
        WorkloadItem::MultiPairings { num, args_g1, args_g2 }
    }

    /// Runs the item's operations over its pre-sampled operands and forces
    /// every result to count as used. No randomness is generated here, and
    /// batches of size zero run as no-ops.
    pub fn simulate(&self)
        requires
            self.wf(),
    {
        match self {
            WorkloadItem::G1Exps { bases, scalars } => {
                let mut results: Vec<blstrs::G1Projective> = Vec::new();
                let mut i: usize = 0;
                while i < bases.len()
                    invariant
                        bases@.len() == scalars@.len(),
                        i <= bases@.len(),
                    decreases bases@.len() - i,
                {
                    results.push(g1_mul(&bases[i], &scalars[i]));
                    i += 1;
                }
                opaque_use(results);
            },
            WorkloadItem::G2Exps { bases, scalars } => {
                let mut results: Vec<blstrs::G2Projective> = Vec::new();
                let mut i: usize = 0;
                while i < bases.len()
                    invariant
                        bases@.len() == scalars@.len(),
                        i <= bases@.len(),
                    decreases bases@.len() - i,
                {
                    results.push(g2_mul(&bases[i], &scalars[i]));
                    i += 1;
                }
                opaque_use(results);
            },
            WorkloadItem::G1MultiExps { num, bases, scalars } => {
                if bases.len() > 0 {
                    let mut results: Vec<blstrs::G1Projective> = Vec::new();
                    let mut i: usize = 0;
                    while i < *num
                        invariant
                            bases@.len() == scalars@.len(),
                            bases@.len() >= 1,
                            i <= *num,
                        decreases *num - i,
                    {
                        results.push(g1_multi_exp(bases, scalars));
                        i += 1;
                    }
                    opaque_use(results);
                }
            },
            WorkloadItem::G2MultiExps { num, bases, scalars } => {
                if bases.len() > 0 {
                    let mut results: Vec<blstrs::G2Projective> = Vec::new();
                    let mut i: usize = 0;
                    while i < *num
                        invariant
                            bases@.len() == scalars@.len(),
                            bases@.len() >= 1,
                            i <= *num,
                        decreases *num - i,
                    {
                        results.push(g2_multi_exp(bases, scalars));
                        i += 1;
                    }
                    opaque_use(results);
                }
            },
            WorkloadItem::Pairings { args_g1, args_g2 } => {
                let mut results: Vec<blstrs::Gt> = Vec::new();
                let mut i: usize = 0;
                while i < args_g1.len()
                    invariant
                        args_g1@.len() == args_g2@.len(),
                        i <= args_g1@.len(),
                    decreases args_g1@.len() - i,
                {
                    results.push(single_pairing(&args_g1[i], &args_g2[i]));
                    i += 1;
                }
                opaque_use(results);
            },
            WorkloadItem::MultiPairings { num, args_g1, args_g2 } => {
                let mut i: usize = 0;
                while i < *num
                    invariant
                        args_g1@.len() == args_g2@.len(),
                        i <= *num,
                    decreases *num - i,
                {
                    let r = multi_pairing(args_g1, args_g2);
                    opaque_use(r);
                    i += 1;
                }
            },
        }
    }
}

/// The G1 multi-exponentiation entries of a schedule, as item descriptors in
/// order.
pub open spec fn g1_mexp_descs(entries: Seq<(int, int)>) -> Seq<ItemDesc> {
    entries.map_values(|e: (int, int)| ItemDesc::G1MultiExps { num: e.0, size: e.1 })
}

/// The G2 multi-exponentiation entries of a schedule, as item descriptors in
/// order.
pub open spec fn g2_mexp_descs(entries: Seq<(int, int)>) -> Seq<ItemDesc> {
    entries.map_values(|e: (int, int)| ItemDesc::G2MultiExps { num: e.0, size: e.1 })
}

/// The multi-pairing entries of a schedule, as item descriptors in order.
pub open spec fn multi_pairing_descs(entries: Seq<(int, int)>) -> Seq<ItemDesc> {
    entries.map_values(|e: (int, int)| ItemDesc::MultiPairings { num: e.0, size: e.1 })
}

/// The workload a schedule describes: its item descriptors, in the order a
/// builder adds them — G1 exponentiations, the G1 multi-exponentiation
/// batches, G2 exponentiations, the G2 multi-exponentiation batches, the
/// pairings, and the multi-pairing batches.
pub open spec fn workload_of(m: ScheduleModel) -> Seq<ItemDesc> {
    seq![ItemDesc::G1Exps { count: m.g1_exps }] + g1_mexp_descs(m.g1_multi_exps)
        + seq![ItemDesc::G2Exps { count: m.g2_exps }] + g2_mexp_descs(m.g2_multi_exps)
        + seq![ItemDesc::Pairings { count: m.pairings }] + multi_pairing_descs(m.multi_pairings)
}

/// Accumulates workload items in order against one shared random source,
/// then runs them back to back.
///
/// Its view is the sequence of item descriptors, in insertion order, which is
/// also execution order. The builder owns the random source exclusively for
/// as long as it lives; nothing else draws from it.
pub struct GroupOpsSimulation {
    items: Vec<WorkloadItem>,
    rng: rand::rngs::ThreadRng,
}

impl View for GroupOpsSimulation {
    type V = Seq<ItemDesc>;

    closed spec fn view(&self) -> Seq<ItemDesc> {
        self.items@.map_values(|it: WorkloadItem| it.desc())
    }
}

impl GroupOpsSimulation {
    /// Every accumulated item keeps its operand vectors in parallel.
    pub closed spec fn wf(&self) -> bool {
        forall|i: int| 0 <= i < self.items@.len() ==> (#[trigger] self.items@[i]).wf()
    }

    /// A builder with no items yet, owning the given random source.
    pub fn new(rng: rand::rngs::ThreadRng) -> (r: GroupOpsSimulation)
        ensures
            r.wf(),
            r@ == Seq::<ItemDesc>::empty(),
    {
        let r = GroupOpsSimulation { items: Vec::new(), rng };
        proof {
            assert(r@ =~= Seq::<ItemDesc>::empty());
        }
        r
    }

    /// The accumulated items, in insertion order.
    pub fn items(&self) -> (r: &Vec<WorkloadItem>)
        ensures
            r@.len() == self@.len(),
            forall|i: int| 0 <= i < r@.len() ==> (#[trigger] r@[i]).desc() == self@[i],
    {
        &self.items
    }

    /// Runs every accumulated item's `simulate`, first to last, back to back.
    /// Timing the run is the caller's business.
    pub fn simulate(&self)
        requires
            self.wf(),
    {
        let mut i: usize = 0;
        while i < self.items.len()
            invariant
                self.wf(),
                i <= self.items@.len(),
            decreases self.items@.len() - i,
        {
            self.items[i].simulate();
            i += 1;
        }
    }

    /// Appends a batch of `num` independent G1 exponentiations, sampling its
    /// operands from the builder's random source.
    pub fn g1_exps(&mut self, num: usize)
        requires
            old(self).wf(),
        ensures
            final(self).wf(),
            final(self)@ == old(self)@.push((ItemDesc::G1Exps { count: num as int })),
    {
        let item = WorkloadItem::new_g1_exps(&mut self.rng, num);
        self.push_item(item);
    }

    /// Appends a batch of `num` independent G2 exponentiations.
    pub fn g2_exps(&mut self, num: usize)
        requires
            old(self).wf(),
        ensures
            final(self).wf(),
            final(self)@ == old(self)@.push((ItemDesc::G2Exps { count: num as int })),
    {
        let item = WorkloadItem::new_g2_exps(&mut self.rng, num);
        self.push_item(item);
    }

    /// Appends `num` G1 multi-exponentiations over one fixed batch of `size`
    /// operand pairs.
    pub fn g1_multi_exps(&mut self, num: usize, size: usize)
        requires
            old(self).wf(),
        ensures
            final(self).wf(),
            final(self)@ == old(self)@.push((ItemDesc::G1MultiExps { num: num as int, size: size as int })),
    {
        let item = WorkloadItem::new_g1_multi_exps(&mut self.rng, num, size);
        self.push_item(item);
    }

    /// Appends `num` G2 multi-exponentiations over one fixed batch of `size`
    /// operand pairs.
    pub fn g2_multi_exps(&mut self, num: usize, size: usize)
        requires
            old(self).wf(),
        ensures
            final(self).wf(),
            final(self)@ == old(self)@.push((ItemDesc::G2MultiExps { num: num as int, size: size as int })),
    {
        let item = WorkloadItem::new_g2_multi_exps(&mut self.rng, num, size);
        self.push_item(item);
    }

    /// Appends a batch of `num` independent pairings.
    pub fn pairings(&mut self, num: usize)
        requires
            old(self).wf(),
        ensures
            final(self).wf(),
            final(self)@ == old(self)@.push((ItemDesc::Pairings { count: num as int })),
    {
        let item = WorkloadItem::new_pairings(&mut self.rng, num);
        self.push_item(item);
    }

    /// Appends `num` multi-pairings over one fixed set of `size` pairs.
    pub fn multi_pairings(&mut self, num: usize, size: usize)
        requires
            old(self).wf(),
        ensures
            final(self).wf(),
            final(self)@ == old(self)@.push((ItemDesc::MultiPairings { num: num as int, size: size as int })),
    {
        let item = WorkloadItem::new_multi_pairings(&mut self.rng, num, size);
        self.push_item(item);
    }

    /// Appends one already-built item.
    fn push_item(&mut self, item: WorkloadItem)
        requires
            old(self).wf(),
            item.wf(),
        ensures
            final(self).wf(),
            final(self)@ == old(self)@.push(item.desc()),
    {
        self.items.push(item);
        proof {
            assert(self@ =~= old(self)@.push(item.desc()));
            assert forall|i: int|
                0 <= i < self.items@.len() implies (#[trigger] self.items@[i]).wf() by {
                if i < old(self).items@.len() {
                    assert(old(self).items@[i].wf());
                }
            }
        }
    }

    /// Appends one party's whole schedule: its G1 exponentiations, each of
    /// its G1 multi-exponentiation batches in order, its G2 exponentiations,
    /// each G2 multi-exponentiation batch, its pairings, and each
    /// multi-pairing batch, exactly as [`workload_of`] lays them out.
    pub fn add_schedule(&mut self, s: &Schedule)
        requires
            old(self).wf(),
        ensures
            final(self).wf(),
            final(self)@ == old(self)@ + workload_of(s@),
    {
        let ghost pre = self@;
        self.g1_exps(s.g1_exps);
        let ghost base1 = pre + seq![ItemDesc::G1Exps { count: s.g1_exps as int }];
        proof {
            assert(self@ =~= base1);
        }
        let mut i: usize = 0;
        while i < s.g1_multi_exps.len()
            invariant
                self.wf(),
                i <= s.g1_multi_exps@.len(),
                self@ == base1 + g1_mexp_descs(batches_model(s.g1_multi_exps@).take(i as int)),
            decreases s.g1_multi_exps@.len() - i,
        {
            let e = s.g1_multi_exps[i];
            self.g1_multi_exps(e.0, e.1);
            proof {
                assert(batches_model(s.g1_multi_exps@).take(i + 1) =~= batches_model(
                    s.g1_multi_exps@,
                ).take(i as int).push((e.0 as int, e.1 as int)));
                assert(self@ =~= base1 + g1_mexp_descs(
                    batches_model(s.g1_multi_exps@).take(i + 1),
                ));
            }
            i += 1;
        }
        let ghost base2 = base1 + g1_mexp_descs(batches_model(s.g1_multi_exps@));
        proof {
            assert(batches_model(s.g1_multi_exps@).take(s.g1_multi_exps@.len() as int)
                =~= batches_model(s.g1_multi_exps@));
            assert(self@ =~= base2);
        }
        self.g2_exps(s.g2_exps);
        let ghost base3 = base2 + seq![ItemDesc::G2Exps { count: s.g2_exps as int }];
        proof {
            assert(self@ =~= base3);
        }
        let mut j: usize = 0;
        while j < s.g2_multi_exps.len()
            invariant
                self.wf(),
                j <= s.g2_multi_exps@.len(),
                self@ == base3 + g2_mexp_descs(batches_model(s.g2_multi_exps@).take(j as int)),
            decreases s.g2_multi_exps@.len() - j,
        {
            let e = s.g2_multi_exps[j];
            self.g2_multi_exps(e.0, e.1);
            proof {
                assert(batches_model(s.g2_multi_exps@).take(j + 1) =~= batches_model(
                    s.g2_multi_exps@,
                ).take(j as int).push((e.0 as int, e.1 as int)));
                assert(self@ =~= base3 + g2_mexp_descs(
                    batches_model(s.g2_multi_exps@).take(j + 1),
                ));
            }
            j += 1;
        }
        let ghost base4 = base3 + g2_mexp_descs(batches_model(s.g2_multi_exps@));
        proof {
            assert(batches_model(s.g2_multi_exps@).take(s.g2_multi_exps@.len() as int)
                =~= batches_model(s.g2_multi_exps@));
            assert(self@ =~= base4);
        }
        self.pairings(s.pairings);
        let ghost base5 = base4 + seq![ItemDesc::Pairings { count: s.pairings as int }];
        proof {
            assert(self@ =~= base5);
        }
        let mut p: usize = 0;
        while p < s.multi_pairings.len()
            invariant
                self.wf(),
                p <= s.multi_pairings@.len(),
                self@ == base5 + multi_pairing_descs(batches_model(s.multi_pairings@).take(p as int)),
            decreases s.multi_pairings@.len() - p,
        {
            let e = s.multi_pairings[p];
            self.multi_pairings(e.0, e.1);
            proof {
                assert(batches_model(s.multi_pairings@).take(p + 1) =~= batches_model(
                    s.multi_pairings@,
                ).take(p as int).push((e.0 as int, e.1 as int)));
                assert(self@ =~= base5 + multi_pairing_descs(
                    batches_model(s.multi_pairings@).take(p + 1),
                ));
            }
            p += 1;
        }
        proof {
            assert(batches_model(s.multi_pairings@).take(s.multi_pairings@.len() as int)
                =~= batches_model(s.multi_pairings@));
            assert(self@ =~= pre + workload_of(s@));
        }
    }
}

/// The shape of a built workload depends on the schedule alone, never on the
/// random source: any two builders whose items both describe the same
/// schedule's workload carry identical descriptors, whatever values their
/// sources sampled.
pub proof fn lemma_workload_shape_deterministic(
    a: Seq<ItemDesc>,
    b: Seq<ItemDesc>,
    m: ScheduleModel,
)
    requires
        a == workload_of(m),
        b == workload_of(m),
    ensures
        a == b,
{
}

} // verus!
