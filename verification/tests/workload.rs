use blstrs::{G1Projective, G2Projective, Scalar};
use group::ff::Field;
use group::{Curve, Group};
use rand::thread_rng;

use groth16_sim::curve::multi_pairing;
use groth16_sim::schedule::groth16_schedule;
use groth16_sim::workload::{GroupOpsSimulation, WorkloadItem};

fn shape(item: &WorkloadItem) -> (u32, usize, usize) {
    match item {
        WorkloadItem::G1Exps { bases, scalars } => {
            assert_eq!(bases.len(), scalars.len());
            (0, 1, bases.len())
        }
        WorkloadItem::G2Exps { bases, scalars } => {
            assert_eq!(bases.len(), scalars.len());
            (1, 1, bases.len())
        }
        WorkloadItem::G1MultiExps { num, bases, scalars } => {
            assert_eq!(bases.len(), scalars.len());
            (2, *num, bases.len())
        }
        WorkloadItem::G2MultiExps { num, bases, scalars } => {
            assert_eq!(bases.len(), scalars.len());
            (3, *num, bases.len())
        }
        WorkloadItem::Pairings { args_g1, args_g2 } => {
            assert_eq!(args_g1.len(), args_g2.len());
            (4, 1, args_g1.len())
        }
        WorkloadItem::MultiPairings { num, args_g1, args_g2 } => {
            assert_eq!(args_g1.len(), args_g2.len());
            (5, *num, args_g1.len())
        }
    }
}

#[test]
fn execution_order_follows_insertion() {
    let mut sim = GroupOpsSimulation::new(thread_rng());
    sim.g1_exps(2);
    sim.pairings(1);
    sim.g2_multi_exps(3, 4);
    let items = sim.items();
    assert_eq!(items.len(), 3);
    assert!(matches!(items[0], WorkloadItem::G1Exps { .. }));
    assert!(matches!(items[1], WorkloadItem::Pairings { .. }));
    assert!(matches!(items[2], WorkloadItem::G2MultiExps { .. }));
    assert_eq!(shape(&items[0]), (0, 1, 2));
    assert_eq!(shape(&items[1]), (4, 1, 1));
    assert_eq!(shape(&items[2]), (3, 3, 4));
}

#[test]
fn workload_shape_independent_of_random_source() {
    let (p, v) = groth16_schedule(3, 2, 5, 1);
    let mut a = GroupOpsSimulation::new(thread_rng());
    a.add_schedule(&p);
    a.add_schedule(&v);
    let mut b = GroupOpsSimulation::new(thread_rng());
    b.add_schedule(&p);
    b.add_schedule(&v);
    let items_a = a.items();
    let items_b = b.items();
    assert_eq!(items_a.len(), 18);
    assert_eq!(items_a.len(), items_b.len());
    for i in 0..items_a.len() {
        assert_eq!(shape(&items_a[i]), shape(&items_b[i]));
    }
}

#[test]
fn builder_follows_schedule_order() {
    let (p, _) = groth16_schedule(3, 2, 5, 1);
    let mut sim = GroupOpsSimulation::new(thread_rng());
    sim.add_schedule(&p);
    let items = sim.items();
    // G1 exps, the two G1 multi-exp batches, G2 exps, then nothing else.
    assert_eq!(items.len(), 5);
    assert_eq!(shape(&items[0]), (0, 1, 10));
    assert_eq!(shape(&items[1]), (2, 2, 3));
    assert_eq!(shape(&items[2]), (2, 13, 2));
    assert_eq!(shape(&items[3]), (1, 1, 6));
    assert_eq!(shape(&items[4]), (4, 1, 0));
}

#[test]
fn multi_exp_matches_pairwise_sum_g1() {
    let mut rng = thread_rng();
    let bases: Vec<G1Projective> = (0..5usize).map(|_| G1Projective::random(&mut rng)).collect();
    let scalars: Vec<Scalar> = (0..5usize).map(|_| Scalar::random(&mut rng)).collect();
    let mut expected = G1Projective::identity();
    for i in 0..5usize {
        expected += bases[i] * scalars[i];
    }
    assert_eq!(G1Projective::multi_exp(&bases, &scalars), expected);
}

#[test]
fn multi_exp_matches_pairwise_sum_g2() {
    let mut rng = thread_rng();
    let bases: Vec<G2Projective> = (0..4usize).map(|_| G2Projective::random(&mut rng)).collect();
    let scalars: Vec<Scalar> = (0..4usize).map(|_| Scalar::random(&mut rng)).collect();
    let mut expected = G2Projective::identity();
    for i in 0..4usize {
        expected += bases[i] * scalars[i];
    }
    assert_eq!(G2Projective::multi_exp(&bases, &scalars), expected);
}

#[test]
fn multi_pairing_matches_pairing_product() {
    let mut rng = thread_rng();
    let g1s: Vec<G1Projective> = (0..4usize).map(|_| G1Projective::random(&mut rng)).collect();
    let g2s: Vec<G2Projective> = (0..4usize).map(|_| G2Projective::random(&mut rng)).collect();
    let combined = multi_pairing(&g1s, &g2s);
    let mut expected: Option<blstrs::Gt> = None;
    for i in 0..4usize {
        let one = blstrs::pairing(&g1s[i].to_affine(), &g2s[i].to_affine());
        expected = Some(match expected {
            None => one,
            Some(acc) => acc + one,
        });
    }
    assert_eq!(combined, expected.unwrap());
}

#[test]
fn zero_size_batches_run_as_no_ops() {
    let (p, v) = groth16_schedule(0, 0, 0, 0);
    let mut sim = GroupOpsSimulation::new(thread_rng());
    sim.add_schedule(&p);
    sim.add_schedule(&v);
    sim.simulate();
}

#[test]
fn small_workload_runs() {
    let mut sim = GroupOpsSimulation::new(thread_rng());
    sim.g1_exps(2);
    sim.g1_multi_exps(2, 3);
    sim.g2_exps(1);
    sim.g2_multi_exps(1, 2);
    sim.pairings(2);
    sim.multi_pairings(1, 2);
    sim.simulate();
}
