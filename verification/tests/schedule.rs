use groth16_sim::schedule::groth16_schedule;

#[test]
fn schedule_totals_are_deterministic() {
    let (p1, v1) = groth16_schedule(1000, 16, 666, 50);
    let (p2, v2) = groth16_schedule(1000, 16, 666, 50);
    assert_eq!(p1.g1_exps, p2.g1_exps);
    assert_eq!(p1.g1_multi_exps, p2.g1_multi_exps);
    assert_eq!(p1.g2_exps, p2.g2_exps);
    assert_eq!(p1.g2_multi_exps, p2.g2_multi_exps);
    assert_eq!(p1.pairings, p2.pairings);
    assert_eq!(p1.multi_pairings, p2.multi_pairings);
    assert_eq!(v1.g1_exps, v2.g1_exps);
    assert_eq!(v1.g1_multi_exps, v2.g1_multi_exps);
    assert_eq!(v1.g2_exps, v2.g2_exps);
    assert_eq!(v1.g2_multi_exps, v2.g2_multi_exps);
    assert_eq!(v1.pairings, v2.pairings);
    assert_eq!(v1.multi_pairings, v2.multi_pairings);
}

#[test]
fn boundary_values() {
    let (p, v) = groth16_schedule(0, 0, 0, 0);
    assert_eq!(p.g1_exps, 2);
    assert_eq!(p.g2_exps, 1);
    assert_eq!(p.g1_multi_exps, vec![(2, 0), (1, 2)]);
    assert_eq!(p.g2_multi_exps, vec![]);
    assert_eq!(p.pairings, 0);
    assert_eq!(p.multi_pairings, vec![]);
    assert_eq!(v.g1_exps, 2);
    assert_eq!(v.multi_pairings, vec![(1, 3)]);
}

#[test]
fn concrete_case() {
    let (p, v) = groth16_schedule(1000, 16, 666, 50);
    assert_eq!(p.g1_exps, 1084);
    assert_eq!(p.g1_multi_exps, vec![(2, 1000), (17067, 2)]);
    assert_eq!(p.g2_exps, 667);
    assert_eq!(v.g1_multi_exps[2], (1000, 17));
    assert_eq!(v.multi_pairings, vec![(1, 3)]);
}

#[test]
fn verifier_counts_follow_the_model() {
    let (_, v) = groth16_schedule(7, 3, 9, 2);
    assert_eq!(v.g1_exps, 9);
    assert_eq!(
        v.g1_multi_exps,
        vec![(1, 2), (2, 8), (7, 4), (1, 3), (1, 3 * 7 * 2 + 2 + 1), (1, 9), (2, 3)]
    );
    assert_eq!(v.g2_exps, 1);
    assert_eq!(v.g2_multi_exps, vec![(1, 10), (1, 3)]);
    assert_eq!(v.pairings, 0);
    assert_eq!(v.multi_pairings, vec![(1, 3)]);
}
