use daylight::{
    branch_count, int_sqrt, progress_percent, DCFactory, RayOutcome, SurfaceSide, TraceState,
    TraceStep,
};

fn hit(side: SurfaceSide) -> RayOutcome {
    RayOutcome::Hit { side, front_material: 4, back_material: 7 }
}

#[test]
fn factory_defaults() {
    let f = DCFactory::new(2, 577);
    assert_eq!(f.mf, 2);
    assert_eq!(f.n_bins, 577);
    assert_eq!(f.max_depth, 0);
    assert_eq!(f.n_shadow_samples, 900);
    assert_eq!(f.n_ambient_samples, 10);
    assert_eq!(f.limit_weight_nano, 10_000);
}

#[test]
fn matrix_configuration() {
    let f = DCFactory::for_matrix(1, 145);
    assert_eq!(f.mf, 1);
    assert_eq!(f.n_bins, 145);
    assert_eq!(f.max_depth, 3);
    assert_eq!(f.n_ambient_samples, 3000);
    assert_eq!(f.n_shadow_samples, 900);
    assert_eq!(f.limit_weight_nano, 10_000);
}

#[test]
fn int_sqrt_values() {
    let cases: [(u64, u64); 10] = [
        (0, 0),
        (1, 1),
        (2, 1),
        (3, 1),
        (4, 2),
        (15, 3),
        (16, 4),
        (17, 4),
        (9424, 97),
        (u64::MAX, 4_294_967_295),
    ];
    for (m, r) in cases {
        assert_eq!(int_sqrt(m), r, "int_sqrt({})", m);
    }
}

#[test]
fn branch_count_matches_rounded_square_root() {
    let n_ambient = 3000.0_f64;
    for wt in [0.0_f64, 1e-6, 0.01, 0.3, 1.0, 1.2, std::f64::consts::PI, 7.5] {
        let expected = (n_ambient * wt).sqrt().round().max(1.0) as u64;
        let quad = (4.0 * n_ambient * wt).floor() as u64;
        assert_eq!(branch_count(false, quad), expected, "weight {}", wt);
    }
}

#[test]
fn branch_count_edges() {
    assert_eq!(branch_count(false, 0), 1);
    assert_eq!(branch_count(false, 1), 1);
    // N = 10, wt = 1: sqrt(10) = 3.16 rounds to 3.
    assert_eq!(branch_count(false, 40), 3);
    // w = 6.25: sqrt is 2.5, which rounds up to 3.
    assert_eq!(branch_count(false, 25), 3);
    assert_eq!(branch_count(false, 24), 2);
    // 3000 * pi = 9424.78: sqrt is 97.08.
    assert_eq!(branch_count(false, 37699), 97);
    assert_eq!(branch_count(false, u64::MAX), 2_147_483_648);
    assert_eq!(branch_count(true, 9424), 0);
    assert_eq!(branch_count(true, 0), 0);
}

#[test]
fn escaped_ray_deposits_into_its_bin() {
    let f = DCFactory::new(1, 145);
    let s = f.first_bounce();
    assert_eq!(f.next_step(&s, &RayOutcome::Escaped { bin: 17 }), TraceStep::Deposit { bin: 17 });
    assert_ne!(f.next_step(&s, &RayOutcome::Escaped { bin: 17 }), TraceStep::Deposit { bin: 16 });
    assert_eq!(f.next_step(&s, &RayOutcome::Escaped { bin: 0 }), TraceStep::Deposit { bin: 0 });
    assert_eq!(f.next_step(&s, &RayOutcome::Escaped { bin: 144 }), TraceStep::Deposit { bin: 144 });
}

#[test]
fn hit_selects_material_by_side() {
    let f = DCFactory::new(1, 145);
    let s = f.first_bounce();
    assert_eq!(f.next_step(&s, &hit(SurfaceSide::Front)), TraceStep::Shade { material: 4 });
    assert_eq!(f.next_step(&s, &hit(SurfaceSide::Back)), TraceStep::Shade { material: 7 });
    assert_eq!(f.next_step(&s, &hit(SurfaceSide::NonApplicable)), TraceStep::Dropped);
}

#[test]
fn depth_cutoff_at_zero_budget() {
    let f = DCFactory::new(1, 145);
    let s = f.first_bounce();
    assert!(!f.is_truncated(&s));
    let c = f.child(&s, 5);
    assert!(f.is_truncated(&c));
    assert_eq!(f.next_step(&c, &hit(SurfaceSide::Front)), TraceStep::Truncated);
    assert_eq!(f.next_step(&c, &RayOutcome::Escaped { bin: 3 }), TraceStep::Truncated);
}

#[test]
fn depth_budget_of_three() {
    let f = DCFactory::for_matrix(1, 145);
    let mut s = f.first_bounce();
    for _ in 0..3 {
        s = f.child(&s, 2);
        assert!(!f.is_truncated(&s));
    }
    s = f.child(&s, 2);
    assert!(f.is_truncated(&s));
    assert_eq!(f.next_step(&s, &RayOutcome::Escaped { bin: 3 }), TraceStep::Truncated);
}

#[test]
fn denominator_grows_by_branch_count() {
    let f = DCFactory::for_matrix(1, 145);
    let s = f.first_bounce();
    assert_eq!(s, TraceState { depth: 0, denom: 3000 });
    let c = f.child(&s, 98);
    assert_eq!(c, TraceState { depth: 1, denom: 294_000 });
    let g = f.child(&c, 3);
    assert_eq!(g, TraceState { depth: 2, denom: 882_000 });
}

#[test]
fn roulette_decision() {
    let f = DCFactory::new(1, 145);
    assert!(f.continues_branch(false, false));
    assert!(f.continues_branch(false, true));
    assert!(f.continues_branch(true, true));
    assert!(!f.continues_branch(true, false));
    let off = DCFactory { limit_weight_nano: 0, ..DCFactory::new(1, 145) };
    assert!(off.roulette_enabled() == false);
    assert!(off.continues_branch(true, false));
}

#[test]
fn progress_rounds_to_nearest_percent() {
    assert_eq!(progress_percent(0, 10), 0);
    assert_eq!(progress_percent(1, 3), 33);
    assert_eq!(progress_percent(2, 3), 67);
    assert_eq!(progress_percent(1, 200), 1);
    assert_eq!(progress_percent(1, 201), 0);
    assert_eq!(progress_percent(3000, 3000), 100);
    assert_eq!(progress_percent(u64::MAX, u64::MAX), 100);
}
