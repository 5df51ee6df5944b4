use swpt_core::grid::{
    recommended_lambda_count, EddyCounts, DEFAULT_AXIS_SAMPLES, DEFAULT_N_LAMBDA, DEFAULT_TURNS,
    MAX_RECOMMENDED_N_LAMBDA, MIN_RECOMMENDED_N_LAMBDA,
};

fn counts(turns: usize, n_rho: usize, n_z: usize, auto: bool, n_lambda: usize) -> EddyCounts {
    EddyCounts {
        turns,
        n_rho,
        n_z,
        auto_lambda_grid: auto,
        n_lambda,
        recommended_n_lambda: 0,
    }
}

#[test]
fn default_counts_match_documented_values() {
    let c = EddyCounts::default();
    assert_eq!(c.turns, 14);
    assert_eq!(c.n_rho, 64);
    assert_eq!(c.n_z, 64);
    assert!(c.auto_lambda_grid);
    assert_eq!(c.n_lambda, 640);
    assert_eq!(c.recommended_n_lambda, 640);
    assert_eq!((DEFAULT_TURNS, DEFAULT_AXIS_SAMPLES, DEFAULT_N_LAMBDA), (14, 64, 640));
}

#[test]
fn default_case_uses_640_lambda_samples() {
    // Kernel half-oscillations of the default geometry: lambda_max = 1000 and
    // (seawater radius + mean coil radius) = 0.35 + (0.2 - 0.011 * 13 / 2).
    let mean_radius: f64 = 0.2 - 0.011 * 13.0 / 2.0;
    let periods = (1000.0 * (0.35 + mean_radius) * 1.1 / std::f64::consts::PI).ceil() as usize;
    assert_eq!(periods, 168);
    let c = EddyCounts::default().normalized(periods);
    assert_eq!(c.n_lambda, 640);
    assert_eq!(c.recommended_n_lambda, 640);
}

#[test]
fn recommended_count_exact_values() {
    assert_eq!(recommended_lambda_count(0), 640);
    assert_eq!(recommended_lambda_count(638), 640);
    assert_eq!(recommended_lambda_count(639), 640);
    assert_eq!(recommended_lambda_count(640), 641);
    assert_eq!(recommended_lambda_count(2500), 2501);
    assert_eq!(recommended_lambda_count(5999), 6000);
    assert_eq!(recommended_lambda_count(6000), 6000);
    assert_eq!(recommended_lambda_count(usize::MAX), 6000);
}

#[test]
fn recommended_count_is_monotone_on_samples() {
    let mut previous = recommended_lambda_count(0);
    for p in (0..8000).step_by(7) {
        let r = recommended_lambda_count(p);
        assert!(r >= previous);
        assert!(MIN_RECOMMENDED_N_LAMBDA <= r && r <= MAX_RECOMMENDED_N_LAMBDA);
        previous = r;
    }
}

#[test]
fn clamped_forces_counts_into_ranges() {
    let low = counts(0, 0, 3, false, 1).clamped();
    assert_eq!(low, EddyCounts {
        turns: 1,
        n_rho: 8,
        n_z: 8,
        auto_lambda_grid: false,
        n_lambda: 40,
        recommended_n_lambda: 640,
    });
    let high = counts(1000, 301, 5000, true, 100_000).clamped();
    assert_eq!(high, EddyCounts {
        turns: 200,
        n_rho: 300,
        n_z: 300,
        auto_lambda_grid: true,
        n_lambda: 6000,
        recommended_n_lambda: 640,
    });
    let inside = counts(7, 100, 250, false, 1234).clamped();
    assert_eq!((inside.turns, inside.n_rho, inside.n_z, inside.n_lambda), (7, 100, 250, 1234));
}

#[test]
fn automatic_grid_adopts_recommendation() {
    let c = counts(14, 64, 64, true, 50).normalized(1999);
    assert_eq!(c.recommended_n_lambda, 2000);
    assert_eq!(c.n_lambda, 2000);
}

#[test]
fn manual_grid_keeps_clamped_count() {
    let c = counts(14, 64, 64, false, 50).normalized(1999);
    assert_eq!(c.recommended_n_lambda, 2000);
    assert_eq!(c.n_lambda, 50);
    let c = counts(14, 64, 64, false, 7).normalized(1999);
    assert_eq!(c.n_lambda, 40);
}

#[test]
fn with_recommendation_changes_only_the_lambda_counts() {
    let base = counts(3, 20, 30, false, 700);
    let r = base.with_recommendation(900);
    assert_eq!(r, EddyCounts { recommended_n_lambda: 900, ..base });
    let auto = EddyCounts { auto_lambda_grid: true, ..base };
    let r = auto.with_recommendation(900);
    assert_eq!(r, EddyCounts { n_lambda: 900, recommended_n_lambda: 900, ..auto });
}

#[test]
fn normalization_is_idempotent_on_samples() {
    for &(t, r, z, a, l, p) in &[
        (0usize, 0usize, 0usize, true, 0usize, 0usize),
        (500, 5, 400, false, 9000, 7000),
        (14, 64, 64, true, 640, 168),
        (3, 299, 9, false, 41, 3000),
    ] {
        let once = counts(t, r, z, a, l).normalized(p);
        let twice = once.normalized(p);
        assert_eq!(once, twice);
        assert!(1 <= once.turns && once.turns <= 200);
        assert!(8 <= once.n_rho && once.n_rho <= 300);
        assert!(8 <= once.n_z && once.n_z <= 300);
        assert!(40 <= once.n_lambda && once.n_lambda <= 6000);
    }
}
