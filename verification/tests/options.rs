use swpt_core::options::{SolverOptions, DEFAULT_SAMPLE_COUNT, MAX_SAMPLE_COUNT, MIN_SAMPLE_COUNT};

#[test]
fn default_options_sample_241_points() {
    assert_eq!(SolverOptions::default().sample_count, 241);
    assert_eq!(DEFAULT_SAMPLE_COUNT, 241);
    assert_eq!(SolverOptions::default().normalized(), SolverOptions::default());
}

#[test]
fn sample_count_is_clamped() {
    assert_eq!(SolverOptions { sample_count: 0 }.normalized().sample_count, 91);
    assert_eq!(SolverOptions { sample_count: 90 }.normalized().sample_count, 91);
    assert_eq!(SolverOptions { sample_count: 91 }.normalized().sample_count, 91);
    assert_eq!(SolverOptions { sample_count: 500 }.normalized().sample_count, 500);
    assert_eq!(SolverOptions { sample_count: 721 }.normalized().sample_count, 721);
    assert_eq!(SolverOptions { sample_count: 722 }.normalized().sample_count, 721);
    assert_eq!(SolverOptions { sample_count: usize::MAX }.normalized().sample_count, 721);
    assert_eq!((MIN_SAMPLE_COUNT, MAX_SAMPLE_COUNT), (91, 721));
}

#[test]
fn options_normalization_is_idempotent() {
    for n in [0usize, 1, 90, 91, 92, 241, 720, 721, 722, 100_000] {
        let once = SolverOptions { sample_count: n }.normalized();
        assert_eq!(once.normalized(), once);
    }
}
