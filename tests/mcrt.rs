use std::cmp::Ordering;

use mcrt::config::{default_progress_interval, validate, ConfigError, RunConfig};
use mcrt::run::{Run, N_BINS};
use mcrt::transport::{bin_index, classify_move, scatters, MoveOutcome};
use rand::rngs::StdRng;
use rand::{Rng, SeedableRng};

fn classify(z: f64) -> MoveOutcome {
    classify_move(z.partial_cmp(&0.0), z.partial_cmp(&1.0))
}

fn config(n_photons: i32, progress: i32) -> RunConfig {
    validate(n_photons, progress, 1.0f64.partial_cmp(&0.0), 1.0f64.partial_cmp(&1.0)).unwrap()
}

fn seeded_escapes(seed: u64, n: usize) -> Vec<i32> {
    let mut rng = StdRng::seed_from_u64(seed);
    let mut out = Vec::new();
    for _ in 0..n {
        let cos_theta = f64::sqrt(rng.gen_range(0.0, 1.0));
        out.push((cos_theta * N_BINS as f64) as i32);
    }
    out
}

fn run_all(n_photons: i32, progress: i32, escapes: &[i32]) -> (Run, Vec<u32>) {
    let mut run = Run::new(config(n_photons, progress));
    let mut notices = Vec::new();
    for &s in escapes {
        if run.record_escape(s) {
            notices.push(run.done());
        }
    }
    (run, notices)
}

#[test]
fn validate_accepts_a_usual_run() {
    let c = config(100000, 10000);
    assert_eq!(c.n_photons, 100000);
    assert_eq!(c.progress_interval, 10000);
}

#[test]
fn validate_rejects_each_bad_parameter() {
    let one = Some(Ordering::Equal);
    assert_eq!(validate(0, 1, one, one), Err(ConfigError::NoPhotons));
    assert_eq!(validate(-5, 0, one, one), Err(ConfigError::NoPhotons));
    assert_eq!(validate(10, 0, one, one), Err(ConfigError::ZeroProgressInterval));
    let a = 1.5f64;
    assert_eq!(validate(10, 1, a.partial_cmp(&0.0), a.partial_cmp(&1.0)), Err(ConfigError::AlbedoOutOfRange));
    let a = -0.1f64;
    assert_eq!(validate(10, 1, a.partial_cmp(&0.0), a.partial_cmp(&1.0)), Err(ConfigError::AlbedoOutOfRange));
    let a = f64::NAN;
    assert_eq!(validate(10, 1, a.partial_cmp(&0.0), a.partial_cmp(&1.0)), Err(ConfigError::AlbedoOutOfRange));
    let a = 0.0f64;
    assert!(validate(10, 1, a.partial_cmp(&0.0), a.partial_cmp(&1.0)).is_ok());
}

#[test]
fn progress_interval_is_a_tenth() {
    assert_eq!(default_progress_interval(100000), 10000);
    assert_eq!(default_progress_interval(1000), 100);
    assert_eq!(default_progress_interval(9), 0);
    assert_eq!(default_progress_interval(-25), -2);
}

#[test]
fn boundaries_are_strict() {
    assert_eq!(classify(1.0), MoveOutcome::Interact);
    assert_eq!(classify(0.0), MoveOutcome::Interact);
    assert_eq!(classify(0.5), MoveOutcome::Interact);
    assert_eq!(classify(-1e-12), MoveOutcome::ReEmit);
    assert_eq!(classify(1.0 + 1e-12), MoveOutcome::Escape);
    assert_eq!(classify(f64::NAN), MoveOutcome::Interact);
}

#[test]
fn scattering_below_albedo_only() {
    assert!(scatters(0.3f64.partial_cmp(&1.0)));
    assert!(!scatters(0.7f64.partial_cmp(&0.5)));
    assert!(!scatters(0.5f64.partial_cmp(&0.5)));
    assert!(!scatters(0.0f64.partial_cmp(&0.0)));
    assert!(!scatters(f64::NAN.partial_cmp(&0.5)));
}

#[test]
fn bin_index_edges() {
    assert_eq!(bin_index((0.999f64 * 45.0) as i32, 45), 44);
    assert_eq!(bin_index((0.0f64 * 45.0) as i32, 45), 0);
    assert_eq!(bin_index((0.5f64 * 45.0) as i32, 45), 22);
    assert_eq!(bin_index(-3, 45), 3);
    assert_eq!(bin_index(45, 45), 44);
    assert_eq!(bin_index(i32::MIN, 45), 44);
    assert_eq!(bin_index(i32::MAX, 45), 44);
}

#[test]
fn record_escape_fills_the_right_bin() {
    let mut run = Run::new(config(10, 3));
    assert_eq!(run.weights(), vec![0u64; N_BINS]);
    assert!(!run.record_escape(7));
    assert!(!run.record_escape(-7));
    assert!(run.record_escape(100));
    assert_eq!(run.weight(7), 2);
    assert_eq!(run.weight(44), 1);
    assert_eq!(run.weight(0), 0);
    assert_eq!(run.done(), 3);
    assert_eq!(run.n_photons(), 10);
    assert_eq!(run.progress_interval(), 3);
    assert!(!run.is_complete());
    assert_eq!(run.intensity_factor(7), (90, 20));
    assert_eq!(run.intensity_factor(0), (0, 20));
}

#[test]
fn weights_sum_to_photon_count() {
    let escapes = seeded_escapes(11, 500);
    let (run, _) = run_all(500, 50, &escapes);
    assert!(run.is_complete());
    assert_eq!(run.weights().iter().sum::<u64>(), 500);
}

#[test]
fn progress_notifications_every_tenth() {
    let escapes = vec![3i32; 100000];
    let (run, notices) = run_all(100000, 10000, &escapes);
    assert!(run.is_complete());
    let expected: Vec<u32> = (1..=10).map(|k| k * 10000).collect();
    assert_eq!(notices, expected);
}

#[test]
fn same_seed_same_histogram() {
    let (a, na) = run_all(2000, 200, &seeded_escapes(42, 2000));
    let (b, nb) = run_all(2000, 200, &seeded_escapes(42, 2000));
    assert_eq!(a.weights(), b.weights());
    assert_eq!(na, nb);
}

#[test]
fn thousand_packet_run_end_to_end() {
    let escapes = seeded_escapes(7, 1000);
    let (run, notices) = run_all(1000, 100, &escapes);
    assert!(run.is_complete());
    let weights = run.weights();
    assert_eq!(weights.len(), 45);
    assert_eq!(weights.iter().sum::<u64>(), 1000);
    assert_eq!(notices.len(), 10);
    let d = 1.0 / N_BINS as f64;
    for i in 0..N_BINS {
        let angle = libm::acos(i as f64 * d + 0.5 * d);
        let (num, den) = run.intensity_factor(i);
        let intensity = num as f64 / (den as f64 * f64::cos(angle));
        if i + 1 < N_BINS {
            assert!(intensity.is_finite() && intensity >= 0.0);
        }
    }
}
