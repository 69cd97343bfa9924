use tmr_sim::model::{Outputs, Reliabilities, TRUE_VALUE};
use tmr_sim::rng::SimRng;
use tmr_sim::sampler::sample_module;
use tmr_sim::sim::run;
use tmr_sim::voting::{classic_voter, map_voter};

fn rel(r0: u16, r1: u16, r2: u16) -> Reliabilities {
    Reliabilities::new(r0, r1, r2).unwrap()
}

#[test]
fn draws_stay_below_their_bound() {
    let mut rng = SimRng::from_seed(99);
    for _ in 0..500 {
        assert!(rng.draw_below(10) < 10);
    }
    for _ in 0..50 {
        assert_eq!(rng.draw_below(1), 0);
    }
}

#[test]
fn sampler_error_branch_never_reports_the_true_value() {
    // reliability 0 forces the error branch on every call
    let mut rng = SimRng::from_seed(5);
    let mut seen = [false; 64];
    for _ in 0..5000 {
        let out = sample_module(&mut rng, 0);
        assert!(out < 64);
        assert_ne!(out, TRUE_VALUE);
        seen[out as usize] = true;
    }
    // and the error branch reaches every one of the 63 wrong values
    for v in 0..64u8 {
        assert_eq!(seen[v as usize], v != TRUE_VALUE);
    }
}

#[test]
fn sampler_perfect_reliability_always_reports_the_true_value() {
    let mut rng = SimRng::from_seed(5);
    for _ in 0..1000 {
        assert_eq!(sample_module(&mut rng, 1000), TRUE_VALUE);
    }
}

#[test]
fn sampler_correct_fraction_tracks_the_reliability() {
    let mut rng = SimRng::from_seed(42);
    let trials: u32 = 10000;
    let mut correct: u32 = 0;
    for _ in 0..trials {
        if sample_module(&mut rng, 700) == TRUE_VALUE {
            correct += 1;
        }
    }
    let fraction = correct as f64 / trials as f64;
    assert!((fraction - 0.7).abs() < 0.03);
}

#[test]
fn run_zero_trials_returns_zero_counts() {
    assert_eq!(run(0, 7, rel(900, 500, 200)), (0, 0));
    assert_eq!(run(0, 123456, rel(0, 0, 0)), (0, 0));
    assert_eq!(run(0, 0, rel(1000, 1000, 1000)), (0, 0));
}

#[test]
fn run_is_reproducible_for_a_fixed_seed() {
    let rs = rel(900, 500, 200);
    let first = run(1000, 7, rs);
    let second = run(1000, 7, rs);
    assert_eq!(first, second);
}

#[test]
fn run_counts_never_exceed_the_trial_count() {
    for seed in 0..10u64 {
        let (classic_ok, map_ok) = run(200, seed, rel(300, 800, 550));
        assert!(classic_ok <= 200);
        assert!(map_ok <= 200);
    }
}

#[test]
fn map_beats_classic_on_average() {
    // MAP voting exploits the reliabilities that classic voting discards,
    // so over many seeds its total success count comes out ahead
    let rs = rel(900, 500, 200);
    let mut classic_total: u64 = 0;
    let mut map_total: u64 = 0;
    for seed in 0..100u64 {
        let (classic_ok, map_ok) = run(1000, seed, rs);
        classic_total += classic_ok;
        map_total += map_ok;
    }
    assert!(map_total >= classic_total);
}

#[test]
fn perfect_first_module_makes_both_voters_succeed() {
    // module 0 always reports 27; whenever its output carries the
    // majority or the likelihood, both voters must return 27
    let (_, map_ok) = run(500, 3, rel(1000, 300, 800));
    assert_eq!(map_ok, 500);

    let mut rng = SimRng::from_seed(8);
    for &(m1, m2) in [(27u8, 4u8), (4, 27), (4, 4), (3, 5)].iter() {
        let o = Outputs {
            m0: TRUE_VALUE,
            m1,
            m2,
        };
        assert_eq!(map_voter(o, rel(1000, 300, 800)), TRUE_VALUE);
        if m1 == TRUE_VALUE || m2 == TRUE_VALUE {
            assert_eq!(classic_voter(&mut rng, o), TRUE_VALUE);
        }
    }
}
