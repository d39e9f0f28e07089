use ceangal::tween::{plays_reversed, stagger_half_steps};

#[test]
fn stagger_of_a_single_item_is_zero() {
    assert_eq!(stagger_half_steps(0, 0), 0);
    assert_eq!(stagger_half_steps(0, 1), 0);
    assert_eq!(stagger_half_steps(5, 1), 0);
}

#[test]
fn stagger_grows_from_the_centre() {
    // Five items: centre 2, distances 2, 1, 0, 1, 2 in whole steps.
    let halves: Vec<u128> = (0..5).map(|i| stagger_half_steps(i, 5)).collect();
    assert_eq!(halves, vec![4, 2, 0, 2, 4]);
    // Four items: centre 1.5, distances 1.5, 0.5, 0.5, 1.5.
    let halves: Vec<u128> = (0..4).map(|i| stagger_half_steps(i, 4)).collect();
    assert_eq!(halves, vec![3, 1, 1, 3]);
}

#[test]
fn stagger_is_symmetric() {
    for total in 1..20usize {
        for i in 0..total {
            assert_eq!(stagger_half_steps(i, total), stagger_half_steps(total - 1 - i, total));
        }
    }
}

#[test]
fn stagger_past_the_end_and_at_the_limit() {
    assert_eq!(stagger_half_steps(10, 3), 18);
    assert_eq!(stagger_half_steps(usize::MAX, 2), 2 * (usize::MAX as u128) - 1);
    assert_eq!(stagger_half_steps(0, usize::MAX), (usize::MAX - 1) as u128);
}

#[test]
fn stagger_times_half_step_matches_the_float_formula() {
    let step = 40.0f64;
    for total in 0..12usize {
        for i in 0..12usize {
            let expected = if total <= 1 {
                0.0
            } else {
                let center = (total - 1) as f64 / 2.0;
                (i as f64 - center).abs() * step
            };
            let got = stagger_half_steps(i, total) as f64 / 2.0 * step;
            assert_eq!(got, expected);
        }
    }
}

#[test]
fn alternating_tween_reverses_on_odd_loops() {
    assert!(!plays_reversed(true, 0));
    assert!(plays_reversed(true, 1));
    assert!(!plays_reversed(true, 2));
    assert!(plays_reversed(true, 3));
}

#[test]
fn non_alternating_tween_never_reverses() {
    for n in 0..6 {
        assert!(!plays_reversed(false, n));
    }
}

#[test]
fn negative_loop_counts_run_forwards() {
    assert!(!plays_reversed(true, -1));
    assert!(!plays_reversed(true, -2));
    assert!(!plays_reversed(true, i32::MIN));
    assert!(plays_reversed(true, i32::MAX));
}
