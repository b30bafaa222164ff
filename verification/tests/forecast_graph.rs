use notify_scheduler::forecast::{split_highs_lows, temperature_axis, AXIS_MARGIN};

#[test]
fn run_that_begins_with_a_high_alternates_high_low() {
    let temps = vec![70, 50, 72, 51, 68, 49, 75];
    assert_eq!(split_highs_lows(&temps, false), (vec![70, 72, 68, 75], vec![50, 51, 49]));
}

#[test]
fn run_that_begins_with_a_low_alternates_low_high() {
    let temps = vec![50, 70, 51, 72, 49, 68];
    assert_eq!(split_highs_lows(&temps, true), (vec![70, 72, 68], vec![50, 51, 49]));
}

#[test]
fn short_runs_split_too() {
    assert_eq!(split_highs_lows(&vec![], false), (vec![], vec![]));
    assert_eq!(split_highs_lows(&vec![], true), (vec![], vec![]));
    assert_eq!(split_highs_lows(&vec![61], false), (vec![61], vec![]));
    assert_eq!(split_highs_lows(&vec![61], true), (vec![], vec![61]));
    assert_eq!(split_highs_lows(&vec![61, 40], false), (vec![61], vec![40]));
    assert_eq!(split_highs_lows(&vec![40, 61], true), (vec![61], vec![40]));
}

#[test]
fn split_agrees_with_stepping_through_the_run() {
    let temps: Vec<i32> = (0..25).map(|i| (i * 7) % 31 - 5).collect();
    for len in 0..temps.len() {
        let run = temps[..len].to_vec();
        let even: Vec<i32> = run.iter().step_by(2).copied().collect();
        let odd: Vec<i32> = run.iter().skip(1).step_by(2).copied().collect();
        assert_eq!(split_highs_lows(&run, false), (even.clone(), odd.clone()));
        assert_eq!(split_highs_lows(&run, true), (odd, even));
    }
}

#[test]
fn axis_leaves_the_margin_below_and_above() {
    assert_eq!(AXIS_MARGIN, 10);
    assert_eq!(temperature_axis(&vec![70, 50, 72, 51]), Some((40, 82)));
    assert_eq!(temperature_axis(&vec![-3]), Some((-13, 7)));
    assert_eq!(temperature_axis(&vec![5, 5, 5]), Some((-5, 15)));
}

#[test]
fn no_temperatures_no_axis() {
    assert_eq!(temperature_axis(&vec![]), None);
}

#[test]
fn axis_that_would_leave_the_numbers_is_none() {
    assert_eq!(temperature_axis(&vec![0, i32::MAX]), None);
    assert_eq!(temperature_axis(&vec![i32::MIN + 9, 0]), None);
    assert_eq!(temperature_axis(&vec![i32::MIN + 10, i32::MAX - 10]), Some((i32::MIN, i32::MAX)));
}
