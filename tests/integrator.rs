use rusty::integrator::{remaining_depth, MAX_DEPTH};

#[test]
fn no_budget_at_depth_zero() {
    assert_eq!(remaining_depth(0), None);
}

#[test]
fn no_budget_at_negative_depth() {
    assert_eq!(remaining_depth(-3), None);
    assert_eq!(remaining_depth(i32::MIN), None);
}

#[test]
fn one_bounce_fewer() {
    assert_eq!(remaining_depth(1), Some(0));
    assert_eq!(remaining_depth(MAX_DEPTH), Some(99));
    assert_eq!(remaining_depth(i32::MAX), Some(i32::MAX - 1));
}

#[test]
fn budget_runs_out_after_max_depth_bounces() {
    let mut depth = MAX_DEPTH;
    let mut bounces = 0;
    while let Some(d) = remaining_depth(depth) {
        depth = d;
        bounces += 1;
    }
    assert_eq!(bounces, 100);
    assert_eq!(depth, 0);
}
