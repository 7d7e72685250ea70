use fuurin::cycle;

#[test]
fn wraps_backward_from_zero() {
    // selected=0, delta=-1, len=5 -> 4
    assert_eq!(cycle(0, -1, 5), 4);
}

#[test]
fn wraps_forward_from_last() {
    assert_eq!(cycle(4, 1, 5), 0);
}

#[test]
fn plain_step_forward() {
    assert_eq!(cycle(1, 1, 5), 2);
}

#[test]
fn large_negative_delta_wraps() {
    assert_eq!(cycle(2, -7, 5), 0);
    assert_eq!(cycle(0, -12, 5), 3);
}

#[test]
fn large_positive_delta_wraps() {
    assert_eq!(cycle(3, 12, 5), 0);
    assert_eq!(cycle(0, 1000, 7), 1000 % 7);
}

#[test]
fn composed_moves_equal_single_move() {
    // move(a); move(b) lands where move(a + b) does
    let cases: [(isize, isize); 6] = [(1, 1), (-1, -1), (3, 4), (-7, 2), (10, -23), (0, -5)];
    for (a, b) in cases {
        let two_steps = cycle(cycle(2, a, 5), b, 5);
        let one_step = cycle(2, a + b, 5);
        assert_eq!(two_steps, one_step);
    }
}

#[test]
fn single_slot_ring_is_fixed() {
    assert_eq!(cycle(0, 5, 1), 0);
    assert_eq!(cycle(0, -5, 1), 0);
}

#[test]
fn extreme_deltas_stay_in_range() {
    let r1 = cycle(3, isize::MAX, 7);
    assert!(r1 < 7);
    let r2 = cycle(3, isize::MIN, 7);
    assert!(r2 < 7);
    // and they still compose
    assert_eq!(cycle(cycle(3, isize::MIN, 7), 1, 7), cycle(3, isize::MIN + 1, 7));
}
