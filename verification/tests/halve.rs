use bit_tricks::div_vs_shift::{a_halve_div, b_halve_shr, run_halve_div, run_halve_shr};
use bit_tricks::inputs::integers;

#[test]
fn half_of_ten_is_five() {
    assert_eq!(a_halve_div(10), 5);
    assert_eq!(b_halve_shr(10), 5);
}

#[test]
fn half_of_five_is_two() {
    assert_eq!(a_halve_div(5), 2);
    assert_eq!(b_halve_shr(5), 2);
}

#[test]
fn half_of_zero_and_one_is_zero() {
    assert_eq!(a_halve_div(0), 0);
    assert_eq!(b_halve_shr(0), 0);
    assert_eq!(a_halve_div(1), 0);
    assert_eq!(b_halve_shr(1), 0);
}

#[test]
fn half_of_the_largest_value() {
    assert_eq!(a_halve_div(u64::MAX), 0x7fff_ffff_ffff_ffff);
    assert_eq!(b_halve_shr(u64::MAX), 0x7fff_ffff_ffff_ffff);
}

#[test]
fn halve_candidates_agree_below_a_million() {
    let mut x: u64 = 0;
    while x < 1_000_000 {
        assert_eq!(a_halve_div(x), b_halve_shr(x));
        x += 1;
    }
}

#[test]
fn halve_candidates_agree_on_large_values() {
    let samples: Vec<u64> = vec![
        1 << 32,
        (1 << 32) + 1,
        (1 << 63) - 1,
        1 << 63,
        0xdead_beef_0bad_f00d,
        u64::MAX - 1,
    ];
    for x in samples {
        assert_eq!(a_halve_div(x), b_halve_shr(x));
    }
}

#[test]
fn halve_passes_accept_the_fixed_inputs() {
    let inputs: Vec<u64> = integers();
    run_halve_div(&inputs);
    run_halve_shr(&inputs);
}

#[test]
fn halve_passes_accept_no_inputs() {
    let inputs: Vec<u64> = Vec::new();
    run_halve_div(&inputs);
    run_halve_shr(&inputs);
}
