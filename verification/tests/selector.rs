use wasm_filter::directive::Deployment;
use wasm_filter::lora::get_random_deployment;
use wasm_filter::selector::{
    choose_weighted, has_valid_weights, uniform_three_way, weighted_two_way, Probability, Selector,
    SelectorError, SELECTOR_SEED,
};
use wasm_filter::service::route_random;

const HALF: Probability = Probability { numerator: 1, denominator: 2 };

#[test]
fn seed_is_forty_two() {
    assert_eq!(SELECTOR_SEED, 42);
}

#[test]
fn fresh_selector_has_the_seeded_state() {
    let s = Selector::new();
    assert_eq!(s.state(), 16774380568097811214);
    assert_eq!(s.stream(), 6632114178214648949);
    assert_eq!(s, Selector::new());
}

#[test]
fn raw_draws_follow_the_generator() {
    let mut s = Selector::new();
    assert_eq!(s.next_u32(), 3400036912);
    assert_eq!(s.state(), 13624288143262448737);
    assert_eq!(s.stream(), 6632114178214648949);
    assert_eq!(s.next_u32(), 3349765444);
    assert_eq!(s.state(), 8881844666256176376);
    assert_eq!(s.next_u32(), 515166382);
    assert_eq!(s.state(), 567029818984599683);
    assert_eq!(s.next_u32(), 4224707908);
}

#[test]
fn uniform_three_way_golden_sequence() {
    let mut s = Selector::new();
    let first_three = [
        s.generate_weighted_random_value(),
        s.generate_weighted_random_value(),
        s.generate_weighted_random_value(),
    ];
    assert_eq!(first_three, [3, 3, 1]);
    let mut more = Vec::new();
    for _ in 0..9 {
        more.push(s.generate_weighted_random_value());
    }
    assert_eq!(more, vec![3, 2, 2, 3, 1, 3, 1, 1, 2]);
}

#[test]
fn golden_sequence_repeats_after_restart() {
    let mut a = Selector::new();
    let mut b = Selector::new();
    for _ in 0..1000 {
        assert_eq!(a.generate_weighted_random_value(), b.generate_weighted_random_value());
    }
    assert_eq!(a, b);
}

#[test]
fn selectors_do_not_share_state() {
    let mut a = Selector::new();
    let b = Selector::new();
    a.generate_weighted_random_value();
    assert_ne!(a, b);
    assert_eq!(b, Selector::new());
}

#[test]
fn random_deployment_golden_sequence() {
    let mut s = Selector::new();
    assert_eq!(get_random_deployment(&mut s), Deployment::Three);
    assert_eq!(get_random_deployment(&mut s), Deployment::Three);
    assert_eq!(get_random_deployment(&mut s), Deployment::One);
    assert_eq!(get_random_deployment(&mut s), Deployment::Three);
    assert_eq!(get_random_deployment(&mut s), Deployment::Two);
}

#[test]
fn weighted_two_way_golden_sequence() {
    let mut s = Selector::new();
    let mut bits = Vec::new();
    for _ in 0..12 {
        bits.push(s.generate_weighted_random_bit(HALF).unwrap());
    }
    assert_eq!(bits, vec![1, 1, 0, 1, 0, 1, 1, 0, 1, 0, 0, 1]);
}

#[test]
fn random_route_golden_sequence() {
    let mut s = Selector::new();
    assert_eq!(route_random(&mut s), Deployment::Two);
    assert_eq!(route_random(&mut s), Deployment::Two);
    assert_eq!(route_random(&mut s), Deployment::One);
}

#[test]
fn weighted_two_way_distribution_is_even() {
    let mut s = Selector::new();
    let n: u32 = 100_000;
    let mut first: u32 = 0;
    for _ in 0..n {
        if s.generate_weighted_random_bit(HALF).unwrap() == 0 {
            first += 1;
        }
    }
    assert_eq!(first, 49957);
    let fraction = first as f64 / n as f64;
    assert!((fraction - 0.5).abs() <= 0.01);
}

#[test]
fn uniform_three_way_distribution_is_even() {
    let mut s = Selector::new();
    let mut counts = [0u32; 3];
    for _ in 0..90_000 {
        let v = s.generate_weighted_random_value();
        assert!((1..=3).contains(&v));
        counts[(v - 1) as usize] += 1;
    }
    for c in counts {
        assert!((29_000..=31_000).contains(&c), "{:?}", counts);
    }
}

#[test]
fn uniform_three_way_thresholds() {
    assert_eq!(uniform_three_way(0), 1);
    assert_eq!(uniform_three_way(1431655764), 1);
    assert_eq!(uniform_three_way(1431655765), 2);
    assert_eq!(uniform_three_way(2863311529), 2);
    assert_eq!(uniform_three_way(2863311530), 3);
    assert_eq!(uniform_three_way(u32::MAX), 3);
}

#[test]
fn uniform_three_way_agrees_with_real_division() {
    let third = 1.0 / 3.0;
    let two_thirds = 2.0 / 3.0;
    for raw in [
        0u32, 1, 515166382, 1431655764, 1431655765, 1431655766, 2147483647, 2147483648,
        2863311529, 2863311530, 2863311531, 3400036912, u32::MAX - 1, u32::MAX,
    ] {
        let u = raw as f64 / u32::MAX as f64;
        let expected = if u < third {
            1
        } else if u < two_thirds {
            2
        } else {
            3
        };
        assert_eq!(uniform_three_way(raw), expected, "raw = {}", raw);
        let bit = if u < 0.5 { 0 } else { 1 };
        assert_eq!(weighted_two_way(raw, HALF), Ok(bit), "raw = {}", raw);
    }
}

#[test]
fn weighted_two_way_thresholds() {
    assert_eq!(weighted_two_way(0, HALF), Ok(0));
    assert_eq!(weighted_two_way(2147483647, HALF), Ok(0));
    assert_eq!(weighted_two_way(2147483648, HALF), Ok(1));
    assert_eq!(weighted_two_way(u32::MAX, HALF), Ok(1));
    let quarter = Probability { numerator: 1, denominator: 4 };
    assert_eq!(weighted_two_way(1073741823, quarter), Ok(0));
    assert_eq!(weighted_two_way(1073741824, quarter), Ok(1));
}

#[test]
fn weighted_two_way_certain_and_impossible() {
    let never = Probability { numerator: 0, denominator: 1 };
    let always = Probability { numerator: 7, denominator: 7 };
    assert_eq!(weighted_two_way(0, never), Ok(1));
    assert_eq!(weighted_two_way(u32::MAX, never), Ok(1));
    assert_eq!(weighted_two_way(0, always), Ok(0));
    assert_eq!(weighted_two_way(u32::MAX - 1, always), Ok(0));
    assert_eq!(weighted_two_way(u32::MAX, always), Ok(1));
}

#[test]
fn probability_outside_unit_interval_is_invalid() {
    let above = Probability { numerator: 3, denominator: 2 };
    let undefined = Probability { numerator: 0, denominator: 0 };
    assert!(!above.is_valid());
    assert!(!undefined.is_valid());
    assert!(HALF.is_valid());
    assert_eq!(weighted_two_way(5, above), Err(SelectorError::InvalidArgument));
    assert_eq!(weighted_two_way(5, undefined), Err(SelectorError::InvalidArgument));
}

#[test]
fn invalid_probability_draws_nothing() {
    let mut s = Selector::new();
    let above = Probability { numerator: 3, denominator: 2 };
    assert_eq!(s.generate_weighted_random_bit(above), Err(SelectorError::InvalidArgument));
    assert_eq!(s, Selector::new());
    assert_eq!(s.generate_weighted_random_value(), 3);
}

#[test]
fn every_draw_advances_the_state_once() {
    let mut a = Selector::new();
    let mut b = Selector::new();
    let mut c = Selector::new();
    a.next_u32();
    b.generate_weighted_random_value();
    c.generate_weighted_random_bit(HALF).unwrap();
    assert_eq!(a, b);
    assert_eq!(a, c);
    assert_ne!(a, Selector::new());
}

#[test]
fn choose_weighted_picks_by_share() {
    let weights = [('a', 1u32), ('b', 3u32)];
    assert_eq!(choose_weighted(0, &weights), Ok('a'));
    assert_eq!(choose_weighted(1073741823, &weights), Ok('a'));
    assert_eq!(choose_weighted(1073741824, &weights), Ok('b'));
    assert_eq!(choose_weighted(u32::MAX, &weights), Ok('b'));
}

#[test]
fn choose_weighted_equal_weights_is_the_three_way_split() {
    let weights = [(1u8, 1u32), (2u8, 1u32), (3u8, 1u32)];
    for raw in [0u32, 1431655764, 1431655765, 2863311529, 2863311530, u32::MAX, 515166382] {
        assert_eq!(choose_weighted(raw, &weights), Ok(uniform_three_way(raw)));
    }
    let scaled = [(1u8, 1000u32), (2u8, 1000u32), (3u8, 1000u32)];
    for raw in [0u32, 1431655764, 1431655765, 2863311529, 2863311530, u32::MAX] {
        assert_eq!(choose_weighted(raw, &scaled), Ok(uniform_three_way(raw)));
    }
}

#[test]
fn choose_weighted_skips_zero_weights() {
    assert_eq!(choose_weighted(0, &[(1u8, 0u32), (2u8, 5u32)]), Ok(2));
    assert_eq!(choose_weighted(u32::MAX - 1, &[(1u8, 5u32), (2u8, 0u32)]), Ok(1));
    assert_eq!(choose_weighted(u32::MAX, &[(1u8, 5u32), (2u8, 0u32)]), Ok(2));
    assert_eq!(choose_weighted(2147483648, &[(1u8, 1u32), (2u8, 0u32), (3u8, 1u32)]), Ok(3));
    assert_eq!(choose_weighted(2147483647, &[(1u8, 1u32), (2u8, 0u32), (3u8, 1u32)]), Ok(1));
}

#[test]
fn choose_weighted_takes_full_weights() {
    let weights = [(1u8, u32::MAX), (2u8, u32::MAX), (3u8, u32::MAX), (4u8, u32::MAX)];
    assert_eq!(choose_weighted(0, &weights), Ok(1));
    assert_eq!(choose_weighted(1073741823, &weights), Ok(1));
    assert_eq!(choose_weighted(1073741824, &weights), Ok(2));
    assert_eq!(choose_weighted(u32::MAX, &weights), Ok(4));
}

#[test]
fn weights_without_a_distribution_are_invalid() {
    let none: [(u8, u32); 0] = [];
    assert!(!has_valid_weights(&none));
    assert!(!has_valid_weights(&[(1u8, 0u32), (2u8, 0u32)]));
    assert!(has_valid_weights(&[(1u8, 0u32), (2u8, 1u32)]));
    assert_eq!(choose_weighted(7, &none), Err(SelectorError::InvalidArgument));
    assert_eq!(choose_weighted(7, &[(1u8, 0u32), (2u8, 0u32)]), Err(SelectorError::InvalidArgument));
}

#[test]
fn next_choice_draws_once() {
    let mut s = Selector::new();
    let weights = [
        (Deployment::One, 1u32),
        (Deployment::Two, 1u32),
        (Deployment::Three, 1u32),
    ];
    assert_eq!(s.next_choice(&weights), Ok(Deployment::Three));
    assert_eq!(s.next_choice(&weights), Ok(Deployment::Three));
    assert_eq!(s.next_choice(&weights), Ok(Deployment::One));
    let mut t = Selector::new();
    t.next_u32();
    t.next_u32();
    t.next_u32();
    assert_eq!(s, t);
}

#[test]
fn next_choice_with_invalid_weights_draws_nothing() {
    let mut s = Selector::new();
    let none: [(Deployment, u32); 0] = [];
    assert_eq!(s.next_choice(&none), Err(SelectorError::InvalidArgument));
    assert_eq!(s.next_choice(&[(Deployment::One, 0u32)]), Err(SelectorError::InvalidArgument));
    assert_eq!(s, Selector::new());
}
