use overtopr::order::{order_asc, order_desc, text_less};
use overtopr::percent::{ratio_percent, round_bits, rounded_string, tone_of, Rounded, Tone};
use overtopr::render::swap_tone_of;

fn rounded(v: f32) -> (String, Tone) {
    let r = round_bits(v.to_bits());
    (rounded_string(r), tone_of(r))
}

#[test]
fn percent_boundaries_after_rounding() {
    assert_eq!(rounded(0.0), (String::from("0"), Tone::Nominal));
    assert_eq!(rounded(25.0), (String::from("25"), Tone::Nominal));
    assert_eq!(rounded(25.4), (String::from("25"), Tone::Nominal));
    assert_eq!(rounded(25.5), (String::from("26"), Tone::Caution));
    assert_eq!(rounded(50.0), (String::from("50"), Tone::Caution));
    assert_eq!(rounded(50.4), (String::from("50"), Tone::Caution));
    assert_eq!(rounded(51.0), (String::from("51"), Tone::Alert));
    assert_eq!(rounded(50.5), (String::from("51"), Tone::Alert));
    assert_eq!(rounded(100.0), (String::from("100"), Tone::Alert));
}

#[test]
fn rounding_matches_float_round() {
    for v in [0.0f32, 0.49, 0.5, 1.5, 2.5, 12.345, 99.99, 0.0001, 1e-40, 8388607.5, 16777215.0, 3.0e6] {
        let r = round_bits(v.to_bits());
        assert_eq!(rounded_string(r), v.round().to_string(), "{v}");
    }
    assert_eq!(rounded(-0.3).0, "-0");
    assert_eq!(rounded(-7.5).0, "-8");
    assert_eq!(rounded(-70.0).1, Tone::Nominal);
}

#[test]
fn special_values() {
    assert_eq!(round_bits(f32::NAN.to_bits()), Rounded::NotANumber);
    assert_eq!(rounded(f32::NAN), (String::from("NaN"), Tone::Nominal));
    assert_eq!(rounded(f32::INFINITY), (String::from("inf"), Tone::Alert));
    assert_eq!(rounded(f32::NEG_INFINITY), (String::from("-inf"), Tone::Nominal));
    assert_eq!(
        round_bits(f32::MAX.to_bits()),
        Rounded::Finite { negative: false, magnitude: 340282346638528859811704183484516925440 }
    );
}

#[test]
fn ratio_rounds_half_up() {
    assert_eq!(ratio_percent(1, 3), Rounded::Finite { negative: false, magnitude: 33 });
    assert_eq!(ratio_percent(2, 3), Rounded::Finite { negative: false, magnitude: 67 });
    assert_eq!(ratio_percent(1, 8), Rounded::Finite { negative: false, magnitude: 13 });
    assert_eq!(ratio_percent(u64::MAX, 1), Rounded::Finite { negative: false, magnitude: 1844674407370955161500 });
    assert_eq!(ratio_percent(0, 0), Rounded::NotANumber);
    assert_eq!(ratio_percent(5, 0), Rounded::Infinite { negative: false });
    assert_eq!(tone_of(ratio_percent(51, 100)), Tone::Alert);
    assert_eq!(tone_of(ratio_percent(26, 100)), Tone::Caution);
}

#[test]
fn any_swap_is_an_alert() {
    assert_eq!(swap_tone_of(0), Tone::Nominal);
    assert_eq!(swap_tone_of(1), Tone::Alert);
    assert_eq!(swap_tone_of(4096), Tone::Alert);
    assert_eq!(swap_tone_of(u64::MAX), Tone::Alert);
}

#[test]
fn descending_text_order_is_stable() {
    let keys: Vec<String> = ["eth0", "wlan0", "lo", "eth0", "docker0"].iter().map(|s| s.to_string()).collect();
    assert_eq!(order_desc(&keys), vec![1, 2, 0, 3, 4]);
    assert_eq!(order_desc(&Vec::new()), Vec::<usize>::new());
    assert!(text_less("ab", "abc"));
    assert!(text_less("B", "a"));
    assert!(!text_less("abc", "abc"));
}

#[test]
fn addresses_ascend_v4_first() {
    let keys = vec![(true, 1u128), (false, 0x7f000001), (false, 0x0a000001), (true, 0)];
    assert_eq!(order_asc(&keys), vec![2, 1, 3, 0]);
}
