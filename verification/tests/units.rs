use rfcalc::decimal::Decimal;
use rfcalc::units::{get_mult, scale, unscale};

const TERA: [&str; 4] = ["tera", "T", "THz", "thz"];
const GIGA: [&str; 5] = ["giga", "G", "GHz", "ghz", "GΩ"];
const MEGA: [&str; 5] = ["mega", "M", "MHz", "mhz", "MΩ"];
const KILO: [&str; 5] = ["kilo", "k", "kHz", "khz", "kΩ"];
const MILLI: [&str; 5] = ["milli", "m", "mΩ", "mF", "mH"];
const MICRO: [&str; 5] = ["micro", "u", "μΩ", "μF", "μH"];
const NANO: [&str; 5] = ["nano", "n", "nΩ", "nF", "nH"];
const PICO: [&str; 5] = ["pico", "p", "pΩ", "pF", "pH"];
const FEMTO: [&str; 5] = ["femto", "f", "fΩ", "fF", "fH"];
const NADA: [&str; 3] = ["", "google", ".sfwe"];

fn dec(mantissa: i64, exp10: i32) -> Decimal {
    Decimal { mantissa, exp10 }
}

/// The double nearest to a decimal quantity.
fn nearest(d: Decimal) -> f64 {
    format!("{}e{}", d.mantissa, d.exp10).parse().unwrap()
}

fn close(a: f64, b: f64) -> bool {
    (a - b).abs() <= 1e-15 * b.abs()
}

fn check_family(tags: &[&str], exp10: i32, down: f64, up: f64) {
    let val: f64 = 3.24;
    let v = dec(324, -2);
    for tag in tags.iter() {
        let s = scale(v, tag).unwrap();
        let u = unscale(v, tag).unwrap();
        assert_eq!(s, dec(324, -2 + exp10));
        assert_eq!(u, dec(324, -2 - exp10));
        assert!(close(nearest(s), val * down));
        assert!(close(nearest(u), val * up));
    }
}

#[test]
fn test_scale_unscale() {
    check_family(&TERA, -12, 1e-12, 1e12);
    check_family(&GIGA, -9, 1e-9, 1e9);
    check_family(&MEGA, -6, 1e-6, 1e6);
    check_family(&KILO, -3, 1e-3, 1e3);
    check_family(&MILLI, 3, 1e3, 1e-3);
    check_family(&MICRO, 6, 1e6, 1e-6);
    check_family(&NANO, 9, 1e9, 1e-9);
    check_family(&PICO, 12, 1e12, 1e-12);
    check_family(&FEMTO, 15, 1e15, 1e-15);
    let val: f64 = 3.24;
    let v = dec(324, -2);
    for tag in NADA.iter() {
        assert_eq!(scale(v, tag), Some(v));
        assert_eq!(unscale(v, tag), Some(v));
        assert_eq!(nearest(scale(v, tag).unwrap()), val);
        assert_eq!(nearest(unscale(v, tag).unwrap()), val);
    }
}

#[test]
fn every_alias_has_its_factor() {
    let table: [(&[&str], i32); 9] = [
        (&TERA, -12),
        (&GIGA, -9),
        (&MEGA, -6),
        (&KILO, -3),
        (&MILLI, 3),
        (&MICRO, 6),
        (&NANO, 9),
        (&PICO, 12),
        (&FEMTO, 15),
    ];
    let mut seen = 0;
    for (tags, exp10) in table.iter() {
        for tag in tags.iter() {
            assert_eq!(get_mult(tag), *exp10, "tag {:?}", tag);
            seen += 1;
        }
    }
    assert_eq!(seen, 44);
}

#[test]
fn kilo_ohm_is_a_thousandth() {
    assert_eq!(get_mult("kΩ"), -3);
    assert!(close(nearest(dec(1, get_mult("kΩ"))), 1e-3));
}

#[test]
fn unknown_tags_name_the_factor_one() {
    for tag in ["bogus", "", "google", ".sfwe", " ", "Hz", "Ω", "F"].iter() {
        assert_eq!(get_mult(tag), 0, "tag {:?}", tag);
    }
}

#[test]
fn tags_are_matched_as_written() {
    assert_eq!(get_mult("Tera"), 0);
    assert_eq!(get_mult("GIGA"), 0);
    assert_eq!(get_mult(" giga"), 0);
    assert_eq!(get_mult("giga "), 0);
    assert_eq!(get_mult("gig"), 0);
    assert_eq!(get_mult("gigaa"), 0);
    assert_eq!(get_mult("KHz"), 0);
    assert_eq!(get_mult("µF"), 0);
    assert_eq!(get_mult("μ"), 0);
    assert_eq!(get_mult("m"), 3);
    assert_eq!(get_mult("M"), -6);
    assert_eq!(get_mult("p"), 12);
    assert_eq!(get_mult("P"), 0);
}

#[test]
fn scale_moves_the_exponent_and_keeps_the_mantissa() {
    assert_eq!(scale(dec(275, 9), "giga"), Some(dec(275, 0)));
    assert_eq!(unscale(dec(275, 0), "giga"), Some(dec(275, 9)));
    assert_eq!(scale(dec(-7, 0), "femto"), Some(dec(-7, 15)));
    assert_eq!(unscale(dec(-7, 0), "femto"), Some(dec(-7, -15)));
    assert_eq!(scale(dec(0, 5), "pF"), Some(dec(0, 17)));
    assert_eq!(scale(dec(i64::MAX, 0), "T"), Some(dec(i64::MAX, -12)));
    assert_eq!(scale(dec(i64::MIN, 0), "bogus"), Some(dec(i64::MIN, 0)));
}

#[test]
fn unscale_undoes_scale() {
    let tags = [
        "tera", "GHz", "MΩ", "k", "mH", "μF", "nano", "pΩ", "fF", "", "bogus",
    ];
    let values = [dec(324, -2), dec(-1, 0), dec(0, 0), dec(i64::MAX, 1000), dec(5, -2147483000)];
    for tag in tags.iter() {
        for v in values.iter() {
            let s = scale(*v, tag).unwrap();
            assert_eq!(unscale(s, tag), Some(*v));
            let u = unscale(*v, tag).unwrap();
            assert_eq!(scale(u, tag), Some(*v));
        }
    }
}

#[test]
fn exponent_out_of_range_has_no_result() {
    assert_eq!(scale(dec(1, i32::MAX), "femto"), None);
    assert_eq!(scale(dec(1, i32::MAX - 15), "femto"), Some(dec(1, i32::MAX)));
    assert_eq!(scale(dec(1, i32::MAX - 14), "femto"), None);
    assert_eq!(scale(dec(1, i32::MIN), "tera"), None);
    assert_eq!(scale(dec(1, i32::MIN + 12), "tera"), Some(dec(1, i32::MIN)));
    assert_eq!(scale(dec(1, i32::MIN + 11), "tera"), None);
    assert_eq!(unscale(dec(1, i32::MAX), "tera"), None);
    assert_eq!(unscale(dec(1, i32::MAX - 12), "tera"), Some(dec(1, i32::MAX)));
    assert_eq!(unscale(dec(1, i32::MIN), "femto"), None);
    assert_eq!(unscale(dec(1, i32::MIN + 15), "femto"), Some(dec(1, i32::MIN)));
    assert_eq!(scale(dec(1, i32::MAX), ""), Some(dec(1, i32::MAX)));
    assert_eq!(unscale(dec(1, i32::MIN), "google"), Some(dec(1, i32::MIN)));
}
