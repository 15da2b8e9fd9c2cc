use rfcalc::text::{format_point, same_text};

#[test]
fn equal_texts_are_the_same() {
    assert!(same_text("", ""));
    assert!(same_text("giga", "giga"));
    assert!(same_text("μΩ", "μΩ"));
}

#[test]
fn differing_texts_are_not_the_same() {
    assert!(!same_text("", "a"));
    assert!(!same_text("a", ""));
    assert!(!same_text("giga", "gigb"));
    assert!(!same_text("giga", "gig"));
    assert!(!same_text("aiga", "giga"));
    assert!(!same_text("GHz", "ghz"));
    assert!(!same_text("μF", "µF"));
    assert!(!same_text("kΩ", "kO"));
    assert!(!same_text("Ω", "ab"));
}

#[test]
fn point_is_written_with_comma_and_unit() {
    assert_eq!(format_point("42.4", "-19.6", "Ω"), "42.4, -19.6Ω");
    assert_eq!(format_point("1", "2", ""), "1, 2");
    assert_eq!(format_point("", "", ""), ", ");
    assert_eq!(format_point("0.5", "90", " deg"), "0.5, 90 deg");
}

#[test]
fn point_is_not_just_one_of_its_parts() {
    let out = format_point("3", "4", "pF");
    assert_ne!(out, "3");
    assert_ne!(out, "4");
    assert_ne!(out, "pF");
    assert_eq!(out.chars().count(), 6);
}
