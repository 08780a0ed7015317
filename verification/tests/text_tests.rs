use hsr_optimizer_engine::text::{decimal_string, join, str_eq};

#[test]
fn decimal_string_matches_display() {
    for n in [0usize, 7, 9, 10, 42, 100, 1234, 98765, usize::MAX] {
        assert_eq!(decimal_string(n), n.to_string());
    }
}

#[test]
fn str_eq_compares_contents() {
    assert!(str_eq("Fire", "Fire"));
    assert!(!str_eq("Fire", "fire"));
    assert!(!str_eq("Fire", "Fir"));
    assert!(str_eq("", ""));
}

#[test]
fn join_concatenates() {
    assert_eq!(join("ashen_roast_", "e1"), "ashen_roast_e1");
    assert_eq!(join("", "x"), "x");
}
