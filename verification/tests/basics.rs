use ferro_protect::env::EnvVars;
use ferro_protect::text::{
    ascii_lowercase_owned, bool_str, is_blank_str, join_path_owned, str_eq, trim_owned, u64_decimal,
};
use ferro_protect::time::Duration;

#[test]
fn trim_and_blank() {
    assert_eq!(trim_owned("  nvr.local  \n"), "nvr.local");
    assert_eq!(trim_owned("\t \n"), "");
    assert!(is_blank_str("   \t\n"));
    assert!(is_blank_str(""));
    assert!(!is_blank_str(" x "));
}

#[test]
fn small_text_helpers() {
    assert_eq!(ascii_lowercase_owned("TrUe"), "true");
    assert!(str_eq("abc", "abc"));
    assert!(!str_eq("abc", "abd"));
    assert_eq!(u64_decimal(0), "0");
    assert_eq!(u64_decimal(24000), "24000");
    assert_eq!(u64_decimal(u64::MAX), "18446744073709551615");
    assert_eq!(bool_str(true), "true");
    assert_eq!(bool_str(false), "false");
    assert_eq!(join_path_owned("/home/me", "keys"), "/home/me/keys");
}

#[test]
fn env_lookup_last_set_wins_and_trims() {
    let mut env = EnvVars::empty();
    assert_eq!(env.get("A"), None);
    env.set("A".to_string(), " one ".to_string());
    env.set("A".to_string(), "  two  ".to_string());
    assert_eq!(env.get("A"), Some("  two  ".to_string()));
    assert_eq!(env.get_trimmed("A"), Some("two".to_string()));
    env.set("B".to_string(), "   ".to_string());
    assert_eq!(env.get_trimmed("B"), None);
}

#[test]
fn duration_arithmetic() {
    let d = Duration::new(1, 500_000_000);
    assert_eq!(d.as_millis(), 1500);
    assert_eq!(d.as_secs(), 1);
    assert_eq!(d.subsec_nanos(), 500_000_000);
    assert_eq!(d.min(Duration::from_secs(1)), Duration::from_secs(1));
    assert_eq!(Duration::from_millis(100).saturating_mul(16), Duration::from_millis(1600));
    assert_eq!(Duration::max_value().saturating_mul(2), Duration::max_value());
    assert_eq!(Duration::from_secs(1).checked_div(4), Some(Duration::from_millis(250)));
    assert_eq!(Duration::from_secs(1).checked_div(0), None);
    assert!(Duration::zero().is_zero());
    assert!(Duration::from_millis(1).lt(&Duration::from_millis(2)));
}
