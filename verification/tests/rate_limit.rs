use ferro_protect::rate_limit::{NonZeroU32, RateLimitConfig};
use ferro_protect::time::Duration;

#[test]
fn default_is_ten_per_second() {
    let c = RateLimitConfig::default();
    assert_eq!(c.rate.get(), 10);
    assert_eq!(c.per, Duration::from_secs(1));
    assert_eq!(c.cell_period(), Duration::from_millis(100));
}

#[test]
fn non_zero_rejects_zero() {
    assert!(NonZeroU32::new(0).is_none());
    assert_eq!(NonZeroU32::new(3).map(|n| n.get()), Some(3));
}

#[test]
fn quota_matches_governor_per_period() {
    let c = RateLimitConfig { rate: NonZeroU32::new(4).unwrap(), per: Duration::from_secs(2) };
    assert_eq!(c.cell_period(), Duration::from_millis(500));
    let q = c.quota().governor_quota();
    assert_eq!(q.replenish_interval(), std::time::Duration::from_millis(500));
    assert_eq!(q.burst_size().get(), 4);
}

#[test]
fn default_quota_bursts_ten() {
    let q = RateLimitConfig::default().quota().governor_quota();
    assert_eq!(q.burst_size().get(), 10);
    assert_eq!(q.replenish_interval(), std::time::Duration::from_millis(100));
}

#[test]
fn default_quota_allows_ten_per_one_second_window() {
    let q = RateLimitConfig::default().quota().governor_quota();
    assert_eq!(q.burst_size_replenished_in(), std::time::Duration::from_secs(1));
}
