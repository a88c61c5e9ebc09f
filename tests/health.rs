use exactly_sim::health::{health_factor, is_liquidatable, HealthFactor};

#[test]
fn zero_debt_is_infinite_health() {
    assert_eq!(health_factor(0, 0), HealthFactor::Infinite);
    assert_eq!(health_factor(500, 0), HealthFactor::Infinite);
    assert!(!health_factor(500, 0).is_below_one());
    assert!(!is_liquidatable(0, 0));
}

#[test]
fn half_health_is_liquidatable() {
    let h = health_factor(100, 200);
    assert_eq!(h, HealthFactor::Ratio { collateral: 100, debt: 200 });
    assert!(h.is_below_one());
    assert!(is_liquidatable(100, 200));
}

#[test]
fn unit_health_is_solvent() {
    let h = health_factor(200, 200);
    assert_eq!(h, HealthFactor::Ratio { collateral: 200, debt: 200 });
    assert!(!h.is_below_one());
    assert!(!is_liquidatable(200, 200));
}
