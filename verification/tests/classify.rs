use toast::thermal::ThermalPressure;

#[test]
fn classify_named_variants() {
    assert_eq!(ThermalPressure::from_state(0), ThermalPressure::Nominal);
    assert_eq!(ThermalPressure::from_state(1), ThermalPressure::Moderate);
    assert_eq!(ThermalPressure::from_state(2), ThermalPressure::Heavy);
    assert_eq!(ThermalPressure::from_state(3), ThermalPressure::Trapping);
    assert_eq!(ThermalPressure::from_state(4), ThermalPressure::Sleeping);
}

#[test]
fn classify_unrecognized_carries_raw_value() {
    assert_eq!(ThermalPressure::from_state(5), ThermalPressure::Unknown(5));
    assert_eq!(ThermalPressure::from_state(99), ThermalPressure::Unknown(99));
    assert_eq!(
        ThermalPressure::from_state(u64::MAX),
        ThermalPressure::Unknown(u64::MAX)
    );
}

#[test]
fn ordinal_of_each_level() {
    assert_eq!(ThermalPressure::Nominal.level(), 0);
    assert_eq!(ThermalPressure::Moderate.level(), 1);
    assert_eq!(ThermalPressure::Heavy.level(), 2);
    assert_eq!(ThermalPressure::Trapping.level(), 3);
    assert_eq!(ThermalPressure::Sleeping.level(), 4);
    assert_eq!(ThermalPressure::Unknown(7).level(), 7);
    assert_eq!(ThermalPressure::Unknown(u64::MAX).level(), u64::MAX);
}

#[test]
fn throttled_iff_not_nominal() {
    assert!(!ThermalPressure::Nominal.is_throttled());
    assert!(ThermalPressure::Moderate.is_throttled());
    assert!(ThermalPressure::Heavy.is_throttled());
    assert!(ThermalPressure::Trapping.is_throttled());
    assert!(ThermalPressure::Sleeping.is_throttled());
    assert!(ThermalPressure::Unknown(0).is_throttled());
    assert!(ThermalPressure::Unknown(123).is_throttled());
}

#[test]
fn description_of_each_level() {
    assert_eq!(ThermalPressure::Nominal.description(), "No thermal pressure");
    assert_eq!(
        ThermalPressure::Moderate.description(),
        "System may reduce performance"
    );
    assert_eq!(
        ThermalPressure::Heavy.description(),
        "System is actively throttling"
    );
    assert_eq!(
        ThermalPressure::Trapping.description(),
        "Critical thermal pressure, system is severely throttled"
    );
    assert_eq!(
        ThermalPressure::Sleeping.description(),
        "Extreme thermal pressure, system may sleep to cool down"
    );
    assert_eq!(
        ThermalPressure::Unknown(9).description(),
        "Unknown thermal pressure level"
    );
}
