use alsd::settings::{first_present, Settings, DEFAULT_RATE_MS};

#[test]
fn settings_all_defaults() {
    let s = Settings::resolve(None, None, None, None);
    assert_eq!(s.device, "/dev/gpioals_device");
    assert_eq!(s.rate_ms, DEFAULT_RATE_MS);
    assert_eq!(s.rate_ms, 14000);
    assert_eq!(s.broker, "localhost");
    assert_eq!(s.topic, "alsd");
}

#[test]
fn settings_keep_stated_values() {
    let s = Settings::resolve(
        Some("/tmp/fake0".to_string()),
        Some(1000),
        Some("tcp://x".to_string()),
        Some("measurements".to_string()),
    );
    assert_eq!(s.device, "/tmp/fake0");
    assert_eq!(s.rate_ms, 1000);
    assert_eq!(s.broker, "tcp://x");
    assert_eq!(s.topic, "measurements");
}

#[test]
fn settings_mix_of_stated_and_default() {
    let s = Settings::resolve(None, Some(2500), None, Some("alsd".to_string()));
    assert_eq!(s.device, "/dev/gpioals_device");
    assert_eq!(s.rate_ms, 2500);
    assert_eq!(s.broker, "localhost");
    assert_eq!(s.topic, "alsd");
}

#[test]
fn first_present_picks_the_first_existing_candidate() {
    assert_eq!(first_present(&vec![false, true, true]), Some(1));
    assert_eq!(first_present(&vec![true, false, false]), Some(0));
    assert_eq!(first_present(&vec![false, false, true]), Some(2));
}

#[test]
fn first_present_with_no_candidate_present() {
    assert_eq!(first_present(&vec![false, false, false]), None);
    assert_eq!(first_present(&Vec::new()), None);
}
