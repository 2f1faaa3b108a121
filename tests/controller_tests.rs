//! Tests of the bounded configuration and the controller.

use active_note::blinky::{BlinkyConfig, BlinkyController, BlinkyState, Led};

/// An LED that counts how often it was set each way.
struct CountingLed {
    lit: bool,
    highs: u32,
    lows: u32,
}

impl Led for CountingLed {
    fn is_lit(&self) -> bool {
        self.lit
    }

    fn set_high(&mut self) {
        self.lit = true;
        self.highs += 1;
    }

    fn set_low(&mut self) {
        self.lit = false;
        self.lows += 1;
    }

    fn toggle(&mut self) {
        self.lit = !self.lit;
    }
}

fn counting_led() -> CountingLed {
    CountingLed { lit: false, highs: 0, lows: 0 }
}

#[test]
fn blinky_test_blinky_config_default() {
    let config = BlinkyConfig::default();
    assert_eq!(config.on_duration_ms, 500);
    assert_eq!(config.off_duration_ms, 500);
    assert_eq!(config.count, None);
}

#[test]
fn blinky_test_blinky_config_validation() {
    let config = BlinkyConfig::new(100, 100);
    assert!(config.validate().is_ok());

    let config = BlinkyConfig::new(0, 0);
    assert!(config.validate().is_err());

    let config = BlinkyConfig::new(100, 100).with_count(0);
    assert!(config.validate().is_err());
}

#[test]
fn test_blinky_controller_creation() {
    let config = BlinkyConfig::default();
    let controller = BlinkyController::new(config);
    assert!(controller.is_ok());

    let controller = controller.unwrap();
    assert_eq!(controller.state(), BlinkyState::Off);
    assert_eq!(controller.blink_count(), 0);
}

#[test]
fn test_blinky_controller_should_continue() {
    let config = BlinkyConfig::default().with_count(3);
    let mut controller = BlinkyController::new(config).unwrap();
    let mut led = counting_led();

    assert!(controller.should_continue());
    // Two full blinks bring the count to 2.
    for _ in 0..4 {
        controller.step(&mut led);
    }
    assert_eq!(controller.blink_count(), 2);
    assert!(controller.should_continue());
    // The third blink brings it to 3.
    controller.step(&mut led);
    controller.step(&mut led);
    assert_eq!(controller.blink_count(), 3);
    assert!(!controller.should_continue());
}

#[test]
fn test_blinky_controller_infinite() {
    let config = BlinkyConfig::default();
    let controller = BlinkyController::new(config).unwrap();

    // Should always continue with infinite count
    assert!(controller.should_continue());
}

#[test]
fn should_continue_at_each_count() {
    let config = BlinkyConfig::default().with_count(3);
    let mut controller = BlinkyController::new(config).unwrap();
    let mut led = counting_led();
    for expected_count in 0..3u32 {
        assert_eq!(controller.blink_count(), expected_count);
        assert!(controller.should_continue());
        controller.step(&mut led);
        controller.step(&mut led);
    }
    assert_eq!(controller.blink_count(), 3);
    assert!(!controller.should_continue());
}

#[test]
fn period_sums_durations() {
    assert_eq!(BlinkyConfig::new(300, 700).period_ms(), 1000);
    assert_eq!(BlinkyConfig::new(0, 5).period_ms(), 5);
    assert_eq!(BlinkyConfig::new(u64::MAX - 1, 1).period_ms(), u64::MAX);
}

#[test]
fn with_count_keeps_durations() {
    let config = BlinkyConfig::new(12, 34).with_count(5);
    assert_eq!(config.on_duration_ms, 12);
    assert_eq!(config.off_duration_ms, 34);
    assert_eq!(config.count, Some(5));
    assert_eq!(config.with_count(6).count, Some(6));
}

#[test]
fn validation_messages() {
    assert_eq!(
        BlinkyConfig::new(0, 0).validate(),
        Err("Both on and off durations cannot be zero")
    );
    assert_eq!(
        BlinkyConfig::new(1, 1).with_count(0).validate(),
        Err("Blink count cannot be zero")
    );
    assert_eq!(BlinkyConfig::new(0, 100).validate(), Ok(()));
    assert_eq!(BlinkyConfig::new(100, 0).validate(), Ok(()));
    assert_eq!(BlinkyConfig::new(1, u64::MAX).with_count(1).validate(), Ok(()));
}

#[test]
fn controller_rejects_invalid_configs() {
    assert!(BlinkyController::new(BlinkyConfig::new(0, 0)).is_err());
    assert!(BlinkyController::new(BlinkyConfig::new(5, 5).with_count(0)).is_err());
    assert_eq!(
        BlinkyController::new(BlinkyConfig::new(0, 0).with_count(0)).err(),
        Some("Both on and off durations cannot be zero")
    );
}

#[test]
fn controller_keeps_its_config() {
    let config = BlinkyConfig::new(40, 60).with_count(2);
    let controller = BlinkyController::new(config).unwrap();
    assert_eq!(*controller.config(), config);
}

#[test]
fn step_sequence_for_two_blinks() {
    let config = BlinkyConfig::new(40, 60).with_count(2);
    let mut controller = BlinkyController::new(config).unwrap();
    let mut led = counting_led();

    assert_eq!(controller.step(&mut led), Some(40));
    assert_eq!(controller.state(), BlinkyState::On);
    assert_eq!(controller.blink_count(), 0);
    assert_eq!(controller.step(&mut led), Some(60));
    assert_eq!(controller.state(), BlinkyState::Off);
    assert_eq!(controller.blink_count(), 1);
    assert_eq!(controller.step(&mut led), Some(40));
    assert_eq!(controller.step(&mut led), None);
    assert_eq!(controller.blink_count(), 2);
    assert_eq!(controller.step(&mut led), None);
    assert_eq!(controller.state(), BlinkyState::Off);
    assert_eq!(led.highs, 2);
    assert_eq!(led.lows, 2);
}

#[test]
fn step_lights_then_darkens_the_led() {
    let config = BlinkyConfig::new(40, 60).with_count(1);
    let mut controller = BlinkyController::new(config).unwrap();
    let mut led = counting_led();

    controller.step(&mut led);
    assert!(led.is_lit());
    controller.step(&mut led);
    assert!(!led.is_lit());
    led.toggle();
    assert!(led.is_lit());
    // A finished controller leaves the LED as it is.
    assert_eq!(controller.step(&mut led), None);
    assert!(led.is_lit());
    assert_eq!((led.highs, led.lows), (1, 1));
}
