use pandemist_vehicle_elements::continous_throttle_lever::{
    axis_mode, mode_after_brake_key, mode_after_throttle_key, notch_sound, NotchSound, ThrottleMode,
};
use pandemist_vehicle_elements::odometer::decade_init_values;

#[test]
fn notch_sounds() {
    assert_eq!(notch_sound(3, 3), None);
    assert_eq!(notch_sound(4, 5), Some(NotchSound::Neutral));
    assert_eq!(notch_sound(6, 7), Some(NotchSound::End));
    assert_eq!(notch_sound(2, 1), Some(NotchSound::End));
    assert_eq!(notch_sound(7, 6), None);
    assert_eq!(notch_sound(5, 6), Some(NotchSound::Other));
}

#[test]
fn throttle_modes() {
    assert_eq!(axis_mode(0, false), ThrottleMode::EmBrake);
    assert_eq!(axis_mode(5, true), ThrottleMode::EmBrake);
    assert_eq!(axis_mode(2, false), ThrottleMode::Brake);
    assert_eq!(axis_mode(4, false), ThrottleMode::Neutral);
    assert_eq!(axis_mode(6, false), ThrottleMode::Throttle);
    assert_eq!(mode_after_brake_key(ThrottleMode::Throttle, false), ThrottleMode::Neutral);
    assert_eq!(mode_after_brake_key(ThrottleMode::Throttle, true), ThrottleMode::Throttle);
    assert_eq!(mode_after_brake_key(ThrottleMode::Neutral, false), ThrottleMode::Brake);
    assert_eq!(mode_after_throttle_key(ThrottleMode::Brake, true), ThrottleMode::Brake);
    assert_eq!(mode_after_throttle_key(ThrottleMode::EmBrake, false), ThrottleMode::Neutral);
    assert_eq!(mode_after_throttle_key(ThrottleMode::Neutral, false), ThrottleMode::Throttle);
}

#[test]
fn odometer_digits() {
    assert_eq!(decade_init_values(1234, 6), vec![4, 3, 2, 1, 0, 0]);
    assert_eq!(decade_init_values(0, 3), vec![0, 0, 0]);
    assert_eq!(decade_init_values(98765, 2), vec![5, 6]);
    assert_eq!(decade_init_values(5, 0), Vec::<u64>::new());
}
