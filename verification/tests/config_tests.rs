use moonwalk_macros::{Config, ShiftlockKey};

fn base_config() -> Config {
    Config {
        emote_slot: 1,
        gear_slot: "1".to_string(),
        peak_delay_ms: 970,
        unequip_after: true,
        unshiftlock_after: false,
        shiftlock_key: ShiftlockKey::Shift,
        com_hotkey: "f7".to_string(),
        clip_hotkey: "f8".to_string(),
    }
}

#[test]
fn emote_slot_in_range_passes() {
    for slot in 1..=8u8 {
        let mut c = base_config();
        c.emote_slot = slot;
        assert!(c.validate_emote_slot().is_ok());
    }
}

#[test]
fn emote_slot_out_of_range_fails_with_message() {
    for slot in [0u8, 9, 10, 100, 255] {
        let mut c = base_config();
        c.emote_slot = slot;
        assert_eq!(
            c.validate_emote_slot(),
            Err("Emote slot must be between 1-8".to_string())
        );
    }
}

#[test]
fn gear_slot_all_ten_digits_pass() {
    for ch in "1234567890".chars() {
        let mut c = base_config();
        c.gear_slot = ch.to_string();
        assert!(c.validate_gear_slot().is_ok());
    }
}

#[test]
fn gear_slot_wrong_length_fails() {
    for bad in ["", "12", "abc", "00"] {
        let mut c = base_config();
        c.gear_slot = bad.to_string();
        assert_eq!(
            c.validate_gear_slot(),
            Err("Gear slot must be a single character".to_string())
        );
    }
}

#[test]
fn gear_slot_non_digit_fails() {
    for bad in ["a", "z", "!", " ", "/"] {
        let mut c = base_config();
        c.gear_slot = bad.to_string();
        assert_eq!(
            c.validate_gear_slot(),
            Err("Gear slot must be 1-9 or 0".to_string())
        );
    }
}

#[test]
fn delay_boundaries_pass() {
    for ms in [50u64, 51, 970, 4999, 5000] {
        let mut c = base_config();
        c.peak_delay_ms = ms;
        assert!(c.validate_delay().is_ok());
    }
}

#[test]
fn delay_out_of_range_fails_with_message() {
    for ms in [0u64, 1, 49, 5001, 60000] {
        let mut c = base_config();
        c.peak_delay_ms = ms;
        assert_eq!(
            c.validate_delay(),
            Err("Peak delay must be between 0.05-5.0 seconds".to_string())
        );
    }
}

#[test]
fn aggregate_validation_short_circuits_on_emote_slot() {
    let mut c = base_config();
    c.emote_slot = 0;
    c.gear_slot = "!!".to_string();
    c.peak_delay_ms = 0;
    assert_eq!(
        c.validate_all(),
        Err("Emote slot must be between 1-8".to_string())
    );
}

#[test]
fn aggregate_validation_reports_gear_before_delay() {
    let mut c = base_config();
    c.gear_slot = "x".to_string();
    c.peak_delay_ms = 0;
    assert_eq!(
        c.validate_all(),
        Err("Gear slot must be 1-9 or 0".to_string())
    );
}

#[test]
fn aggregate_validation_accepts_valid_config() {
    assert!(base_config().validate_all().is_ok());
}

#[test]
fn default_config_is_valid() {
    let c = Config::default();
    assert_eq!(c.emote_slot, 1);
    assert_eq!(c.gear_slot, "1");
    assert_eq!(c.peak_delay_ms, 970);
    assert!(c.unequip_after);
    assert!(!c.unshiftlock_after);
    assert_eq!(c.shiftlock_key, ShiftlockKey::Shift);
    assert_eq!(c.com_hotkey, "f7");
    assert_eq!(c.clip_hotkey, "f8");
    assert!(c.validate_all().is_ok());
}
