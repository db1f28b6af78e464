use moonwalk_macros::{classify_event, key_name_ok, HotkeyEvent, HotkeyManager};

#[test]
fn function_key_names_f1_through_f12_are_accepted() {
    for n in 1..=12u32 {
        let name = format!("f{}", n);
        assert!(key_name_ok(&name), "{} should be accepted", name);
    }
}

#[test]
fn letter_and_digit_names_are_accepted() {
    for c in 'a'..='z' {
        assert!(key_name_ok(&c.to_string()));
    }
    for c in '0'..='9' {
        assert!(key_name_ok(&c.to_string()));
    }
}

#[test]
fn unrecognized_key_names_are_rejected() {
    for bad in ["f13", "f0", "F7", "ab", "", "aa", "escape", "10", "f1x", " f1"] {
        assert!(!key_name_ok(bad), "{:?} should be rejected", bad);
    }
}

#[test]
fn registration_with_unrecognized_name_fails_before_binding() {
    // Creating the manager may fail on hosts without a hotkey
    // facility; whenever it succeeds, a bad name must be rejected
    // before any binding, leaving no binding live.
    if let Ok(mut manager) = HotkeyManager::new() {
        let r = manager.register_hotkeys("f13", "f8");
        assert_eq!(r, Err("Unsupported key: f13".to_string()));
        let events = manager.check_events();
        assert!(events.is_empty());
    }
}

#[test]
fn classify_only_counts_presses() {
    assert_eq!(classify_event(7, false, Some(7), Some(9)), None);
    assert_eq!(classify_event(7, true, Some(7), Some(9)), Some(HotkeyEvent::ComOffset));
}

#[test]
fn classify_matches_each_binding() {
    assert_eq!(classify_event(9, true, Some(7), Some(9)), Some(HotkeyEvent::WallClip));
    assert_eq!(classify_event(8, true, Some(7), Some(9)), None);
    assert_eq!(classify_event(7, true, None, Some(9)), None);
    assert_eq!(classify_event(9, true, None, None), None);
}

#[test]
fn classify_prefers_the_offset_binding_on_equal_ids() {
    assert_eq!(classify_event(5, true, Some(5), Some(5)), Some(HotkeyEvent::ComOffset));
}
