use tiny_dfr::backlight::{
    discovery_step, find_backlight, find_display_backlight, parse_attr, BacklightManager,
    DiscoveryOutcome, LidState, UserEvent,
};
use tiny_dfr::cfgmap::ConfigMap;
use tiny_dfr::config::Config;

fn test_config(active_brightness: u32, adaptive_brightness: bool) -> Config {
    Config {
        show_button_outlines: true,
        enable_pixel_shift: false,
        font_template: String::from("sans-serif"),
        adaptive_brightness,
        active_brightness,
        keyboard_brightness_step: 32,
        keyboard_brightness_enabled: true,
        commands: ConfigMap::new(),
        user_env: None,
        back_button_show_outlines: false,
        back_button_outline_color: None,
        expandable_timeout_seconds: 5,
        expandables: ConfigMap::new(),
        hyprland_expandables: ConfigMap::new(),
    }
}

#[test]
fn target_is_active_before_dim_threshold() {
    let cfg = test_config(100, false);
    let mut mgr = BacklightManager::new(true, 255, 128, 0);
    let w = mgr.update_backlight(&cfg, 89_999, None);
    assert_eq!(w, Some(100));
    assert_eq!(mgr.current_bl(), 100);
}

#[test]
fn target_is_dimmed_between_thresholds() {
    let cfg = test_config(100, false);
    let mut mgr = BacklightManager::new(true, 255, 128, 0);
    let w = mgr.update_backlight(&cfg, 90_000, None);
    assert_eq!(w, Some(1));
    let w2 = mgr.update_backlight(&cfg, 179_999, None);
    assert_eq!(w2, None);
    assert_eq!(mgr.current_bl(), 1);
}

#[test]
fn target_is_zero_from_off_threshold() {
    let cfg = test_config(100, false);
    let mut mgr = BacklightManager::new(true, 255, 128, 0);
    let w = mgr.update_backlight(&cfg, 180_000, None);
    assert_eq!(w, Some(0));
    assert_eq!(mgr.current_bl(), 0);
}

#[test]
fn closed_lid_forces_zero_whatever_the_elapsed_time() {
    let cfg = test_config(100, false);
    let mut mgr = BacklightManager::new(true, 255, 128, 0);
    mgr.process_event(UserEvent::LidToggle(LidState::Closed), 10);
    assert_eq!(mgr.update_backlight(&cfg, 11, None), Some(0));
    assert_eq!(mgr.update_backlight(&cfg, 500_000, None), None);
    assert_eq!(mgr.current_bl(), 0);
}

#[test]
fn opening_the_lid_wakes_the_strip() {
    let cfg = test_config(100, false);
    let mut mgr = BacklightManager::new(true, 255, 100, 0);
    mgr.process_event(UserEvent::LidToggle(LidState::Closed), 10);
    assert_eq!(mgr.update_backlight(&cfg, 20, None), Some(0));
    mgr.process_event(UserEvent::LidToggle(LidState::Open), 400_000);
    assert_eq!(mgr.update_backlight(&cfg, 400_001, None), Some(100));
}

#[test]
fn activity_refreshes_the_idle_clock() {
    let cfg = test_config(100, false);
    let mut mgr = BacklightManager::new(true, 255, 100, 0);
    mgr.process_event(UserEvent::Activity, 200_000);
    assert_eq!(mgr.update_backlight(&cfg, 200_001, None), None);
    assert_eq!(mgr.current_bl(), 100);
}

#[test]
fn other_events_change_nothing() {
    let cfg = test_config(100, false);
    let mut mgr = BacklightManager::new(true, 255, 100, 0);
    mgr.process_event(UserEvent::Other, 100_000);
    assert_eq!(mgr.update_backlight(&cfg, 100_000, None), Some(1));
}

#[test]
fn adaptive_mode_uses_the_mapped_value_when_present() {
    let cfg = test_config(100, true);
    let mut mgr = BacklightManager::new(true, 255, 0, 0);
    assert_eq!(mgr.update_backlight(&cfg, 1, Some(42)), Some(42));
    assert_eq!(mgr.update_backlight(&cfg, 2, None), Some(100));
}

#[test]
fn target_is_clamped_to_the_device_maximum() {
    let cfg = test_config(300, false);
    let mut mgr = BacklightManager::new(true, 255, 0, 0);
    assert_eq!(mgr.update_backlight(&cfg, 1, None), Some(255));
}

#[test]
fn repeated_ticks_issue_one_write_per_value_change() {
    let cfg = test_config(100, false);
    let mut mgr = BacklightManager::new(true, 255, 128, 0);
    let mut writes = 0;
    for now in 0..10u64 {
        if mgr.update_backlight(&cfg, now, None).is_some() {
            writes += 1;
        }
    }
    assert_eq!(writes, 1);
    assert_eq!(mgr.current_bl(), 100);
}

#[test]
fn degraded_mode_reports_fixed_brightness_and_never_writes() {
    let cfg = test_config(100, false);
    let mut mgr = BacklightManager::new(false, 0, 0, 0);
    assert_eq!(mgr.current_bl(), 255);
    assert_eq!(mgr.update_backlight(&cfg, 500_000, None), None);
    assert_eq!(mgr.current_bl(), 255);
}

#[test]
fn discovery_succeeds_on_the_fifth_attempt() {
    let mut attempts = 0u32;
    let outcome = loop {
        let found = attempts == 4;
        match discovery_step(attempts, found) {
            DiscoveryOutcome::Retry => attempts += 1,
            other => break other,
        }
    };
    assert_eq!(outcome, DiscoveryOutcome::Found);
    assert_eq!(attempts, 4);
}

#[test]
fn discovery_degrades_after_six_failed_attempts() {
    let mut attempts = 0u32;
    let outcome = loop {
        match discovery_step(attempts, false) {
            DiscoveryOutcome::Retry => attempts += 1,
            other => break other,
        }
    };
    assert_eq!(outcome, DiscoveryOutcome::Degraded);
    assert_eq!(attempts, 5);
}

#[test]
fn parse_attr_reads_newline_terminated_decimals() {
    assert_eq!(parse_attr("123\n"), Some(123));
    assert_eq!(parse_attr("509"), Some(509));
    assert_eq!(parse_attr("  42 \n"), Some(42));
    assert_eq!(parse_attr("00123\n"), Some(123));
    assert_eq!(parse_attr("0\n"), Some(0));
}

#[test]
fn parse_attr_rejects_what_is_not_a_decimal() {
    assert_eq!(parse_attr(""), None);
    assert_eq!(parse_attr("  \n"), None);
    assert_eq!(parse_attr("abc\n"), None);
    assert_eq!(parse_attr("12a\n"), None);
    assert_eq!(parse_attr("1 2\n"), None);
    assert_eq!(parse_attr("-5\n"), None);
}

#[test]
fn parse_attr_handles_the_largest_value() {
    assert_eq!(parse_attr("4294967295\n"), Some(u32::MAX));
    assert_eq!(parse_attr("4294967296\n"), None);
    assert_eq!(parse_attr("99999999999999999999\n"), None);
}

#[test]
fn find_backlight_returns_the_first_matching_entry() {
    let entries = vec![
        String::from("acpi_video0"),
        String::from("appletb_backlight"),
        String::from("display-pipe.1"),
    ];
    assert_eq!(find_backlight(&entries), Some(1));
    assert_eq!(find_display_backlight(&entries), Some(0));
}

#[test]
fn find_backlight_reports_absence() {
    let entries = vec![String::from("leds"), String::from("thermal")];
    assert_eq!(find_backlight(&entries), None);
    assert_eq!(find_display_backlight(&entries), None);
    assert_eq!(find_backlight(&Vec::new()), None);
}

#[test]
fn find_display_backlight_matches_all_known_names() {
    for name in ["apple-panel-bl", "gmux_backlight", "intel_backlight", "acpi_video0"] {
        let entries = vec![String::from(name)];
        assert_eq!(find_display_backlight(&entries), Some(0), "{}", name);
    }
}
