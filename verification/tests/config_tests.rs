use tiny_dfr::cfgmap::{merge_map_tiers, ConfigMap};
use tiny_dfr::config::{
    build_layers, classify_action, detect_user_config_paths, load_commands, merge_config_tiers,
    resolve_config, ButtonAction, ButtonConfig, ConfigError, ConfigProxy, UserEnvironment,
};

fn empty_proxy() -> ConfigProxy {
    ConfigProxy {
        media_layer_default: None,
        show_button_outlines: None,
        enable_pixel_shift: None,
        font_template: None,
        adaptive_brightness: None,
        active_brightness: None,
        primary_layer_keys: None,
        media_layer_keys: None,
        keyboard_brightness_step: None,
        keyboard_brightness_enabled: None,
        back_button_show_outlines: None,
        back_button_outline_color: None,
        expandable_timeout_seconds: None,
    }
}

fn full_default_proxy() -> ConfigProxy {
    ConfigProxy {
        media_layer_default: Some(true),
        show_button_outlines: Some(true),
        enable_pixel_shift: Some(false),
        font_template: Some(String::from("sans-serif")),
        adaptive_brightness: Some(false),
        active_brightness: Some(128),
        primary_layer_keys: Some(vec![text_button("f1"), text_button("f2")]),
        media_layer_keys: Some(vec![text_button("play")]),
        keyboard_brightness_step: None,
        keyboard_brightness_enabled: None,
        back_button_show_outlines: None,
        back_button_outline_color: None,
        expandable_timeout_seconds: None,
    }
}

fn text_button(label: &str) -> ButtonConfig {
    ButtonConfig {
        icon: None,
        text: Some(String::from(label)),
        theme: None,
        time: None,
        battery: None,
        locale: None,
        action: ButtonAction::Command(String::from(label)),
        stretch: None,
        show_button_outlines: None,
        button_outlines_color: None,
        show_app_icon_alongside_text: None,
        app_icon: None,
    }
}

#[test]
fn scalar_merge_is_right_biased_and_per_field() {
    // package default {A:1, B:2}, system {B:3}, user {}
    let mut base = empty_proxy();
    base.active_brightness = Some(1);
    base.keyboard_brightness_step = Some(2);
    let mut system = empty_proxy();
    system.keyboard_brightness_step = Some(3);

    let merged = merge_config_tiers(base.clone(), Some(system.clone()), Some(empty_proxy()));
    assert_eq!(merged.active_brightness, Some(1));
    assert_eq!(merged.keyboard_brightness_step, Some(3));

    // user {B:4} wins over system {B:3}
    let mut user = empty_proxy();
    user.keyboard_brightness_step = Some(4);
    let merged = merge_config_tiers(base, Some(system), Some(user));
    assert_eq!(merged.active_brightness, Some(1));
    assert_eq!(merged.keyboard_brightness_step, Some(4));
}

#[test]
fn scalar_merge_skips_absent_tiers() {
    let mut base = empty_proxy();
    base.active_brightness = Some(7);
    let merged = merge_config_tiers(base, None, None);
    assert_eq!(merged.active_brightness, Some(7));
    assert_eq!(merged.keyboard_brightness_step, None);
}

#[test]
fn map_merge_is_per_key_union_with_later_tiers_winning() {
    let mut default_tier: ConfigMap<String> = ConfigMap::new();
    default_tier.insert(String::from("x"), String::from("cmd1"));
    let mut system_tier: ConfigMap<String> = ConfigMap::new();
    system_tier.insert(String::from("y"), String::from("cmd2"));
    let mut user_tier: ConfigMap<String> = ConfigMap::new();
    user_tier.insert(String::from("x"), String::from("cmd3"));

    let merged = merge_map_tiers(Some(default_tier), Some(system_tier), Some(user_tier));
    assert_eq!(merged.get(&String::from("x")), Some(&String::from("cmd3")));
    assert_eq!(merged.get(&String::from("y")), Some(&String::from("cmd2")));
    assert_eq!(merged.get(&String::from("z")), None);
}

#[test]
fn map_merge_with_absent_tiers() {
    let mut system_tier: ConfigMap<String> = ConfigMap::new();
    system_tier.insert(String::from("a"), String::from("b"));
    let merged = merge_map_tiers(None, Some(system_tier), None);
    assert_eq!(merged.get(&String::from("a")), Some(&String::from("b")));
    let empty = merge_map_tiers::<String>(None, None, None);
    assert_eq!(empty.get(&String::from("a")), None);
}

#[test]
fn layout_width_2170_prepends_exactly_one_escape_key() {
    let media = vec![text_button("play")];
    let primary = vec![text_button("f1"), text_button("f2")];
    let layers = build_layers(media, primary, 2170, true);
    assert_eq!(layers.first.keys.len(), 2);
    assert_eq!(layers.second.keys.len(), 3);
    assert_eq!(layers.first.keys[0].text.as_deref(), Some("esc"));
    assert_eq!(layers.second.keys[0].text.as_deref(), Some("esc"));
    assert_eq!(layers.first.keys[0].action, ButtonAction::Key(1));
    assert_eq!(layers.first.keys[1].text.as_deref(), Some("play"));
    assert_eq!(layers.second.keys[1].text.as_deref(), Some("f1"));
}

#[test]
fn layout_width_2169_prepends_none() {
    let media = vec![text_button("play")];
    let primary = vec![text_button("f1"), text_button("f2")];
    let layers = build_layers(media, primary, 2169, true);
    assert_eq!(layers.first.keys.len(), 1);
    assert_eq!(layers.second.keys.len(), 2);
    assert_eq!(layers.first.keys[0].text.as_deref(), Some("play"));
}

#[test]
fn layout_order_follows_media_layer_default() {
    let media = vec![text_button("play")];
    let primary = vec![text_button("f1")];
    let layers = build_layers(media, primary, 100, false);
    assert_eq!(layers.first.keys[0].text.as_deref(), Some("f1"));
    assert_eq!(layers.second.keys[0].text.as_deref(), Some("play"));
}

#[test]
fn resolve_applies_the_documented_defaults() {
    let (cfg, layers) = resolve_config(
        Some(full_default_proxy()),
        None,
        None,
        ConfigMap::new(),
        ConfigMap::new(),
        ConfigMap::new(),
        None,
        100,
    )
    .unwrap();
    assert_eq!(cfg.keyboard_brightness_step, 32);
    assert!(cfg.keyboard_brightness_enabled);
    assert!(!cfg.back_button_show_outlines);
    assert_eq!(cfg.expandable_timeout_seconds, 5);
    assert_eq!(cfg.back_button_outline_color, None);
    assert_eq!(cfg.active_brightness, 128);
    assert_eq!(cfg.font_template, "sans-serif");
    // media layer first, per the flag
    assert_eq!(layers.first.keys[0].text.as_deref(), Some("play"));
    assert_eq!(layers.second.keys.len(), 2);
}

#[test]
fn resolve_fails_without_the_package_default_tier() {
    let r = resolve_config(
        None,
        Some(full_default_proxy()),
        None,
        ConfigMap::new(),
        ConfigMap::new(),
        ConfigMap::new(),
        None,
        100,
    );
    assert_eq!(r.err(), Some(ConfigError::MissingDefaultTier));
}

#[test]
fn resolve_fails_when_a_mandatory_field_is_set_nowhere() {
    let mut base = full_default_proxy();
    base.font_template = None;
    let r = resolve_config(
        Some(base),
        None,
        None,
        ConfigMap::new(),
        ConfigMap::new(),
        ConfigMap::new(),
        None,
        100,
    );
    assert_eq!(r.err(), Some(ConfigError::MissingMandatoryField));
}

#[test]
fn resolve_takes_mandatory_fields_from_override_tiers() {
    let mut base = full_default_proxy();
    base.font_template = None;
    let mut user = empty_proxy();
    user.font_template = Some(String::from("monospace"));
    let (cfg, _) = resolve_config(
        Some(base),
        None,
        Some(user),
        ConfigMap::new(),
        ConfigMap::new(),
        ConfigMap::new(),
        None,
        100,
    )
    .unwrap();
    assert_eq!(cfg.font_template, "monospace");
}

#[test]
fn classify_action_by_prefix() {
    let a = classify_action(String::from("Hyprland_Expand_ActiveWindow"), Vec::new(), None);
    assert_eq!(a, ButtonAction::HyprlandExpand(String::from("Hyprland_Expand_ActiveWindow")));

    let a = classify_action(String::from("KeyCombos_CTRL_SHIFT_I"), vec![29, 42, 23], None);
    assert_eq!(a, ButtonAction::KeyCombos(vec![29, 42, 23]));

    let a = classify_action(String::from("Expand_Media"), Vec::new(), None);
    assert_eq!(a, ButtonAction::Expand(String::from("Expand_Media")));
}

#[test]
fn classify_action_falls_back_to_key_then_command() {
    let a = classify_action(String::from("F1"), Vec::new(), Some(59));
    assert_eq!(a, ButtonAction::Key(59));

    let a = classify_action(String::from("my-launcher"), Vec::new(), None);
    assert_eq!(a, ButtonAction::Command(String::from("my-launcher")));

    // an unparsable combo name falls through to the other classes
    let a = classify_action(String::from("KeyCombos_bogus"), Vec::new(), None);
    assert_eq!(a, ButtonAction::Command(String::from("KeyCombos_bogus")));
}

#[test]
fn user_config_paths_follow_the_detected_home() {
    let env = UserEnvironment {
        username: String::from("alice"),
        uid: 1000,
        home_dir: String::from("/home/alice"),
        runtime_dir: String::from("/run/user/1000"),
        wayland_display: String::from("wayland-0"),
        user_paths: String::from(""),
    };
    let paths = detect_user_config_paths(Some(&env));
    assert_eq!(paths.config.as_deref(), Some("/home/alice/.config/tiny-dfr/config.toml"));
    assert_eq!(paths.commands.as_deref(), Some("/home/alice/.config/tiny-dfr/commands.toml"));
    assert_eq!(
        paths.expandables.as_deref(),
        Some("/home/alice/.config/tiny-dfr/expandables.toml")
    );
    assert_eq!(paths.hyprland.as_deref(), Some("/home/alice/.config/tiny-dfr/hyprland.toml"));
}

#[test]
fn user_config_paths_absent_without_a_detected_user() {
    let paths = detect_user_config_paths(None);
    assert_eq!(paths.config, None);
    assert_eq!(paths.commands, None);
    assert_eq!(paths.expandables, None);
    assert_eq!(paths.hyprland, None);
}

#[test]
fn load_commands_parses_and_layers_the_tiers() {
    let default_text = String::from("x = \"cmd1\"\n");
    let system_text = String::from("y = \"cmd2\"\n");
    let user_text = String::from("x = \"cmd3\"\n");
    let commands = load_commands(Some(&default_text), Some(&system_text), Some(&user_text));
    assert_eq!(commands.get(&String::from("x")), Some(&String::from("cmd3")));
    assert_eq!(commands.get(&String::from("y")), Some(&String::from("cmd2")));
    assert_eq!(commands.get(&String::from("cmd1")), None);
}

#[test]
fn load_commands_skips_unparsable_tiers() {
    let default_text = String::from("x = \"cmd1\"\n");
    let broken = String::from("not toml at all [");
    let commands = load_commands(Some(&default_text), Some(&broken), None);
    assert_eq!(commands.get(&String::from("x")), Some(&String::from("cmd1")));
    let none = load_commands(None, None, None);
    assert_eq!(none.get(&String::from("x")), None);
}
