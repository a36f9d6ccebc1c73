//! Layered configuration: raw tiers, per-field and per-key merging,
//! defaulting, and key-layout construction.
//!
//! Configuration comes from up to three ranked tiers — package default,
//! system override, per-user override — each an optionally present,
//! optionally partial document.  The caller reads and parses the files
//! and hands the raw tiers in; the functions here merge them, apply the
//! documented defaults, and build the effective configuration together
//! with the two key layouts that are always replaced as a pair.

use crate::cfgmap::ConfigMap;
use crate::strutil::is_prefix_of;
use crate::strutil::str_starts_with;
use vstd::prelude::*;
use vstd::string::StringExecFns;

verus! {

/// Strip width (px) from which layouts get a synthetic escape key.
pub const ESCAPE_KEY_WIDTH: u16 = 2170;

/// Input key code carried by the synthetic escape entry.
pub const KEY_CODE_ESC: u16 = 1;

/// Keyboard brightness step applied when no tier sets one.
pub const DEFAULT_KEYBOARD_BRIGHTNESS_STEP: u32 = 32;

/// Expandable-layer timeout (seconds) applied when no tier sets one.
pub const DEFAULT_EXPANDABLE_TIMEOUT_SECONDS: u32 = 5;

// ---------------------------------------------------------------------
// Button declarations
// ---------------------------------------------------------------------

/// A button color.  The channels are carried as the raw bit patterns
/// of the caller's floating-point channel values; the library stores
/// and moves them and never interprets them.
#[derive(Clone, Copy, Debug, PartialEq, Eq, Structural)]
pub enum ButtonColor {
    Grayscale(u64),
    Rgb(u64, u64, u64),
}

/// What pressing a button does.  Key codes are plain input key codes.
#[derive(Clone, Debug, PartialEq)]
pub enum ButtonAction {
    Key(u16),
    Command(String),
    Expand(String),
    HyprlandExpand(String),
    KeyCombos(Vec<u16>),
}

/// Classification of a raw action string, given the caller's parse of
/// a combo name list and its lookup of the string as a key name.
pub open spec fn spec_classify_action(
    s: String,
    combo_keys: Vec<u16>,
    key_code: Option<u16>,
) -> ButtonAction {
    if is_prefix_of("Hyprland_Expand_"@, s@) {
        ButtonAction::HyprlandExpand(s)
    } else if is_prefix_of("KeyCombos_"@, s@) && combo_keys@.len() > 0 {
        ButtonAction::KeyCombos(combo_keys)
    } else if is_prefix_of("Expand_"@, s@) {
        ButtonAction::Expand(s)
    } else {
        match key_code {
            Some(k) => ButtonAction::Key(k),
            None => ButtonAction::Command(s),
        }
    }
}

/// Classify a raw action string from a configuration file.
/// `combo_keys` is the caller's parse of the string as a key-combo
/// name list (empty when it is none), consulted only for strings that
/// announce one; `key_code` is the caller's lookup of the whole string
/// as a key name.  Anything that matches nothing is a command.
pub fn classify_action(s: String, combo_keys: Vec<u16>, key_code: Option<u16>) -> (r: ButtonAction)
    ensures
        r == spec_classify_action(s, combo_keys, key_code),
{
    if str_starts_with(s.as_str(), "Hyprland_Expand_") {
        ButtonAction::HyprlandExpand(s)
    } else if str_starts_with(s.as_str(), "KeyCombos_") && combo_keys.len() > 0 {
        ButtonAction::KeyCombos(combo_keys)
    } else if str_starts_with(s.as_str(), "Expand_") {
        ButtonAction::Expand(s)
    } else {
        match key_code {
            Some(k) => ButtonAction::Key(k),
            None => ButtonAction::Command(s),
        }
    }
}

/// One declared button.
#[derive(Clone, Debug, PartialEq)]
pub struct ButtonConfig {
    pub icon: Option<String>,
    pub text: Option<String>,
    pub theme: Option<String>,
    pub time: Option<String>,
    pub battery: Option<String>,
    pub locale: Option<String>,
    pub action: ButtonAction,
    pub stretch: Option<usize>,
    pub show_button_outlines: Option<bool>,
    pub button_outlines_color: Option<ButtonColor>,
    pub show_app_icon_alongside_text: Option<bool>,
    pub app_icon: Option<String>,
}

/// A per-app expansion rule.
#[derive(Clone, Debug, PartialEq)]
pub struct HyprlandExpandConfig {
    pub class: String,
    pub button_title: Option<String>,
    pub show_app_icon_alongside_text: Option<bool>,
    pub app_icon: Option<String>,
    pub layer_keys: Vec<ButtonConfig>,
}

// ---------------------------------------------------------------------
// User environment
// ---------------------------------------------------------------------

/// Snapshot of the detected desktop user's environment.
#[derive(Clone, Debug)]
pub struct UserEnvironment {
    pub username: String,
    pub uid: u32,
    pub home_dir: String,
    pub runtime_dir: String,
    pub wayland_display: String,
    pub user_paths: String,
}

/// Locations of the per-user override files, when a desktop user is
/// known.
#[derive(Clone, Debug, Default)]
pub struct UserConfigPaths {
    pub config: Option<String>,
    pub commands: Option<String>,
    pub expandables: Option<String>,
    pub hyprland: Option<String>,
}

/// Per-user override paths under the detected desktop user's home
/// directory.  The detected-user cache is handed in by the caller; as
/// long as no desktop user is known, all paths are absent and the
/// per-user tier simply does not exist.
pub fn detect_user_config_paths(env: Option<&UserEnvironment>) -> (r: UserConfigPaths)
    ensures
        match env {
            Some(e) => {
                &&& r.config matches Some(p) && p@ == e.home_dir@
                    + "/.config/tiny-dfr/config.toml"@
                &&& r.commands matches Some(p) && p@ == e.home_dir@
                    + "/.config/tiny-dfr/commands.toml"@
                &&& r.expandables matches Some(p) && p@ == e.home_dir@
                    + "/.config/tiny-dfr/expandables.toml"@
                &&& r.hyprland matches Some(p) && p@ == e.home_dir@
                    + "/.config/tiny-dfr/hyprland.toml"@
            },
            None => {
                &&& r.config is None
                &&& r.commands is None
                &&& r.expandables is None
                &&& r.hyprland is None
            },
        },
{
    match env {
        Some(e) => UserConfigPaths {
            config: Some(e.home_dir.clone().concat("/.config/tiny-dfr/config.toml")),
            commands: Some(e.home_dir.clone().concat("/.config/tiny-dfr/commands.toml")),
            expandables: Some(e.home_dir.clone().concat("/.config/tiny-dfr/expandables.toml")),
            hyprland: Some(e.home_dir.clone().concat("/.config/tiny-dfr/hyprland.toml")),
        },
        None => UserConfigPaths { config: None, commands: None, expandables: None, hyprland: None },
    }
}

// ---------------------------------------------------------------------
// The command map
// ---------------------------------------------------------------------

/// What parsing a text as a TOML document of string values yields:
/// nothing when it is not such a document, else its key/value table.
pub uninterp spec fn toml_string_table(s: Seq<char>) -> Option<Map<Seq<char>, Seq<char>>>;

/// The loaded table mirrors the parsed one, key for key and value for
/// value.
pub open spec fn table_matches(m: Map<Seq<char>, String>, t: Map<Seq<char>, Seq<char>>) -> bool {
    &&& forall|k: Seq<char>| #[trigger] t.contains_key(k) ==> m.contains_key(k)
    &&& forall|k: Seq<char>| #[trigger] m.contains_key(k) ==> t.contains_key(k) && m[k]@ == t[k]
}

/// Relies on toml::from_str::<HashMap<String, String>>: interprets the
/// text as a TOML document whose values are all strings; the outcome
/// is a function of the text alone.
#[verifier::external_body]
fn parse_string_table(s: &str) -> (r: Option<ConfigMap<String>>)
    ensures
        r is Some <==> toml_string_table(s@) is Some,
        r matches Some(m) ==> table_matches(m@, toml_string_table(s@)->0),
{
    match toml::from_str::<std::collections::HashMap<String, String>>(s) {
        Ok(h) => Some(ConfigMap { entries: h.into_iter().collect() }),
        Err(_) => None,
    }
}

/// The table one tier contributes to the command map: what its text
/// parses to, or nothing when the file was absent or does not parse.
pub open spec fn tier_table(t: Option<&String>) -> Map<Seq<char>, Seq<char>> {
    match t {
        Some(s) => match toml_string_table(s@) {
            Some(m) => m,
            None => Map::empty(),
        },
        None => Map::empty(),
    }
}

/// Mirroring is preserved by layering: tables that mirror their parses
/// union into a table that mirrors the unioned parses.
proof fn lemma_table_matches_union(
    m1: Map<Seq<char>, String>,
    t1: Map<Seq<char>, Seq<char>>,
    m2: Map<Seq<char>, String>,
    t2: Map<Seq<char>, Seq<char>>,
)
    requires
        table_matches(m1, t1),
        table_matches(m2, t2),
    ensures
        table_matches(m1.union_prefer_right(m2), t1.union_prefer_right(t2)),
{
}

/// Load the command map from the three documents the caller read:
/// package default, system override, per-user override, later tiers
/// winning per key.  A tier whose file was absent or whose text is not
/// a TOML table of strings is silently skipped.
pub fn load_commands(
    default_text: Option<&String>,
    system_text: Option<&String>,
    user_text: Option<&String>,
) -> (r: ConfigMap<String>)
    ensures
        table_matches(
            r@,
            tier_table(default_text).union_prefer_right(tier_table(system_text))
                .union_prefer_right(tier_table(user_text)),
        ),
{
    let ghost td = tier_table(default_text);
    let ghost ts = tier_table(system_text);
    let ghost tu = tier_table(user_text);
    let mut r: ConfigMap<String> = ConfigMap::new();
    let p = match default_text {
        Some(s) => parse_string_table(s.as_str()),
        None => None,
    };
    match p {
        Some(m) => {
            proof {
                assert(table_matches(r@, Map::empty()));
            }
            let ghost m1 = m@;
            r.merge_from(m);
            proof {
                assert(r@ =~= m1);
            }
        },
        None => {
            proof {
                assert(td =~= Map::<Seq<char>, Seq<char>>::empty());
                assert(table_matches(r@, td));
            }
        },
    }
    proof {
        assert(table_matches(r@, td));
    }
    let p = match system_text {
        Some(s) => parse_string_table(s.as_str()),
        None => None,
    };
    match p {
        Some(m) => {
            proof {
                lemma_table_matches_union(r@, td, m@, ts);
            }
            r.merge_from(m);
        },
        None => {
            proof {
                assert(td.union_prefer_right(ts) =~= td);
            }
        },
    }
    proof {
        assert(table_matches(r@, td.union_prefer_right(ts)));
    }
    let p = match user_text {
        Some(s) => parse_string_table(s.as_str()),
        None => None,
    };
    match p {
        Some(m) => {
            proof {
                lemma_table_matches_union(r@, td.union_prefer_right(ts), m@, tu);
            }
            r.merge_from(m);
        },
        None => {
            proof {
                assert(td.union_prefer_right(ts).union_prefer_right(tu) =~= td.union_prefer_right(
                    ts,
                ));
            }
        },
    }
    r
}

// ---------------------------------------------------------------------
// Raw tiers and the per-field merge
// ---------------------------------------------------------------------

/// One tier of the main configuration document, before merging: every
/// field optional.
#[derive(Clone, Debug)]
pub struct ConfigProxy {
    pub media_layer_default: Option<bool>,
    pub show_button_outlines: Option<bool>,
    pub enable_pixel_shift: Option<bool>,
    pub font_template: Option<String>,
    pub adaptive_brightness: Option<bool>,
    pub active_brightness: Option<u32>,
    pub primary_layer_keys: Option<Vec<ButtonConfig>>,
    pub media_layer_keys: Option<Vec<ButtonConfig>>,
    pub keyboard_brightness_step: Option<u32>,
    pub keyboard_brightness_enabled: Option<bool>,
    pub back_button_show_outlines: Option<bool>,
    pub back_button_outline_color: Option<ButtonColor>,
    pub expandable_timeout_seconds: Option<u32>,
}

/// The override value where present, else the base value.
pub open spec fn spec_or<T>(over: Option<T>, base: Option<T>) -> Option<T> {
    if over is Some {
        over
    } else {
        base
    }
}

/// Field-by-field merge of one override tier over a base tier.
pub open spec fn spec_merge_proxy(base: ConfigProxy, over: ConfigProxy) -> ConfigProxy {
    ConfigProxy {
        media_layer_default: spec_or(over.media_layer_default, base.media_layer_default),
        show_button_outlines: spec_or(over.show_button_outlines, base.show_button_outlines),
        enable_pixel_shift: spec_or(over.enable_pixel_shift, base.enable_pixel_shift),
        font_template: spec_or(over.font_template, base.font_template),
        adaptive_brightness: spec_or(over.adaptive_brightness, base.adaptive_brightness),
        active_brightness: spec_or(over.active_brightness, base.active_brightness),
        primary_layer_keys: spec_or(over.primary_layer_keys, base.primary_layer_keys),
        media_layer_keys: spec_or(over.media_layer_keys, base.media_layer_keys),
        keyboard_brightness_step: spec_or(
            over.keyboard_brightness_step,
            base.keyboard_brightness_step,
        ),
        keyboard_brightness_enabled: spec_or(
            over.keyboard_brightness_enabled,
            base.keyboard_brightness_enabled,
        ),
        back_button_show_outlines: spec_or(
            over.back_button_show_outlines,
            base.back_button_show_outlines,
        ),
        back_button_outline_color: spec_or(
            over.back_button_outline_color,
            base.back_button_outline_color,
        ),
        expandable_timeout_seconds: spec_or(
            over.expandable_timeout_seconds,
            base.expandable_timeout_seconds,
        ),
    }
}

/// The tier where present, else the tier that overrides nothing.
pub open spec fn spec_tier(t: Option<ConfigProxy>) -> ConfigProxy {
    match t {
        Some(p) => p,
        None => ConfigProxy {
            media_layer_default: None,
            show_button_outlines: None,
            enable_pixel_shift: None,
            font_template: None,
            adaptive_brightness: None,
            active_brightness: None,
            primary_layer_keys: None,
            media_layer_keys: None,
            keyboard_brightness_step: None,
            keyboard_brightness_enabled: None,
            back_button_show_outlines: None,
            back_button_outline_color: None,
            expandable_timeout_seconds: None,
        },
    }
}

fn opt_or<T>(over: Option<T>, base: Option<T>) -> (r: Option<T>)
    ensures
        r == spec_or(over, base),
{
    match over {
        Some(v) => Some(v),
        None => base,
    }
}

/// Merge one override tier over a base tier: for every field the
/// override's value wins where it is present.
pub fn merge_config_over(base: ConfigProxy, over: ConfigProxy) -> (r: ConfigProxy)
    ensures
        r == spec_merge_proxy(base, over),
{
    ConfigProxy {
        media_layer_default: opt_or(over.media_layer_default, base.media_layer_default),
        show_button_outlines: opt_or(over.show_button_outlines, base.show_button_outlines),
        enable_pixel_shift: opt_or(over.enable_pixel_shift, base.enable_pixel_shift),
        font_template: opt_or(over.font_template, base.font_template),
        adaptive_brightness: opt_or(over.adaptive_brightness, base.adaptive_brightness),
        active_brightness: opt_or(over.active_brightness, base.active_brightness),
        primary_layer_keys: opt_or(over.primary_layer_keys, base.primary_layer_keys),
        media_layer_keys: opt_or(over.media_layer_keys, base.media_layer_keys),
        keyboard_brightness_step: opt_or(
            over.keyboard_brightness_step,
            base.keyboard_brightness_step,
        ),
        keyboard_brightness_enabled: opt_or(
            over.keyboard_brightness_enabled,
            base.keyboard_brightness_enabled,
        ),
        back_button_show_outlines: opt_or(
            over.back_button_show_outlines,
            base.back_button_show_outlines,
        ),
        back_button_outline_color: opt_or(
            over.back_button_outline_color,
            base.back_button_outline_color,
        ),
        expandable_timeout_seconds: opt_or(
            over.expandable_timeout_seconds,
            base.expandable_timeout_seconds,
        ),
    }
}

/// Merge the three tiers of the main configuration, right-biased and
/// per field: per-user wins over system, system over package default.
/// An absent tier overrides nothing.
pub fn merge_config_tiers(
    base: ConfigProxy,
    system: Option<ConfigProxy>,
    user: Option<ConfigProxy>,
) -> (r: ConfigProxy)
    ensures
        r == spec_merge_proxy(spec_merge_proxy(base, spec_tier(system)), spec_tier(user)),
{
    let m1 = match system {
        Some(p) => merge_config_over(base, p),
        None => base,
    };
    match user {
        Some(p) => merge_config_over(m1, p),
        None => m1,
    }
}

// ---------------------------------------------------------------------
// Effective configuration and layouts
// ---------------------------------------------------------------------

/// One ordered key layout.
#[derive(Clone, Debug, PartialEq)]
pub struct FunctionLayer {
    pub keys: Vec<ButtonConfig>,
}

/// The two key layouts; `first` is the layer shown by default.  Always
/// replaced together with the effective configuration, never observed
/// in a mismatched pairing.
#[derive(Clone, Debug, PartialEq)]
pub struct LayoutLayers {
    pub first: FunctionLayer,
    pub second: FunctionLayer,
}

/// The merged, fully-defaulted configuration.  The font is carried as
/// the template string; resolving it to a loadable face is the
/// renderer's concern.
pub struct Config {
    pub show_button_outlines: bool,
    pub enable_pixel_shift: bool,
    pub font_template: String,
    pub adaptive_brightness: bool,
    pub active_brightness: u32,
    pub keyboard_brightness_step: u32,
    pub keyboard_brightness_enabled: bool,
    pub commands: ConfigMap<String>,
    pub user_env: Option<UserEnvironment>,
    pub back_button_show_outlines: bool,
    pub back_button_outline_color: Option<ButtonColor>,
    pub expandable_timeout_seconds: u32,
    pub expandables: ConfigMap<Vec<ButtonConfig>>,
    pub hyprland_expandables: ConfigMap<Vec<HyprlandExpandConfig>>,
}

/// Failure of configuration resolution.
#[derive(Clone, Copy, Debug, PartialEq, Eq, Structural)]
pub enum ConfigError {
    /// The package-default document is missing or unreadable; that
    /// tier is mandatory.
    MissingDefaultTier,
    /// A mandatory field is set by no tier.
    MissingMandatoryField,
}

/// The fields some tier must set for a valid configuration.
pub open spec fn mandatory_fields_present(p: ConfigProxy) -> bool {
    &&& p.media_layer_default is Some
    &&& p.show_button_outlines is Some
    &&& p.enable_pixel_shift is Some
    &&& p.font_template is Some
    &&& p.adaptive_brightness is Some
    &&& p.active_brightness is Some
    &&& p.primary_layer_keys is Some
    &&& p.media_layer_keys is Some
}

/// The synthetic escape entry prepended to wide strips.
pub open spec fn is_escape_button(b: ButtonConfig) -> bool {
    &&& b.icon is None
    &&& b.text matches Some(t) && t@ == "esc"@
    &&& b.theme is None
    &&& b.time is None
    &&& b.battery is None
    &&& b.locale is None
    &&& b.action == ButtonAction::Key(KEY_CODE_ESC)
    &&& b.stretch is None
    &&& b.show_button_outlines is None
    &&& b.button_outlines_color is None
    &&& b.show_app_icon_alongside_text is None
    &&& b.app_icon is None
}

/// `out` is `orig` with exactly one synthetic escape key prepended.
pub open spec fn esc_prepended(orig: Seq<ButtonConfig>, out: Seq<ButtonConfig>) -> bool {
    &&& out.len() == orig.len() + 1
    &&& is_escape_button(out[0])
    &&& out.skip(1) == orig
}

/// How a built layer relates to its declared key sequence: unchanged
/// below the width threshold, escape-prepended at or above it.
pub open spec fn layer_built(orig: Seq<ButtonConfig>, out: Seq<ButtonConfig>, width: u16) -> bool {
    if width >= ESCAPE_KEY_WIDTH {
        esc_prepended(orig, out)
    } else {
        out == orig
    }
}

fn escape_button() -> (b: ButtonConfig)
    ensures
        is_escape_button(b),
{
    ButtonConfig {
        icon: None,
        text: Some(String::from_str("esc")),
        theme: None,
        time: None,
        battery: None,
        locale: None,
        action: ButtonAction::Key(KEY_CODE_ESC),
        stretch: None,
        show_button_outlines: None,
        button_outlines_color: None,
        show_app_icon_alongside_text: None,
        app_icon: None,
    }
}

/// Build the two layers from the declared key sequences.  At or above
/// the width threshold one synthetic escape key is prepended to both;
/// `media_layer_default` decides which layer comes first.
pub fn build_layers(
    media_layer_keys: Vec<ButtonConfig>,
    primary_layer_keys: Vec<ButtonConfig>,
    width: u16,
    media_layer_default: bool,
) -> (r: LayoutLayers)
    ensures
        media_layer_default ==> layer_built(media_layer_keys@, r.first.keys@, width) && layer_built(
            primary_layer_keys@,
            r.second.keys@,
            width,
        ),
        !media_layer_default ==> layer_built(primary_layer_keys@, r.first.keys@, width)
            && layer_built(media_layer_keys@, r.second.keys@, width),
{
    let mut media = media_layer_keys;
    let mut primary = primary_layer_keys;
    if width >= ESCAPE_KEY_WIDTH {
        let ghost m0 = media@;
        let ghost p0 = primary@;
        media.insert(0, escape_button());
        primary.insert(0, escape_button());
        proof {
            assert(media@.skip(1) =~= m0);
            assert(primary@.skip(1) =~= p0);
        }
    }
    if media_layer_default {
        LayoutLayers {
            first: FunctionLayer { keys: media },
            second: FunctionLayer { keys: primary },
        }
    } else {
        LayoutLayers {
            first: FunctionLayer { keys: primary },
            second: FunctionLayer { keys: media },
        }
    }
}

/// How an effective configuration relates to the merged tier `m` and
/// the artifacts handed in alongside it.
pub open spec fn resolved_from(
    cfg: Config,
    m: ConfigProxy,
    commands: ConfigMap<String>,
    expandables: ConfigMap<Vec<ButtonConfig>>,
    hyprland_expandables: ConfigMap<Vec<HyprlandExpandConfig>>,
    user_env: Option<UserEnvironment>,
) -> bool {
    &&& cfg.show_button_outlines == m.show_button_outlines->0
    &&& cfg.enable_pixel_shift == m.enable_pixel_shift->0
    &&& cfg.font_template == m.font_template->0
    &&& cfg.adaptive_brightness == m.adaptive_brightness->0
    &&& cfg.active_brightness == m.active_brightness->0
    &&& cfg.keyboard_brightness_step == (match m.keyboard_brightness_step {
        Some(v) => v,
        None => DEFAULT_KEYBOARD_BRIGHTNESS_STEP,
    })
    &&& cfg.keyboard_brightness_enabled == (match m.keyboard_brightness_enabled {
        Some(v) => v,
        None => true,
    })
    &&& cfg.back_button_show_outlines == (match m.back_button_show_outlines {
        Some(v) => v,
        None => false,
    })
    &&& cfg.back_button_outline_color == m.back_button_outline_color
    &&& cfg.expandable_timeout_seconds == (match m.expandable_timeout_seconds {
        Some(v) => v,
        None => DEFAULT_EXPANDABLE_TIMEOUT_SECONDS,
    })
    &&& cfg.commands == commands
    &&& cfg.expandables == expandables
    &&& cfg.hyprland_expandables == hyprland_expandables
    &&& cfg.user_env == user_env
}

/// Resolve the effective configuration from the three raw tiers and
/// the already-merged map artifacts.  Fails exactly when the
/// package-default tier is absent or a mandatory field is set by no
/// tier; optional fields fall back to their documented defaults.
pub fn resolve_config(
    default_tier: Option<ConfigProxy>,
    system_tier: Option<ConfigProxy>,
    user_tier: Option<ConfigProxy>,
    commands: ConfigMap<String>,
    expandables: ConfigMap<Vec<ButtonConfig>>,
    hyprland_expandables: ConfigMap<Vec<HyprlandExpandConfig>>,
    user_env: Option<UserEnvironment>,
    width: u16,
) -> (r: Result<(Config, LayoutLayers), ConfigError>)
    ensures
        default_tier is None ==> r == Err::<(Config, LayoutLayers), ConfigError>(
            ConfigError::MissingDefaultTier,
        ),
        default_tier matches Some(d) ==> ({
            let m = spec_merge_proxy(spec_merge_proxy(d, spec_tier(system_tier)), spec_tier(user_tier));
            if mandatory_fields_present(m) {
                r matches Ok(p) && resolved_from(
                    p.0,
                    m,
                    commands,
                    expandables,
                    hyprland_expandables,
                    user_env,
                ) && (if m.media_layer_default->0 {
                    layer_built(m.media_layer_keys->0@, p.1.first.keys@, width) && layer_built(
                        m.primary_layer_keys->0@,
                        p.1.second.keys@,
                        width,
                    )
                } else {
                    layer_built(m.primary_layer_keys->0@, p.1.first.keys@, width) && layer_built(
                        m.media_layer_keys->0@,
                        p.1.second.keys@,
                        width,
                    )
                })
            } else {
                r == Err::<(Config, LayoutLayers), ConfigError>(ConfigError::MissingMandatoryField)
            }
        }),
{
    let d = match default_tier {
        Some(d) => d,
        None => {
            return Err(ConfigError::MissingDefaultTier);
        },
    };
    let merged = merge_config_tiers(d, system_tier, user_tier);
    let media_layer_default = match merged.media_layer_default {
        Some(v) => v,
        None => {
            return Err(ConfigError::MissingMandatoryField);
        },
    };
    let show_button_outlines = match merged.show_button_outlines {
        Some(v) => v,
        None => {
            return Err(ConfigError::MissingMandatoryField);
        },
    };
    let enable_pixel_shift = match merged.enable_pixel_shift {
        Some(v) => v,
        None => {
            return Err(ConfigError::MissingMandatoryField);
        },
    };
    let font_template = match merged.font_template {
        Some(v) => v,
        None => {
            return Err(ConfigError::MissingMandatoryField);
        },
    };
    let adaptive_brightness = match merged.adaptive_brightness {
        Some(v) => v,
        None => {
            return Err(ConfigError::MissingMandatoryField);
        },
    };
    let active_brightness = match merged.active_brightness {
        Some(v) => v,
        None => {
            return Err(ConfigError::MissingMandatoryField);
        },
    };
    let primary_layer_keys = match merged.primary_layer_keys {
        Some(v) => v,
        None => {
            return Err(ConfigError::MissingMandatoryField);
        },
    };
    let media_layer_keys = match merged.media_layer_keys {
        Some(v) => v,
        None => {
            return Err(ConfigError::MissingMandatoryField);
        },
    };
    let layers = build_layers(media_layer_keys, primary_layer_keys, width, media_layer_default);
    let cfg = Config {
        show_button_outlines,
        enable_pixel_shift,
        font_template,
        adaptive_brightness,
        active_brightness,
        keyboard_brightness_step: match merged.keyboard_brightness_step {
            Some(v) => v,
            None => DEFAULT_KEYBOARD_BRIGHTNESS_STEP,
        },
        keyboard_brightness_enabled: match merged.keyboard_brightness_enabled {
            Some(v) => v,
            None => true,
        },
        commands,
        user_env,
        back_button_show_outlines: match merged.back_button_show_outlines {
            Some(v) => v,
            None => false,
        },
        back_button_outline_color: merged.back_button_outline_color,
        expandable_timeout_seconds: match merged.expandable_timeout_seconds {
            Some(v) => v,
            None => DEFAULT_EXPANDABLE_TIMEOUT_SECONDS,
        },
        expandables,
        hyprland_expandables,
    };
    Ok((cfg, layers))
}

} // verus!

