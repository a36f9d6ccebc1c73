//! Config manager: bookkeeping of the edge-triggered override watches.
//!
//! Each override path gets one one-shot watch: it fires once on a
//! change and thereby disarms itself, so it must be re-armed after
//! every fire.  The caller owns the notification facility; it hands in
//! the descriptors that arming produced and the descriptors of the
//! events it drained, and this module decides when to arm and when a
//! reload must happen.
//!
//! One poll of the caller's loop runs: arm the system watch if it is
//! unarmed; if the user watch is unarmed, arm it (its path may become
//! known only after startup) and report no change for this cycle
//! without draining events — an event pending on the system watch is
//! then deferred to the next poll, not lost; otherwise drain events and
//! reload exactly when one of them fired on a tracked watch, then
//! re-arm both watches and swap in the freshly resolved configuration
//! and layouts together.

use crate::cfgmap::ConfigMap;
use crate::config::Config;
use crate::config::ConfigError;
use crate::config::ConfigProxy;
use crate::config::ButtonConfig;
use crate::config::HyprlandExpandConfig;
use crate::config::LayoutLayers;
use crate::config::UserEnvironment;
use crate::config::resolve_config;
use vstd::prelude::*;

verus! {

/// Watch bookkeeping for the two override paths.
pub struct ConfigManager {
    /// Armed watch descriptor on the system-tier override path.
    pub watch_desc_etc: Option<u64>,
    /// Armed watch descriptor on the per-user override path.
    pub watch_desc_user: Option<u64>,
}

impl ConfigManager {
    /// A descriptor belongs to one of the tracked, armed watches.
    pub open spec fn watches(&self, wd: u64) -> bool {
        self.watch_desc_etc == Some(wd) || self.watch_desc_user == Some(wd)
    }

    /// Reload must happen: some drained event fired on a tracked watch.
    pub open spec fn any_fired(&self, fired: Seq<u64>) -> bool {
        exists|i: int| 0 <= i < fired.len() && self.watches(fired[i])
    }

    /// Start from the arm results of construction time; either path
    /// may have been absent, leaving that watch unarmed.
    pub fn new(etc_wd: Option<u64>, user_wd: Option<u64>) -> (r: ConfigManager)
        ensures
            r.watch_desc_etc == etc_wd,
            r.watch_desc_user == user_wd,
    {
        ConfigManager { watch_desc_etc: etc_wd, watch_desc_user: user_wd }
    }

    /// The system watch is unarmed and must be armed before reading
    /// events.
    pub fn needs_arm_etc(&self) -> (r: bool)
        ensures
            r == (self.watch_desc_etc is None),
    {
        self.watch_desc_etc.is_none()
    }

    /// The user watch is unarmed: the caller arms it and reports no
    /// change for this poll cycle, without draining events.
    pub fn needs_arm_user(&self) -> (r: bool)
        ensures
            r == (self.watch_desc_user is None),
    {
        self.watch_desc_user.is_none()
    }

    /// Record the result of arming the system watch (absent when the
    /// path does not exist).
    pub fn set_etc_watch(&mut self, wd: Option<u64>)
        ensures
            final(self).watch_desc_etc == wd,
            final(self).watch_desc_user == old(self).watch_desc_user,
    {
        self.watch_desc_etc = wd;
    }

    /// Record the result of arming the user watch.
    pub fn set_user_watch(&mut self, wd: Option<u64>)
        ensures
            final(self).watch_desc_user == wd,
            final(self).watch_desc_etc == old(self).watch_desc_etc,
    {
        self.watch_desc_user = wd;
    }

    /// Decide whether the drained events demand a reload: exactly when
    /// one of them fired on a tracked watch.  On a reload the caller
    /// resolves the configuration anew, swaps it in together with the
    /// layouts, and re-arms both watches — any fire disarms the
    /// one-shot mechanism, whichever path fired.
    pub fn update_config(&self, fired: &Vec<u64>) -> (r: bool)
        ensures
            r == self.any_fired(fired@),
    {
        let n = fired.len();
        let mut i: usize = 0;
        while i < n
            invariant
                i <= n,
                n == fired@.len(),
                forall|j: int| 0 <= j < i ==> !self.watches(fired@[j]),
            decreases n - i,
        {
            let wd = fired[i];
            let etc_hit = match self.watch_desc_etc {
                Some(e) => e == wd,
                None => false,
            };
            let user_hit = match self.watch_desc_user {
                Some(u) => u == wd,
                None => false,
            };
            if etc_hit || user_hit {
                return true;
            }
            i += 1;
        }
        false
    }

    /// Resolve the effective configuration and layouts from the raw
    /// tiers the caller read, exactly as at startup.
    pub fn load_config(
        &self,
        default_tier: Option<ConfigProxy>,
        system_tier: Option<ConfigProxy>,
        user_tier: Option<ConfigProxy>,
        commands: ConfigMap<String>,
        expandables: ConfigMap<Vec<ButtonConfig>>,
        hyprland_expandables: ConfigMap<Vec<HyprlandExpandConfig>>,
        user_env: Option<UserEnvironment>,
        width: u16,
    ) -> (r: Result<(Config, LayoutLayers), ConfigError>)
        ensures
            default_tier is None ==> r == Err::<(Config, LayoutLayers), ConfigError>(
                ConfigError::MissingDefaultTier,
            ),
            default_tier matches Some(d) ==> ({
                let m = crate::config::spec_merge_proxy(
                    crate::config::spec_merge_proxy(d, crate::config::spec_tier(system_tier)),
                    crate::config::spec_tier(user_tier),
                );
                if crate::config::mandatory_fields_present(m) {
                    r matches Ok(p) && crate::config::resolved_from(
                        p.0,
                        m,
                        commands,
                        expandables,
                        hyprland_expandables,
                        user_env,
                    ) && (if m.media_layer_default->0 {
                        crate::config::layer_built(m.media_layer_keys->0@, p.1.first.keys@, width)
                            && crate::config::layer_built(
                            m.primary_layer_keys->0@,
                            p.1.second.keys@,
                            width,
                        )
                    } else {
                        crate::config::layer_built(m.primary_layer_keys->0@, p.1.first.keys@, width)
                            && crate::config::layer_built(
                            m.media_layer_keys->0@,
                            p.1.second.keys@,
                            width,
                        )
                    })
                } else {
                    r == Err::<(Config, LayoutLayers), ConfigError>(
                        ConfigError::MissingMandatoryField,
                    )
                }
            }),
    {
        resolve_config(
            default_tier,
            system_tier,
            user_tier,
            commands,
            expandables,
            hyprland_expandables,
            user_env,
            width,
        )
    }
}

/// Law: a touch of any unwatched path — every drained descriptor
/// outside the tracked watches — produces no reload.
pub proof fn lemma_unwatched_no_reload(cm: ConfigManager, fired: Seq<u64>)
    requires
        forall|i: int| 0 <= i < fired.len() ==> !cm.watches(fired[i]),
    ensures
        !cm.any_fired(fired),
{
}

} // verus!
