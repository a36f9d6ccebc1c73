//! Backlight & activity controller.
//!
//! Holds the verified core of the strip-backlight subsystem: matching of
//! candidate device names, the bounded discovery retry policy, parsing of
//! sysfs brightness attributes, and the three-state idle timeout machine
//! that turns activity and lid signals into a target brightness.  The
//! caller performs the actual directory scans, attribute reads and the
//! one write syscall this machine decides on.

use crate::config::Config;
use crate::strutil::{contains_sub, str_contains};
use crate::TIMEOUT_MS;
use vstd::prelude::*;

verus! {

/// Scale ceiling of the reference (main display) backlight, used by the
/// caller when mapping a display reading onto the strip.
pub const MAX_DISPLAY_BRIGHTNESS: u32 = 509;

/// Hard ceiling of the strip backlight, and the fixed nominal value
/// reported in degraded mode.
pub const MAX_TOUCH_BAR_BRIGHTNESS: u32 = 255;

/// Idle time after which the strip dims, in milliseconds.
/// A fixed multiple of the caller's poll interval.
pub const BRIGHTNESS_DIM_TIMEOUT: u64 = TIMEOUT_MS * 3;

/// Idle time after which the strip turns off, in milliseconds.
/// A fixed multiple of the caller's poll interval.
pub const BRIGHTNESS_OFF_TIMEOUT: u64 = TIMEOUT_MS * 6;

/// Brightness value written while the strip is dimmed.
pub const DIMMED_BRIGHTNESS: u32 = 1;

/// Extra scan attempts granted to strip-device discovery after the
/// first failure; the device node may appear with a delay after resume.
pub const DISCOVERY_MAX_RETRIES: u32 = 5;

// ---------------------------------------------------------------------
// Device-name matching
// ---------------------------------------------------------------------

/// A directory entry names the controllable strip backlight.
pub open spec fn is_strip_backlight_name(name: Seq<char>) -> bool {
    ||| contains_sub(name, "display-pipe"@)
    ||| contains_sub(name, "228600000.dsi.0"@)
    ||| contains_sub(name, "appletb_backlight"@)
}

/// A directory entry names the built-in display backlight.
pub open spec fn is_display_backlight_name(name: Seq<char>) -> bool {
    ||| contains_sub(name, "apple-panel-bl"@)
    ||| contains_sub(name, "gmux_backlight"@)
    ||| contains_sub(name, "intel_backlight"@)
    ||| contains_sub(name, "acpi_video0"@)
}

/// First entry of a hardware-class directory listing that names the
/// strip backlight, if any.
pub fn find_backlight(entries: &Vec<String>) -> (r: Option<usize>)
    ensures
        match r {
            Some(i) => i < entries@.len() && is_strip_backlight_name(entries@[i as int]@)
                && (forall|j: int| 0 <= j < i ==> !is_strip_backlight_name(entries@[j]@)),
            None => forall|j: int|
                0 <= j < entries@.len() ==> !is_strip_backlight_name(entries@[j]@),
        },
{
    let n = entries.len();
    let mut i: usize = 0;
    while i < n
        invariant
            n == entries@.len(),
            i <= n,
            forall|j: int| 0 <= j < i ==> !is_strip_backlight_name(entries@[j]@),
        decreases n - i,
    {
        let name = entries[i].as_str();
        if str_contains(name, "display-pipe") || str_contains(name, "228600000.dsi.0")
            || str_contains(name, "appletb_backlight") {
            return Some(i);
        }
        i += 1;
    }
    None
}

/// First entry of a hardware-class directory listing that names the
/// built-in display backlight, if any.
pub fn find_display_backlight(entries: &Vec<String>) -> (r: Option<usize>)
    ensures
        match r {
            Some(i) => i < entries@.len() && is_display_backlight_name(entries@[i as int]@)
                && (forall|j: int| 0 <= j < i ==> !is_display_backlight_name(entries@[j]@)),
            None => forall|j: int|
                0 <= j < entries@.len() ==> !is_display_backlight_name(entries@[j]@),
        },
{
    let n = entries.len();
    let mut i: usize = 0;
    while i < n
        invariant
            n == entries@.len(),
            i <= n,
            forall|j: int| 0 <= j < i ==> !is_display_backlight_name(entries@[j]@),
        decreases n - i,
    {
        let name = entries[i].as_str();
        if str_contains(name, "apple-panel-bl") || str_contains(name, "gmux_backlight")
            || str_contains(name, "intel_backlight") || str_contains(name, "acpi_video0") {
            return Some(i);
        }
        i += 1;
    }
    None
}

// ---------------------------------------------------------------------
// Discovery retry policy
// ---------------------------------------------------------------------

/// What the startup discovery loop does after one scan of the device
/// directory.
#[derive(Clone, Copy, Debug, PartialEq, Eq, Structural)]
pub enum DiscoveryOutcome {
    /// A device was found; construction proceeds with it.
    Found,
    /// Nothing found, attempts remain: sleep one interval, scan again
    /// with the attempt counter increased by one.
    Retry,
    /// Nothing found and the retry budget is spent: proceed without a
    /// device, in degraded mode.
    Degraded,
}

/// Decision of one round of the discovery loop.
pub open spec fn spec_discovery_step(attempts: u32, found: bool) -> DiscoveryOutcome {
    if found {
        DiscoveryOutcome::Found
    } else if attempts < DISCOVERY_MAX_RETRIES {
        DiscoveryOutcome::Retry
    } else {
        DiscoveryOutcome::Degraded
    }
}

/// One decision of the startup discovery loop: `attempts` failures so
/// far, `found` whether the current scan produced a device.  The caller
/// sleeps and scans again on `Retry`, passing `attempts + 1` next time.
pub fn discovery_step(attempts: u32, found: bool) -> (r: DiscoveryOutcome)
    ensures
        r == spec_discovery_step(attempts, found),
{
    if found {
        DiscoveryOutcome::Found
    } else if attempts < DISCOVERY_MAX_RETRIES {
        DiscoveryOutcome::Retry
    } else {
        DiscoveryOutcome::Degraded
    }
}

// ---------------------------------------------------------------------
// Attribute parsing
// ---------------------------------------------------------------------

/// ASCII whitespace accepted around a sysfs attribute value.
pub open spec fn is_space(c: char) -> bool {
    c == ' ' || c == '\n' || c == '\t' || c == '\r'
}

/// An ASCII decimal digit.
pub open spec fn is_digit(c: char) -> bool {
    48 <= c as int && c as int <= 57
}

/// Numeric value of a digit character (0 for non-digits).
pub open spec fn digit_val(c: char) -> nat {
    if is_digit(c) {
        (c as int - 48) as nat
    } else {
        0
    }
}

/// Every character of `s` is a decimal digit.
pub open spec fn all_digits(s: Seq<char>) -> bool {
    forall|i: int| 0 <= i < s.len() ==> is_digit(s[i])
}

/// Value of a digit string read in base ten.
pub open spec fn digits_val(s: Seq<char>) -> nat
    decreases s.len(),
{
    if s.len() == 0 {
        0
    } else {
        digits_val(s.drop_last()) * 10 + digit_val(s.last())
    }
}

/// `s` with leading whitespace removed.
pub open spec fn trim_start(s: Seq<char>) -> Seq<char>
    decreases s.len(),
{
    if s.len() > 0 && is_space(s[0]) {
        trim_start(s.drop_first())
    } else {
        s
    }
}

/// `s` with trailing whitespace removed.
pub open spec fn trim_end(s: Seq<char>) -> Seq<char>
    decreases s.len(),
{
    if s.len() > 0 && is_space(s.last()) {
        trim_end(s.drop_last())
    } else {
        s
    }
}

/// `s` with surrounding whitespace removed.
pub open spec fn spec_trim(s: Seq<char>) -> Seq<char> {
    trim_end(trim_start(s))
}

fn is_space_char(c: char) -> (r: bool)
    ensures
        r == is_space(c),
{
    c == ' ' || c == '\n' || c == '\t' || c == '\r'
}

/// Parse the text of a brightness attribute file: a decimal integer
/// surrounded by optional whitespace.  Returns the value when the
/// trimmed text is a non-empty digit string whose value fits in `u32`,
/// and nothing otherwise.
pub fn parse_attr(s: &str) -> (r: Option<u32>)
    ensures
        ({
            let t = spec_trim(s@);
            r == if t.len() > 0 && all_digits(t) && digits_val(t) <= u32::MAX {
                Some(digits_val(t) as u32)
            } else {
                None::<u32>
            }
        }),
{
    let len = s.unicode_len();
    proof {
        assert(s@.subrange(0, len as int) =~= s@);
    }
    let mut lo: usize = 0;
    while lo < len && is_space_char(s.get_char(lo))
        invariant
            lo <= len,
            len == s@.len(),
            trim_start(s@) == trim_start(s@.subrange(lo as int, len as int)),
        decreases len - lo,
    {
        proof {
            let t = s@.subrange(lo as int, len as int);
            assert(t[0] == s@[lo as int]);
            assert(t.drop_first() =~= s@.subrange(lo as int + 1, len as int));
            assert(trim_start(t) == trim_start(t.drop_first()));
        }
        lo += 1;
    }
    proof {
        let t = s@.subrange(lo as int, len as int);
        if lo < len {
            assert(t[0] == s@[lo as int]);
        }
        assert(trim_start(t) == t);
    }
    let mut hi: usize = len;
    while hi > lo && is_space_char(s.get_char(hi - 1))
        invariant
            lo <= hi <= len,
            len == s@.len(),
            trim_start(s@) == s@.subrange(lo as int, len as int),
            trim_end(s@.subrange(lo as int, len as int)) == trim_end(
                s@.subrange(lo as int, hi as int),
            ),
        decreases hi,
    {
        proof {
            let t = s@.subrange(lo as int, hi as int);
            assert(t.last() == s@[hi - 1]);
            assert(t.drop_last() =~= s@.subrange(lo as int, hi as int - 1));
            assert(trim_end(t) == trim_end(t.drop_last()));
        }
        hi -= 1;
    }
    proof {
        let t = s@.subrange(lo as int, hi as int);
        if hi > lo {
            assert(t.last() == s@[hi - 1]);
        }
        assert(trim_end(t) == t);
        assert(spec_trim(s@) == s@.subrange(lo as int, hi as int));
    }
    let ghost t = s@.subrange(lo as int, hi as int);
    if lo == hi {
        proof {
            assert(t.len() == 0);
        }
        return None;
    }
    let mut idx: usize = lo;
    let mut val: u32 = 0;
    let mut too_big = false;
    proof {
        assert(t.subrange(0, 0) =~= Seq::<char>::empty());
    }
    while idx < hi
        invariant
            lo <= idx <= hi <= len,
            len == s@.len(),
            t == s@.subrange(lo as int, hi as int),
            spec_trim(s@) == t,
            all_digits(t.subrange(0, idx - lo)),
            !too_big ==> val == digits_val(t.subrange(0, idx - lo)),
            too_big ==> digits_val(t.subrange(0, idx - lo)) > u32::MAX,
        decreases hi - idx,
    {
        let c = s.get_char(idx);
        proof {
            assert(t[idx - lo] == s@[idx as int]);
        }
        let cu = c as u32;
        if cu < 48 || cu > 57 {
            proof {
                assert(!is_digit(t[idx - lo]));
            }
            return None;
        }
        let d = cu - 48;
        proof {
            let pre = t.subrange(0, idx - lo);
            let pre2 = t.subrange(0, idx - lo + 1);
            assert(pre2.drop_last() =~= pre);
            assert(pre2.last() == t[idx - lo]);
            assert(digits_val(pre2) == digits_val(pre) * 10 + digit_val(t[idx - lo]));
            assert(digit_val(t[idx - lo]) == d);
        }
        if too_big {
            proof {
                let pre = t.subrange(0, idx - lo);
                assert(digits_val(pre) * 10 >= digits_val(pre));
            }
        } else {
            let nv: u64 = (val as u64) * 10 + (d as u64);
            if nv > 0xFFFF_FFFFu64 {
                too_big = true;
            } else {
                val = nv as u32;
            }
        }
        idx += 1;
    }
    proof {
        assert(t.subrange(0, hi - lo) =~= t);
    }
    if too_big {
        None
    } else {
        Some(val)
    }
}

// ---------------------------------------------------------------------
// Activity / lid state and the timeout machine
// ---------------------------------------------------------------------

/// Lid switch position.
#[derive(Clone, Copy, Debug, PartialEq, Eq, Structural)]
pub enum LidState {
    Open,
    Closed,
}

/// A discrete event handed in by the caller's event loop.
#[derive(Clone, Copy, Debug, PartialEq, Eq, Structural)]
pub enum UserEvent {
    /// Keyboard, pointer, gesture or touch input.
    Activity,
    /// The lid switch toggled into the given position.
    LidToggle(LidState),
    /// Anything else; ignored.
    Other,
}

/// Brightness chosen while the machine is in its active band: the
/// mapped reference value when adaptive mode has one, else the
/// configured active brightness.
pub open spec fn spec_active_value(adaptive: bool, mapped: Option<u32>, active: u32) -> u32 {
    if adaptive {
        match mapped {
            Some(m) => m,
            None => active,
        }
    } else {
        active
    }
}

/// Target brightness of the strip: 0 with the lid closed; otherwise the
/// active value, the dimmed constant, or 0 as the idle time crosses the
/// two thresholds; always clamped to the device maximum.
pub open spec fn spec_target(
    lid: LidState,
    elapsed: int,
    adaptive: bool,
    mapped: Option<u32>,
    active: u32,
    max: u32,
) -> u32 {
    let raw = if lid is Closed {
        0u32
    } else if elapsed < BRIGHTNESS_DIM_TIMEOUT {
        spec_active_value(adaptive, mapped, active)
    } else if elapsed < BRIGHTNESS_OFF_TIMEOUT {
        DIMMED_BRIGHTNESS
    } else {
        0u32
    };
    if raw <= max {
        raw
    } else {
        max
    }
}

/// Backlight controller state: the timestamp of the last qualifying
/// activity, the lid position, and the device bounds.  In degraded mode
/// (`has_device` false) the nominal brightness is fixed and no write is
/// ever requested.
pub struct BacklightManager {
    /// Monotonic timestamp (ms) of the last qualifying user activity.
    pub last_active: u64,
    /// Device-reported maximum brightness, or the nominal fallback.
    pub max_bl: u32,
    /// Last brightness value written (or the initial device reading).
    pub current_bl: u32,
    /// Lid switch position as last reported.
    pub lid_state: LidState,
    /// Whether a controllable device was discovered.
    pub has_device: bool,
}

/// Controller state after one tick at time `now`.
pub open spec fn spec_tick(
    s: BacklightManager,
    adaptive: bool,
    mapped: Option<u32>,
    active: u32,
    now: u64,
) -> BacklightManager {
    if s.has_device {
        BacklightManager {
            current_bl: spec_target(
                s.lid_state,
                now - s.last_active,
                adaptive,
                mapped,
                active,
                s.max_bl,
            ),
            ..s
        }
    } else {
        s
    }
}

/// Write issued by one tick at time `now`: the new target exactly when
/// it differs from the last written value.
pub open spec fn spec_tick_write(
    s: BacklightManager,
    adaptive: bool,
    mapped: Option<u32>,
    active: u32,
    now: u64,
) -> Option<u32> {
    if s.has_device {
        let target = spec_target(s.lid_state, now - s.last_active, adaptive, mapped, active, s.max_bl);
        if target != s.current_bl {
            Some(target)
        } else {
            None
        }
    } else {
        None
    }
}

impl BacklightManager {
    /// The last written value never exceeds the device maximum.
    pub open spec fn wf(&self) -> bool {
        self.current_bl <= self.max_bl
    }

    /// Build the controller from the discovery outcome: the device
    /// bounds when one was found, or the fixed nominal brightness in
    /// degraded mode.  The lid starts open and `now` counts as the last
    /// activity.
    pub fn new(device_found: bool, max_bl: u32, current_bl: u32, now: u64) -> (r: BacklightManager)
        requires
            device_found ==> current_bl <= max_bl,
        ensures
            r.wf(),
            r.has_device == device_found,
            r.last_active == now,
            r.lid_state == LidState::Open,
            device_found ==> r.max_bl == max_bl && r.current_bl == current_bl,
            !device_found ==> r.max_bl == MAX_TOUCH_BAR_BRIGHTNESS && r.current_bl
                == MAX_TOUCH_BAR_BRIGHTNESS,
    {
        if device_found {
            BacklightManager {
                last_active: now,
                max_bl,
                current_bl,
                lid_state: LidState::Open,
                has_device: true,
            }
        } else {
            BacklightManager {
                last_active: now,
                max_bl: MAX_TOUCH_BAR_BRIGHTNESS,
                current_bl: MAX_TOUCH_BAR_BRIGHTNESS,
                lid_state: LidState::Open,
                has_device: false,
            }
        }
    }

    /// Record one event at time `now`: activity refreshes the activity
    /// timestamp; a lid toggle records the new position and, when the
    /// lid opens, also refreshes the timestamp so the strip wakes at
    /// once; anything else changes nothing.
    pub fn process_event(&mut self, event: UserEvent, now: u64)
        ensures
            final(self).max_bl == old(self).max_bl,
            final(self).current_bl == old(self).current_bl,
            final(self).has_device == old(self).has_device,
            match event {
                UserEvent::Activity => final(self).last_active == now && final(self).lid_state
                    == old(self).lid_state,
                UserEvent::LidToggle(s) => final(self).lid_state == s && final(self).last_active
                    == (if s is Open {
                    now
                } else {
                    old(self).last_active
                }),
                UserEvent::Other => *final(self) == *old(self),
            },
    {
        match event {
            UserEvent::Activity => {
                self.last_active = now;
            },
            UserEvent::LidToggle(s) => {
                self.lid_state = s;
                if s == LidState::Open {
                    self.last_active = now;
                }
            },
            UserEvent::Other => {},
        }
    }

    /// One tick of the timeout machine at time `now`.  `mapped` is the
    /// strip value the caller mapped from a live reference-display
    /// reading, when adaptive mode has a reference device.  Updates the
    /// recorded brightness to the target and returns the value to write
    /// exactly when it changed; in degraded mode nothing happens.
    pub fn update_backlight(&mut self, cfg: &Config, now: u64, mapped: Option<u32>) -> (w: Option<
        u32,
    >)
        requires
            old(self).wf(),
            now >= old(self).last_active,
        ensures
            final(self).wf(),
            *final(self) == spec_tick(
                *old(self),
                cfg.adaptive_brightness,
                mapped,
                cfg.active_brightness,
                now,
            ),
            w == spec_tick_write(
                *old(self),
                cfg.adaptive_brightness,
                mapped,
                cfg.active_brightness,
                now,
            ),
    {
        if !self.has_device {
            return None;
        }
        let since_last_active = now - self.last_active;
        let raw = if self.lid_state == LidState::Closed {
            0u32
        } else if since_last_active < BRIGHTNESS_DIM_TIMEOUT {
            if cfg.adaptive_brightness {
                match mapped {
                    Some(m) => m,
                    None => cfg.active_brightness,
                }
            } else {
                cfg.active_brightness
            }
        } else if since_last_active < BRIGHTNESS_OFF_TIMEOUT {
            DIMMED_BRIGHTNESS
        } else {
            0u32
        };
        let new_bl = if raw <= self.max_bl {
            raw
        } else {
            self.max_bl
        };
        if self.current_bl != new_bl {
            self.current_bl = new_bl;
            Some(new_bl)
        } else {
            None
        }
    }

    /// Last written brightness value (diagnostics).
    pub fn current_bl(&self) -> (r: u32)
        ensures
            r == self.current_bl,
    {
        self.current_bl
    }
}

/// Law: with the lid closed the target is 0 whatever the idle time;
/// with it open the target is the active value before the dim
/// threshold, the dimmed constant between the thresholds, and 0 from
/// the off threshold on.  The two value clauses hold away from the
/// clamp, that is while the stated value does not exceed the device
/// maximum.
pub proof fn lemma_target_phases(
    lid: LidState,
    elapsed: int,
    adaptive: bool,
    mapped: Option<u32>,
    active: u32,
    max: u32,
)
    ensures
        lid is Closed ==> spec_target(lid, elapsed, adaptive, mapped, active, max) == 0,
        lid is Open && elapsed < BRIGHTNESS_DIM_TIMEOUT && spec_active_value(
            adaptive,
            mapped,
            active,
        ) <= max ==> spec_target(lid, elapsed, adaptive, mapped, active, max)
            == spec_active_value(adaptive, mapped, active),
        lid is Open && BRIGHTNESS_DIM_TIMEOUT <= elapsed < BRIGHTNESS_OFF_TIMEOUT
            && DIMMED_BRIGHTNESS <= max ==> spec_target(lid, elapsed, adaptive, mapped, active, max)
            == DIMMED_BRIGHTNESS,
        lid is Open && elapsed >= BRIGHTNESS_OFF_TIMEOUT ==> spec_target(
            lid,
            elapsed,
            adaptive,
            mapped,
            active,
            max,
        ) == 0,
{
}

/// Law: ticking writes at most once per change of target.  After a tick
/// the recorded brightness equals the target, so any later tick whose
/// inputs yield the same target — no new events, an unchanged reference
/// reading, the same timeout band — issues no write.
pub proof fn lemma_tick_idempotent(
    s: BacklightManager,
    adaptive: bool,
    mapped: Option<u32>,
    active: u32,
    now: u64,
    now2: u64,
)
    requires
        s.has_device,
        s.last_active <= now <= now2,
        spec_target(s.lid_state, now2 - s.last_active, adaptive, mapped, active, s.max_bl)
            == spec_target(s.lid_state, now - s.last_active, adaptive, mapped, active, s.max_bl),
    ensures
        spec_tick_write(spec_tick(s, adaptive, mapped, active, now), adaptive, mapped, active, now2)
            is None,
{
}

} // verus!

