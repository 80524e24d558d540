//! The generation-guarded periodic scheduler.
//!
//! A reminder fires repeatedly at a user-configurable interval. The interval
//! may be changed while a run is asleep, and a run can be superseded at any
//! time by a newer one. Supersession is cooperative: every run captures the
//! generation counter that was current when it started, and checks it against
//! the shared counter before sleeping and again after waking. A stale run
//! exits at its next checkpoint without firing.
//!
//! The state here is the pure core: the host wraps it in a shared lock, runs
//! the sleep loop, and performs the fire actions that [`FireAction`] names.

use vstd::prelude::*;

verus! {

/// User-facing configuration, read anew on every scheduler cycle.
pub struct Settings {
    /// Seconds between two fires; strictly positive in practice.
    pub interval: u64,
    /// Whether the host application starts with the session.
    pub autostart: bool,
    /// Which flashcards to quiz: "romaji", "chinese", or "mixed".
    pub card_type: String,
    /// "minimize" or "exit"; `None` means ask every time.
    pub close_behavior: Option<String>,
}

impl Settings {
    /// Field-for-field copy; `Settings` owns strings, so plain `Clone` would
    /// promise nothing about the copy.
    pub fn duplicate(&self) -> (s: Settings)
        ensures
            s == *self,
    {
        Settings {
            interval: self.interval,
            autostart: self.autostart,
            card_type: self.card_type.clone(),
            close_behavior: match &self.close_behavior {
                Some(b) => Some(b.clone()),
                None => None,
            },
        }
    }
}

impl Default for Settings {
    /// Ten-minute interval, no autostart, mixed cards, minimize on close.
    fn default() -> (s: Settings)
        ensures
            s.interval == 600,
            !s.autostart,
            s.card_type@ == "mixed"@,
            s.close_behavior matches Some(b) && b@ == "minimize"@,
    {
        Settings {
            interval: 600,
            autostart: false,
            card_type: String::from_str("mixed"),
            close_behavior: Some(String::from_str("minimize")),
        }
    }
}

/// What a successful fire does: exactly one of the two, chosen by whether the
/// reminder window is currently hidden to the tray.
#[derive(Clone, Copy, PartialEq, Eq, Structural, Debug)]
pub enum FireAction {
    /// Bring the reminder window to the front.
    ShowTarget,
    /// Post a notification instead of raising a hidden window.
    NotifyUser,
}

/// The shared scheduler state: configuration, the soft run flag, the
/// generation counter, and the window-visibility mirror.
pub struct SchedulerState {
    pub settings: Settings,
    /// Soft-stop flag: false requests full shutdown of all scheduling.
    pub timer_running: bool,
    /// Generation counter; a run is authoritative while its captured value
    /// still equals this one.
    pub timer_generation: u64,
    /// Whether the reminder window is hidden to the tray.
    pub window_hidden: bool,
}

/// The generation counter after one restart: incremented, wrapping at the
/// top so that it always changes.
pub open spec fn wrap_inc(g: u64) -> u64 {
    if g == u64::MAX {
        0
    } else {
        (g + 1) as u64
    }
}

/// The pre-sleep authority check: the run may continue only while nobody has
/// asked for a stop and its captured generation is still the current one.
pub open spec fn authority(s: SchedulerState, my_generation: u64) -> bool {
    s.timer_running && s.timer_generation == my_generation
}

/// The post-sleep check: only the generation is consulted, so a soft stop
/// issued during a sleep lets that one in-flight cycle fire.
pub open spec fn still_current(s: SchedulerState, my_generation: u64) -> bool {
    s.timer_generation == my_generation
}

/// The state after `restart`: a fresh generation, the run flag raised,
/// everything else untouched.
pub open spec fn spec_restart(s: SchedulerState) -> SchedulerState {
    SchedulerState {
        timer_generation: wrap_inc(s.timer_generation),
        timer_running: true,
        ..s
    }
}

/// The state after `stop`: the run flag lowered, everything else untouched.
pub open spec fn spec_stop(s: SchedulerState) -> SchedulerState {
    SchedulerState { timer_running: false, ..s }
}

/// The action a fire takes for a given window visibility.
pub open spec fn spec_fire_action(window_hidden: bool) -> FireAction {
    if window_hidden {
        FireAction::NotifyUser
    } else {
        FireAction::ShowTarget
    }
}

/// What `tick_pre_sleep` returns, as a function of the state: the interval
/// to sleep for while authoritative, nothing once superseded or stopped.
pub open spec fn spec_tick_pre_sleep(s: SchedulerState, my_generation: u64) -> Option<u64> {
    if authority(s, my_generation) {
        Some(s.settings.interval)
    } else {
        None
    }
}

/// What `tick_post_sleep` returns, as a function of the state.
pub open spec fn spec_tick_post_sleep(s: SchedulerState, my_generation: u64) -> Option<
    FireAction,
> {
    if still_current(s, my_generation) {
        Some(spec_fire_action(s.window_hidden))
    } else {
        None
    }
}

impl SchedulerState {
    /// A fresh state: generation zero, running, window visible.
    pub fn new(settings: Settings) -> (s: SchedulerState)
        ensures
            s.settings == settings,
            s.timer_running,
            s.timer_generation == 0,
            !s.window_hidden,
    {
        SchedulerState { settings, timer_running: true, timer_generation: 0, window_hidden: false }
    }

    /// Invalidates whatever run is in flight and authorizes a new one.
    /// Returns the fresh generation for the new run to capture. Any value
    /// captured earlier differs from it, so older runs fail their next check.
    pub fn restart(&mut self) -> (g: u64)
        ensures
            *final(self) == spec_restart(*old(self)),
            g == final(self).timer_generation,
            g != old(self).timer_generation,
    {
        self.timer_generation = self.timer_generation.wrapping_add(1);
        self.timer_running = true;
        self.timer_generation
    }

    /// Requests full shutdown. Runs notice at their next pre-sleep check.
    pub fn stop(&mut self)
        ensures
            *final(self) == spec_stop(*old(self)),
    {
        self.timer_running = false;
    }

    /// Installs new settings and restarts, so the next cycle sleeps with the
    /// new interval; returns the fresh generation.
    pub fn save_settings(&mut self, settings: Settings) -> (g: u64)
        ensures
            final(self).settings == settings,
            final(self).timer_running,
            final(self).timer_generation == wrap_inc(old(self).timer_generation),
            final(self).timer_generation != old(self).timer_generation,
            final(self).window_hidden == old(self).window_hidden,
            g == final(self).timer_generation,
    {
        self.settings = settings;
        self.restart()
    }

    /// A copy of the current settings, for the host's settings dialog.
    pub fn get_settings(&self) -> (s: Settings)
        ensures
            s == self.settings,
    {
        self.settings.duplicate()
    }

    /// Records that the window was hidden to the tray.
    pub fn mark_hidden(&mut self)
        ensures
            *final(self) == (SchedulerState { window_hidden: true, ..*old(self) }),
    {
        self.window_hidden = true;
    }

    /// Records that the window is visible again.
    pub fn mark_visible(&mut self)
        ensures
            *final(self) == (SchedulerState { window_hidden: false, ..*old(self) }),
    {
        self.window_hidden = false;
    }

    /// The checkpoint before a sleep. `Some(d)` says: still authoritative,
    /// sleep for `d` — the interval as configured now, not when the run
    /// began. `None` says: exit without firing.
    pub fn tick_pre_sleep(&self, my_generation: u64) -> (r: Option<u64>)
        ensures
            r == spec_tick_pre_sleep(*self, my_generation),
            r is Some <==> authority(*self, my_generation),
            r is Some ==> r->0 == self.settings.interval,
    {
        if self.timer_running && self.timer_generation == my_generation {
            Some(self.settings.interval)
        } else {
            None
        }
    }

    /// The checkpoint after a sleep. `Some(a)` says: not superseded during
    /// the sleep, perform fire action `a`. `None` says: a restart happened
    /// meanwhile, exit without firing.
    pub fn tick_post_sleep(&self, my_generation: u64) -> (r: Option<FireAction>)
        ensures
            r == spec_tick_post_sleep(*self, my_generation),
            r is Some <==> still_current(*self, my_generation),
            r is Some ==> r->0 == spec_fire_action(self.window_hidden),
    {
        if self.timer_generation == my_generation {
            if self.window_hidden {
                Some(FireAction::NotifyUser)
            } else {
                Some(FireAction::ShowTarget)
            }
        } else {
            None
        }
    }
}

/// What a close request does, as configured.
#[derive(Clone, Copy, PartialEq, Eq, Structural, Debug)]
pub enum CloseAction {
    /// Hide the window to the tray and keep running.
    Minimize,
    /// Stop all scheduling; the host then ends the process.
    Exit,
    /// An unrecognized configuration value: change nothing.
    Unknown,
}

/// The action a close-behavior string names.
pub open spec fn spec_close_action(behavior: Seq<char>) -> CloseAction {
    if behavior == "minimize"@ {
        CloseAction::Minimize
    } else if behavior == "exit"@ {
        CloseAction::Exit
    } else {
        CloseAction::Unknown
    }
}

/// Reads a configured close behavior.
pub fn close_action_of(behavior: &str) -> (a: CloseAction)
    ensures
        a == spec_close_action(behavior@),
{
    if crate::text::str_eq(behavior, "minimize") {
        CloseAction::Minimize
    } else if crate::text::str_eq(behavior, "exit") {
        CloseAction::Exit
    } else {
        CloseAction::Unknown
    }
}

impl SchedulerState {
    /// The state change of a close request: minimizing records the hidden
    /// window, exiting lowers the run flag before the host ends the
    /// process, and an unknown value changes nothing.
    pub fn apply_close_action(&mut self, a: CloseAction)
        ensures
            a == CloseAction::Minimize ==> *final(self) == (SchedulerState {
                window_hidden: true,
                ..*old(self)
            }),
            a == CloseAction::Exit ==> *final(self) == spec_stop(*old(self)),
            a == CloseAction::Unknown ==> *final(self) == *old(self),
    {
        match a {
            CloseAction::Minimize => self.mark_hidden(),
            CloseAction::Exit => self.stop(),
            CloseAction::Unknown => {},
        }
    }
}

/// Settings as loaded from the persisted store: each missing value falls
/// back to its documented default — the ten-minute interval, no autostart,
/// mixed cards, minimize on close.
pub fn settings_from_store(
    interval: Option<u64>,
    autostart: Option<bool>,
    card_type: Option<String>,
    close_behavior: Option<String>,
) -> (s: Settings)
    ensures
        interval matches Some(v) ==> s.interval == v,
        interval is None ==> s.interval == 600,
        autostart matches Some(a) ==> s.autostart == a,
        autostart is None ==> !s.autostart,
        card_type matches Some(c) ==> s.card_type == c,
        card_type is None ==> s.card_type@ == "mixed"@,
        close_behavior matches Some(b) ==> s.close_behavior == Some(b),
        close_behavior is None ==> (s.close_behavior matches Some(b) && b@ == "minimize"@),
{
    Settings {
        interval: match interval {
            Some(v) => v,
            None => 600,
        },
        autostart: match autostart {
            Some(a) => a,
            None => false,
        },
        card_type: match card_type {
            Some(c) => c,
            None => String::from_str("mixed"),
        },
        close_behavior: match close_behavior {
            Some(b) => Some(b),
            None => Some(String::from_str("minimize")),
        },
    }
}

/// The title of the notification posted when the reminder fires while the
/// window is hidden.
pub fn reminder_title() -> (r: String)
    ensures
        r@ == "学习提醒"@,
{
    String::from_str("学习提醒")
}

/// The body of that notification.
pub fn reminder_body() -> (r: String)
    ensures
        r@ == "该学习了！点击查看闪卡。"@,
{
    String::from_str("该学习了！点击查看闪卡。")
}

/// No stale fire: once a restart has installed a new generation, a run that
/// captured the previously current generation fails both of its checkpoints,
/// so it neither sleeps again nor fires after waking.
pub proof fn lemma_no_stale_fire(s: SchedulerState, g: u64)
    requires
        g == s.timer_generation,
    ensures
        !authority(spec_restart(s), g),
        !still_current(spec_restart(s), g),
{
}

/// At most one run is authoritative at any instant: the authority check is
/// an equality against the one shared counter, so two generations cannot
/// both pass it.
pub proof fn lemma_exclusive_authority(s: SchedulerState, g1: u64, g2: u64)
    requires
        authority(s, g1),
        authority(s, g2),
    ensures
        g1 == g2,
{
}

/// Period responsiveness: the duration a run commits to at its pre-sleep
/// checkpoint is the interval configured at that instant — a change made
/// before the checkpoint takes effect with this sleep, whatever interval
/// earlier cycles used.
pub proof fn lemma_period_responsiveness(s: SchedulerState, g: u64, d2: u64)
    requires
        authority(s, g),
        s.settings.interval == d2,
    ensures
        spec_tick_pre_sleep(s, g) == Some(d2),
{
}

/// Exclusive branch: each fire performs exactly one of the two actions,
/// determined solely by the visibility query at that instant.
pub proof fn lemma_exclusive_fire(window_hidden: bool)
    ensures
        (spec_fire_action(window_hidden) == FireAction::NotifyUser) <==> window_hidden,
        (spec_fire_action(window_hidden) == FireAction::ShowTarget) <==> !window_hidden,
{
}

/// Stop halts: after a stop, no generation passes the pre-sleep check, so no
/// run begins another cycle. A run already asleep re-checks only the
/// generation when it wakes, so at most that one in-flight fire still occurs.
pub proof fn lemma_stop_halts(s: SchedulerState, g: u64)
    ensures
        !authority(spec_stop(s), g),
        spec_tick_pre_sleep(spec_stop(s), g) is None,
        still_current(spec_stop(s), g) == still_current(s, g),
{
}

/// Idempotent restart: after two back-to-back restarts only the second run
/// is authoritative; the first run's captured generation fails its next
/// authority check.
pub proof fn lemma_idempotent_restart(s: SchedulerState)
    ensures
        ({
            let s1 = spec_restart(s);
            let s2 = spec_restart(s1);
            &&& !authority(s2, s1.timer_generation)
            &&& authority(s2, s2.timer_generation)
            &&& forall|g: u64| authority(s2, g) ==> g == s2.timer_generation
        }),
{
}

} // verus!
