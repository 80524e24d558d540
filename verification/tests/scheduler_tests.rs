use jp::scheduler::{
    close_action_of, reminder_body, reminder_title, settings_from_store, CloseAction, FireAction,
    SchedulerState, Settings,
};

#[test]
fn default_settings() {
    let s = Settings::default();
    assert_eq!(s.interval, 600);
    assert!(!s.autostart);
    assert_eq!(s.card_type, "mixed");
    assert_eq!(s.close_behavior.as_deref(), Some("minimize"));
}

#[test]
fn new_state_is_running_at_generation_zero() {
    let st = SchedulerState::new(Settings::default());
    assert!(st.timer_running);
    assert_eq!(st.timer_generation, 0);
    assert!(!st.window_hidden);
}

#[test]
fn restart_bumps_generation_and_enables() {
    let mut st = SchedulerState::new(Settings::default());
    st.stop();
    let g = st.restart();
    assert_eq!(g, 1);
    assert!(st.timer_running);
    assert_eq!(st.timer_generation, 1);
}

#[test]
fn restart_wraps_at_the_top() {
    let mut st = SchedulerState::new(Settings::default());
    st.timer_generation = u64::MAX;
    let g = st.restart();
    assert_eq!(g, 0);
    assert_ne!(g, u64::MAX);
}

#[test]
fn idempotent_restart_leaves_one_authority() {
    let mut st = SchedulerState::new(Settings::default());
    let g1 = st.restart();
    let g2 = st.restart();
    assert_ne!(g1, g2);
    assert!(st.tick_pre_sleep(g1).is_none());
    assert!(st.tick_pre_sleep(g2).is_some());
}

#[test]
fn stop_halts_future_cycles() {
    let mut st = SchedulerState::new(Settings::default());
    let g = st.restart();
    st.stop();
    assert!(st.tick_pre_sleep(g).is_none());
    // a run already asleep still passes its generation-only post check once
    assert!(st.tick_post_sleep(g).is_some());
}

#[test]
fn save_settings_changes_interval_and_supersedes() {
    let mut st = SchedulerState::new(Settings::default());
    let g0 = st.restart();
    let g1 = st.save_settings(Settings {
        interval: 5,
        ..Settings::default()
    });
    assert_ne!(g0, g1);
    assert_eq!(st.tick_pre_sleep(g1), Some(5));
    assert!(st.tick_pre_sleep(g0).is_none());
    assert_eq!(st.get_settings().interval, 5);
}

#[test]
fn three_unit_intervals_three_fires() {
    // interval = 1 unit, no restarts: three elapsed intervals, three fires,
    // each one unit after the previous.
    let mut st = SchedulerState::new(Settings {
        interval: 1,
        ..Settings::default()
    });
    let g = st.restart();
    let mut now: u64 = 0;
    let mut fire_times: Vec<u64> = Vec::new();
    for _ in 0..3 {
        let d = st.tick_pre_sleep(g).expect("run still authoritative");
        now += d;
        if st.tick_post_sleep(g).is_some() {
            fire_times.push(now);
        }
    }
    assert_eq!(fire_times, vec![1, 2, 3]);
    for w in fire_times.windows(2) {
        assert!(w[1] - w[0] >= 1);
    }
}

#[test]
fn restart_mid_sleep_cancels_pending_fire() {
    // Time in tenths of a unit. Interval 1 unit; at 0.5 units into the first
    // sleep the interval is changed to 2 units via a restart. The old run's
    // pending fire must not occur; the next fire lands at 2.5 units.
    let mut st = SchedulerState::new(Settings {
        interval: 10,
        ..Settings::default()
    });
    let g_old = st.restart();
    let d_old = st.tick_pre_sleep(g_old).expect("old run starts a sleep");
    let old_wakes_at = 0 + d_old; // tenths

    // at t = 5 the user saves a two-unit interval
    let g_new = st.save_settings(Settings {
        interval: 20,
        ..Settings::default()
    });
    let d_new = st.tick_pre_sleep(g_new).expect("new run is authoritative");
    let new_wakes_at = 5 + d_new;

    let mut fire_times: Vec<u64> = Vec::new();
    // t = 10: the old run wakes and must not fire
    assert_eq!(old_wakes_at, 10);
    if st.tick_post_sleep(g_old).is_some() {
        fire_times.push(old_wakes_at);
    }
    // t = 25: the new run wakes and fires
    assert_eq!(new_wakes_at, 25);
    if st.tick_post_sleep(g_new).is_some() {
        fire_times.push(new_wakes_at);
    }
    assert_eq!(fire_times, vec![25]);
}

#[test]
fn hidden_window_notifies_instead_of_showing() {
    let mut st = SchedulerState::new(Settings::default());
    let g = st.restart();
    st.mark_hidden();
    assert_eq!(st.tick_post_sleep(g), Some(FireAction::NotifyUser));
    st.mark_visible();
    assert_eq!(st.tick_post_sleep(g), Some(FireAction::ShowTarget));
}

#[test]
fn close_actions() {
    assert_eq!(close_action_of("minimize"), CloseAction::Minimize);
    assert_eq!(close_action_of("exit"), CloseAction::Exit);
    assert_eq!(close_action_of("sideways"), CloseAction::Unknown);

    let mut st = SchedulerState::new(Settings::default());
    st.apply_close_action(CloseAction::Minimize);
    assert!(st.window_hidden);
    assert!(st.timer_running);
    st.apply_close_action(CloseAction::Exit);
    assert!(!st.timer_running);
}

#[test]
fn reminder_notification_text() {
    assert_eq!(reminder_title(), "学习提醒");
    assert_eq!(reminder_body(), "该学习了！点击查看闪卡。");
}

#[test]
fn settings_from_store_fallbacks() {
    let s = settings_from_store(None, None, None, None);
    assert_eq!(s.interval, 600);
    assert!(!s.autostart);
    assert_eq!(s.card_type, "mixed");
    assert_eq!(s.close_behavior.as_deref(), Some("minimize"));

    let s = settings_from_store(
        Some(42),
        Some(true),
        Some("romaji".to_string()),
        Some("exit".to_string()),
    );
    assert_eq!(s.interval, 42);
    assert!(s.autostart);
    assert_eq!(s.card_type, "romaji");
    assert_eq!(s.close_behavior.as_deref(), Some("exit"));
}
