use thanatos_logic::config::{
    AppConfig, ConfigLookup, FreezeMode, LaunchRule, ManagementPolicy, OomPriority, RuleLookup,
    StoreError,
};
use thanatos_logic::effects::{Effect, ProcessCommand, Signal};
use thanatos_logic::events::{EventType, FrameworkEvent, UnfreezeReason};
use thanatos_logic::logic_controller::{AppState, EventLog, LogicController, RuntimeStats};

fn config(policy: ManagementPolicy, mode: FreezeMode, priority: OomPriority) -> AppConfig {
    AppConfig {
        package_name: "com.a".to_string(),
        policy,
        freeze_mode: mode,
        oom_priority: priority,
        network_policy: 0,
        allow_wakeup_for_push: false,
        allow_autostart: false,
    }
}

fn strict(mode: FreezeMode) -> ConfigLookup {
    Ok(Some(config(ManagementPolicy::StrictBackground, mode, OomPriority::OomNormal)))
}

fn unrestricted() -> ConfigLookup {
    Ok(Some(config(ManagementPolicy::Unrestricted, FreezeMode::ModeSigstop, OomPriority::OomNormal)))
}

fn no_config() -> ConfigLookup {
    Ok(None)
}

fn audit(package: Option<&str>, message: &str) -> Effect {
    Effect::Audit { package: package.map(|name| name.to_string()), message: message.to_string() }
}

fn signal(pid: i32, signal: Signal) -> Effect {
    Effect::Process(ProcessCommand { pid, signal })
}

fn event(event_type: EventType, pid: &str, package: &str) -> FrameworkEvent {
    FrameworkEvent {
        event_type,
        source_package: pid.to_string(),
        target_package: package.to_string(),
        timestamp: 1,
    }
}

fn frozen_controller(package: &str, pid: i32) -> LogicController {
    let mut controller = LogicController::new();
    controller.handle_app_state_change(package, pid, false, &strict(FreezeMode::ModeSigstop));
    assert_eq!(controller.state_of(package), Some(AppState::Frozen(pid)));
    controller
}

#[test]
fn new_controller_tracks_nothing() {
    let controller = LogicController::new();
    assert_eq!(controller.state_of("com.a"), None);
    assert_eq!(controller.standby_timer(), None);
    assert_eq!(controller.foreground_package(), None);
    assert!(controller.background_order().is_empty());
}

#[test]
fn foreground_event_for_untracked_package_resumes_and_records() {
    let mut controller = LogicController::new();
    let effects = controller.handle_app_state_change("com.a", 100, true, &no_config());
    assert_eq!(
        effects,
        vec![audit(Some("com.a"), "App became foreground"), signal(100, Signal::Continue)]
    );
    assert_eq!(controller.state_of("com.a"), Some(AppState::Foreground(100)));
    assert_eq!(controller.foreground_package(), Some("com.a".to_string()));
}

#[test]
fn foreground_event_resumes_from_every_prior_state() {
    let priors: Vec<ConfigLookup> = vec![no_config(), strict(FreezeMode::ModeSigstop)];
    for prior in priors {
        let mut controller = LogicController::new();
        controller.handle_app_state_change("com.a", 100, false, &prior);
        let effects = controller.handle_app_state_change("com.a", 101, true, &no_config());
        assert!(effects.contains(&signal(101, Signal::Continue)));
        assert_eq!(controller.state_of("com.a"), Some(AppState::Foreground(101)));
        assert_eq!(controller.foreground_package(), Some("com.a".to_string()));
    }
    let mut controller = LogicController::new();
    controller.handle_app_state_change("com.a", 100, true, &no_config());
    let effects = controller.handle_app_state_change("com.a", 100, true, &no_config());
    assert!(effects.contains(&signal(100, Signal::Continue)));
    assert_eq!(controller.state_of("com.a"), Some(AppState::Foreground(100)));
}

#[test]
fn foreground_after_freeze_emits_training_record_with_previous_foreground() {
    let mut controller = frozen_controller("com.a", 100);
    controller.handle_app_state_change("com.b", 200, true, &no_config());
    let effects = controller.handle_app_state_change("com.a", 100, true, &no_config());
    assert_eq!(
        effects,
        vec![
            audit(Some("com.a"), "App became foreground"),
            signal(100, Signal::Continue),
            Effect::Training {
                context: Some("com.b".to_string()),
                target: "com.a".to_string(),
                event_type: "USER_LAUNCH_AFTER_FREEZE".to_string(),
                label: 1,
            },
        ]
    );
    assert_eq!(controller.foreground_package(), Some("com.a".to_string()));
}

#[test]
fn foreground_after_freeze_without_previous_foreground_has_no_context() {
    let mut controller = frozen_controller("com.a", 100);
    let effects = controller.handle_app_state_change("com.a", 100, true, &no_config());
    assert_eq!(
        effects[2],
        Effect::Training {
            context: None,
            target: "com.a".to_string(),
            event_type: "USER_LAUNCH_AFTER_FREEZE".to_string(),
            label: 1,
        }
    );
}

#[test]
fn background_event_without_strict_policy_stays_background() {
    let lookups: Vec<ConfigLookup> = vec![
        no_config(),
        unrestricted(),
        Ok(Some(config(ManagementPolicy::Unspecified, FreezeMode::ModeKill, OomPriority::OomNormal))),
        Err(StoreError { message: "locked".to_string() }),
    ];
    for lookup in lookups {
        let mut controller = LogicController::new();
        let effects = controller.handle_app_state_change("com.a", 100, false, &lookup);
        assert_eq!(
            effects,
            vec![
                audit(Some("com.a"), "App became background"),
                Effect::SetReclaimScore { pid: 100, score: 200 },
            ]
        );
        assert_eq!(controller.state_of("com.a"), Some(AppState::Background(100)));
        assert_eq!(controller.background_order(), vec!["com.a"]);
    }
}

#[test]
fn background_event_with_strict_policy_freezes_immediately() {
    let mut controller = LogicController::new();
    let effects =
        controller.handle_app_state_change("com.a", 100, false, &strict(FreezeMode::ModeSigstop));
    assert_eq!(
        effects,
        vec![
            audit(Some("com.a"), "App became background"),
            Effect::SetReclaimScore { pid: 100, score: 200 },
            audit(Some("com.a"), "Frozen by STRICT_BACKGROUND policy"),
            signal(100, Signal::Stop),
        ]
    );
    assert_eq!(controller.state_of("com.a"), Some(AppState::Frozen(100)));
}

#[test]
fn strict_policy_freezes_with_the_configured_mode() {
    let modes = [
        (FreezeMode::ModeSigstop, Signal::Stop),
        (FreezeMode::ModeKill, Signal::Kill),
        (FreezeMode::ModeHibernate, Signal::Stop),
        (FreezeMode::ModeUnspecified, Signal::Stop),
    ];
    for (mode, expected) in modes {
        let mut controller = LogicController::new();
        let effects = controller.handle_app_state_change("com.a", 100, false, &strict(mode));
        assert_eq!(effects[3], signal(100, expected));
        assert_eq!(controller.state_of("com.a"), Some(AppState::Frozen(100)));
    }
}

#[test]
fn background_score_follows_priority_class() {
    let cases = [
        (OomPriority::OomHigh, 0),
        (OomPriority::OomNormal, 200),
        (OomPriority::OomLow, 400),
        (OomPriority::OomUnspecified, 200),
    ];
    for (priority, score) in cases {
        let mut controller = LogicController::new();
        controller.handle_app_state_change("com.z", 5, false, &no_config());
        let lookup: ConfigLookup =
            Ok(Some(config(ManagementPolicy::Unrestricted, FreezeMode::ModeSigstop, priority)));
        let effects = controller.handle_app_state_change("com.a", 100, false, &lookup);
        assert_eq!(effects[1], Effect::SetReclaimScore { pid: 100, score });
    }
}

#[test]
fn adjust_oom_score_uses_recency_position() {
    let mut controller = LogicController::new();
    controller.handle_app_state_change("com.a", 1, false, &no_config());
    controller.handle_app_state_change("com.b", 2, false, &no_config());
    controller.handle_app_state_change("com.c", 3, false, &no_config());
    assert_eq!(
        controller.adjust_oom_score("com.a", 1, &no_config()),
        Some(Effect::SetReclaimScore { pid: 1, score: 300 })
    );
    assert_eq!(
        controller.adjust_oom_score("com.c", 3, &no_config()),
        Some(Effect::SetReclaimScore { pid: 3, score: 200 })
    );
    assert_eq!(
        controller.adjust_oom_score("com.unknown", 9, &no_config()),
        Some(Effect::SetReclaimScore { pid: 9, score: 350 })
    );
    assert_eq!(controller.adjust_oom_score("com.a", 0, &no_config()), None);
}

#[test]
fn background_events_order_recency_most_recent_first() {
    let mut controller = LogicController::new();
    controller.handle_app_state_change("com.a", 1, false, &no_config());
    controller.handle_app_state_change("com.b", 2, false, &no_config());
    controller.handle_app_state_change("com.a", 1, false, &no_config());
    assert_eq!(controller.background_order(), vec!["com.a", "com.b"]);
}

#[test]
fn event_with_empty_package_or_invalid_pid_is_ignored() {
    let mut controller = LogicController::new();
    assert!(controller.handle_app_state_change("", 100, true, &no_config()).is_empty());
    assert!(controller.handle_app_state_change("com.a", 0, true, &no_config()).is_empty());
    assert!(controller.handle_app_state_change("com.a", -4, false, &strict(FreezeMode::ModeKill)).is_empty());
    assert_eq!(controller.state_of("com.a"), None);
    assert_eq!(controller.state_of(""), None);
    assert_eq!(controller.foreground_package(), None);
    assert!(controller.background_order().is_empty());
}

#[test]
fn framework_event_reads_pid_from_source_field() {
    let mut controller = LogicController::new();
    let effects = controller.handle_framework_event(
        &event(EventType::AppForeground, "100", "com.a"),
        &no_config(),
    );
    assert_eq!(
        effects,
        vec![audit(Some("com.a"), "App became foreground"), signal(100, Signal::Continue)]
    );
    assert_eq!(controller.state_of("com.a"), Some(AppState::Foreground(100)));
    controller.handle_framework_event(&event(EventType::AppBackground, "100", "com.a"), &no_config());
    assert_eq!(controller.state_of("com.a"), Some(AppState::Background(100)));
}

#[test]
fn framework_event_with_unreadable_pid_is_ignored() {
    let mut controller = LogicController::new();
    let effects = controller.handle_framework_event(
        &event(EventType::AppForeground, "com.launcher", "com.a"),
        &no_config(),
    );
    assert!(effects.is_empty());
    assert_eq!(controller.state_of("com.a"), None);
}

#[test]
fn framework_event_of_other_kind_does_nothing() {
    let mut controller = LogicController::new();
    controller.handle_app_state_change("com.a", 100, false, &no_config());
    let effects =
        controller.handle_framework_event(&event(EventType::Other, "100", "com.a"), &no_config());
    assert!(effects.is_empty());
    assert_eq!(controller.state_of("com.a"), Some(AppState::Background(100)));
}

#[test]
fn screen_off_asks_for_standby_timer_of_three_hundred_seconds() {
    let mut controller = LogicController::new();
    let effects =
        controller.handle_framework_event(&event(EventType::ScreenOff, "", ""), &no_config());
    assert_eq!(
        effects,
        vec![audit(None, "Screen OFF"), Effect::ScheduleStandby { delay_ms: 300_000 }]
    );
    assert_eq!(controller.standby_timer(), None);
    let effects = controller.standby_timer_scheduled(11);
    assert_eq!(effects, vec![audit(None, "Smart Standby scheduled in 300s")]);
    assert_eq!(controller.standby_timer(), Some(11));
}

#[test]
fn screen_on_without_standby_only_logs() {
    let mut controller = LogicController::new();
    assert_eq!(controller.handle_screen_on(), vec![audit(None, "Screen ON")]);
    assert_eq!(controller.standby_timer(), None);
}

#[test]
fn second_screen_off_cancels_first_standby_timer() {
    let mut controller = LogicController::new();
    controller.handle_screen_off();
    controller.standby_timer_scheduled(11);
    let effects = controller.handle_screen_off();
    assert_eq!(
        effects,
        vec![
            audit(None, "Screen OFF"),
            Effect::CancelTimer { timer_id: 11 },
            Effect::ScheduleStandby { delay_ms: 300_000 },
        ]
    );
    assert_eq!(controller.standby_timer(), None);
    controller.standby_timer_scheduled(12);
    assert_eq!(controller.standby_timer(), Some(12));
}

#[test]
fn second_scheduled_standby_timer_cancels_outstanding_one() {
    let mut controller = LogicController::new();
    controller.standby_timer_scheduled(11);
    let effects = controller.standby_timer_scheduled(12);
    assert_eq!(
        effects,
        vec![Effect::CancelTimer { timer_id: 11 }, audit(None, "Smart Standby scheduled in 300s")]
    );
    assert_eq!(controller.standby_timer(), Some(12));
    let again = controller.standby_timer_scheduled(12);
    assert_eq!(again, vec![audit(None, "Smart Standby scheduled in 300s")]);
    assert_eq!(controller.standby_timer(), Some(12));
}

#[test]
fn scenario_screen_on_cancels_standby_and_nothing_is_frozen() {
    let mut controller = LogicController::new();
    controller.handle_app_state_change("com.a", 100, false, &no_config());
    controller.handle_app_state_change("com.b", 200, false, &no_config());
    controller.handle_screen_off();
    controller.standby_timer_scheduled(1);
    let effects = controller.handle_screen_on();
    assert_eq!(
        effects,
        vec![
            audit(None, "Screen ON"),
            Effect::CancelTimer { timer_id: 1 },
            audit(None, "Smart Standby cancelled"),
        ]
    );
    assert_eq!(controller.standby_timer(), None);
    assert!(controller.on_timer_fired(1).is_empty());
    assert_eq!(controller.state_of("com.a"), Some(AppState::Background(100)));
    assert_eq!(controller.state_of("com.b"), Some(AppState::Background(200)));
    assert_eq!(controller.get_runtime_stats(0, 0).frozen_app_count, 0);
}

#[test]
fn standby_timer_freezes_every_background_package() {
    let mut controller = LogicController::new();
    controller.handle_app_state_change("com.a", 100, false, &no_config());
    controller.handle_app_state_change("com.b", 200, false, &no_config());
    controller.handle_app_state_change("com.c", 300, true, &no_config());
    controller.handle_screen_off();
    controller.standby_timer_scheduled(5);
    let effects = controller.on_timer_fired(5);
    assert_eq!(effects.len(), 3);
    assert_eq!(effects[0], audit(None, "Smart Standby triggered, freezing background apps"));
    assert!(effects.contains(&signal(100, Signal::Stop)));
    assert!(effects.contains(&signal(200, Signal::Stop)));
    assert_eq!(controller.state_of("com.a"), Some(AppState::Frozen(100)));
    assert_eq!(controller.state_of("com.b"), Some(AppState::Frozen(200)));
    assert_eq!(controller.state_of("com.c"), Some(AppState::Foreground(300)));
    assert_eq!(controller.standby_timer(), None);
    assert!(controller.on_timer_fired(5).is_empty());
}

#[test]
fn unknown_timer_is_ignored() {
    let mut controller = LogicController::new();
    controller.handle_app_state_change("com.a", 100, false, &no_config());
    controller.standby_timer_scheduled(5);
    assert!(controller.on_timer_fired(6).is_empty());
    assert_eq!(controller.state_of("com.a"), Some(AppState::Background(100)));
    assert_eq!(controller.standby_timer(), Some(5));
}

#[test]
fn scenario_temporary_unfreeze_then_refreeze() {
    let mut controller = frozen_controller("com.a", 100);
    let reason = UnfreezeReason { label: "X".to_string() };
    let effects = controller.request_temporary_unfreeze("com.a", &reason, 5000);
    assert_eq!(
        effects,
        vec![
            signal(100, Signal::Continue),
            audit(Some("com.a"), "Temporarily unfrozen for X"),
            Effect::ScheduleRefreeze { package_name: "com.a".to_string(), duration_ms: 5000 },
        ]
    );
    assert!(controller.refreeze_timer_scheduled("com.a", 2).is_empty());
    assert_eq!(
        controller.state_of("com.a"),
        Some(AppState::TemporarilyUnfrozen { pid: 100, refreeze_timer_id: 2 })
    );
    let effects = controller.on_timer_fired(2);
    assert_eq!(
        effects,
        vec![
            audit(Some("com.a"), "Re-freezing after temporary exemption"),
            signal(100, Signal::Stop),
        ]
    );
    assert_eq!(controller.state_of("com.a"), Some(AppState::Frozen(100)));
}

#[test]
fn temporary_unfreeze_of_package_that_is_not_frozen_does_nothing() {
    let mut controller = LogicController::new();
    let reason = UnfreezeReason { label: "PUSH".to_string() };
    assert!(controller.request_temporary_unfreeze("com.a", &reason, 5000).is_empty());
    controller.handle_app_state_change("com.a", 100, false, &no_config());
    assert!(controller.request_temporary_unfreeze("com.a", &reason, 5000).is_empty());
    assert_eq!(controller.state_of("com.a"), Some(AppState::Background(100)));
}

#[test]
fn refreeze_timer_for_package_no_longer_frozen_is_cancelled() {
    let mut controller = frozen_controller("com.a", 100);
    controller.handle_app_state_change("com.a", 100, true, &no_config());
    let effects = controller.refreeze_timer_scheduled("com.a", 9);
    assert_eq!(effects, vec![Effect::CancelTimer { timer_id: 9 }]);
    assert_eq!(controller.state_of("com.a"), Some(AppState::Foreground(100)));
    let effects = controller.refreeze_timer_scheduled("com.unknown", 10);
    assert_eq!(effects, vec![Effect::CancelTimer { timer_id: 10 }]);
    assert_eq!(controller.state_of("com.unknown"), None);
}

#[test]
fn foreground_cancels_refreeze_timer_and_late_firing_is_stale() {
    let mut controller = frozen_controller("com.a", 100);
    controller.refreeze_timer_scheduled("com.a", 2);
    let effects = controller.handle_app_state_change("com.a", 100, true, &no_config());
    assert_eq!(
        effects,
        vec![
            audit(Some("com.a"), "App became foreground"),
            Effect::CancelTimer { timer_id: 2 },
            signal(100, Signal::Continue),
        ]
    );
    assert!(controller.on_timer_fired(2).is_empty());
    assert_eq!(controller.state_of("com.a"), Some(AppState::Foreground(100)));
}

#[test]
fn standby_timer_takes_precedence_over_refreeze_timer_of_same_id() {
    let mut controller = frozen_controller("com.a", 100);
    controller.refreeze_timer_scheduled("com.a", 3);
    controller.standby_timer_scheduled(3);
    let effects = controller.on_timer_fired(3);
    assert_eq!(effects, vec![audit(None, "Smart Standby triggered, freezing background apps")]);
    assert_eq!(
        controller.state_of("com.a"),
        Some(AppState::TemporarilyUnfrozen { pid: 100, refreeze_timer_id: 3 })
    );
    let effects = controller.on_timer_fired(3);
    assert_eq!(effects[1], signal(100, Signal::Stop));
    assert_eq!(controller.state_of("com.a"), Some(AppState::Frozen(100)));
}

#[test]
fn should_allow_launch_without_rule_allows() {
    let controller = LogicController::new();
    let rule = LaunchRule {
        source_package: "com.a".to_string(),
        target_package: "com.b".to_string(),
        allowed: false,
    };
    let lookup: RuleLookup = Ok(None);
    let (answer, effects) = controller.should_allow_launch(&rule, &lookup);
    assert_eq!(
        answer,
        LaunchRule {
            source_package: "com.a".to_string(),
            target_package: "com.b".to_string(),
            allowed: true,
        }
    );
    assert!(effects.is_empty());
}

#[test]
fn should_allow_launch_returns_stored_rule_value() {
    let controller = LogicController::new();
    let rule = LaunchRule {
        source_package: "com.a".to_string(),
        target_package: "com.b".to_string(),
        allowed: true,
    };
    let allow: RuleLookup = Ok(Some(true));
    let block: RuleLookup = Ok(Some(false));
    let (answer, effects) = controller.should_allow_launch(&rule, &allow);
    assert!(answer.allowed);
    assert!(effects.is_empty());
    let (answer, effects) = controller.should_allow_launch(&rule, &block);
    assert!(!answer.allowed);
    assert_eq!(answer.source_package, "com.a");
    assert_eq!(answer.target_package, "com.b");
    assert_eq!(effects, vec![audit(Some("com.a"), "Blocked launch towards com.b")]);
}

#[test]
fn should_allow_launch_fails_open_on_store_failure() {
    let controller = LogicController::new();
    let rule = LaunchRule {
        source_package: "com.a".to_string(),
        target_package: "com.b".to_string(),
        allowed: false,
    };
    let lookup: RuleLookup = Err(StoreError { message: "database is locked".to_string() });
    let (answer, effects) = controller.should_allow_launch(&rule, &lookup);
    assert!(answer.allowed);
    assert!(effects.is_empty());
}

#[test]
fn scenario_memory_cleanup_kills_least_recent_background_package() {
    let mut controller = LogicController::new();
    controller.handle_app_state_change("com.a", 100, true, &no_config());
    controller.handle_app_state_change("com.a", 100, false, &unrestricted());
    assert_eq!(controller.state_of("com.a"), Some(AppState::Background(100)));
    let effects = controller.perform_memory_cleanup(100 * 1024);
    assert_eq!(
        effects,
        vec![
            audit(None, "Low memory detected, starting cleanup."),
            audit(Some("com.a"), "Killed due to low memory"),
            signal(100, Signal::Kill),
        ]
    );
    assert_eq!(controller.state_of("com.a"), Some(AppState::Frozen(100)));
}

#[test]
fn memory_cleanup_does_nothing_at_or_above_threshold() {
    let mut controller = LogicController::new();
    controller.handle_app_state_change("com.a", 100, false, &no_config());
    assert!(controller.perform_memory_cleanup(500 * 1024).is_empty());
    assert!(controller.perform_memory_cleanup(i64::MAX).is_empty());
    assert_eq!(controller.state_of("com.a"), Some(AppState::Background(100)));
    assert_eq!(controller.perform_memory_cleanup(500 * 1024 - 1).len(), 3);
}

#[test]
fn memory_cleanup_looks_at_three_least_recent_and_skips_foreground() {
    let mut controller = LogicController::new();
    controller.handle_app_state_change("com.a", 1, false, &no_config());
    controller.handle_app_state_change("com.b", 2, false, &no_config());
    controller.handle_app_state_change("com.c", 3, false, &strict(FreezeMode::ModeSigstop));
    controller.handle_app_state_change("com.d", 4, false, &no_config());
    controller.handle_app_state_change("com.b", 2, true, &no_config());
    let effects = controller.perform_memory_cleanup(-1);
    assert_eq!(
        effects,
        vec![
            audit(None, "Low memory detected, starting cleanup."),
            audit(Some("com.a"), "Killed due to low memory"),
            signal(1, Signal::Kill),
            audit(Some("com.c"), "Killed due to low memory"),
            signal(3, Signal::Kill),
        ]
    );
    assert_eq!(controller.state_of("com.a"), Some(AppState::Frozen(1)));
    assert_eq!(controller.state_of("com.b"), Some(AppState::Foreground(2)));
    assert_eq!(controller.state_of("com.c"), Some(AppState::Frozen(3)));
    assert_eq!(controller.state_of("com.d"), Some(AppState::Background(4)));
}

#[test]
fn memory_cleanup_with_nothing_tracked_only_logs() {
    let mut controller = LogicController::new();
    let effects = controller.perform_memory_cleanup(0);
    assert_eq!(effects, vec![audit(None, "Low memory detected, starting cleanup.")]);
}

#[test]
fn runtime_stats_count_frozen_packages() {
    let mut controller = LogicController::new();
    controller.handle_app_state_change("com.a", 1, false, &strict(FreezeMode::ModeSigstop));
    controller.handle_app_state_change("com.b", 2, false, &strict(FreezeMode::ModeKill));
    controller.handle_app_state_change("com.c", 3, false, &no_config());
    assert_eq!(
        controller.get_runtime_stats(8_000_000, 1_000_000),
        RuntimeStats {
            total_mem_kb: 8_000_000,
            avail_mem_kb: 1_000_000,
            frozen_app_count: 2,
            network_speed_bps: 0,
        }
    );
}

#[test]
fn set_app_config_logs_update() {
    let controller = LogicController::new();
    let stored: Result<(), StoreError> = Ok(());
    let effects = controller.set_app_config(
        &config(ManagementPolicy::Unrestricted, FreezeMode::ModeSigstop, OomPriority::OomNormal),
        &stored,
    );
    assert_eq!(effects, vec![audit(Some("com.a"), "Configuration updated")]);
}

#[test]
fn set_app_config_logs_store_failure() {
    let controller = LogicController::new();
    let failed: Result<(), StoreError> = Err(StoreError { message: "disk full".to_string() });
    let effects = controller.set_app_config(
        &config(ManagementPolicy::Unrestricted, FreezeMode::ModeSigstop, OomPriority::OomNormal),
        &failed,
    );
    assert_eq!(effects, vec![audit(Some("com.a"), "Error setting config: disk full")]);
}

fn log_entry(timestamp: i64) -> EventLog {
    EventLog {
        timestamp,
        package_name: "com.a".to_string(),
        event_description: "App became foreground".to_string(),
    }
}

#[test]
fn recent_events_are_bounded_by_limit() {
    let controller = LogicController::new();
    let stored = vec![log_entry(3), log_entry(2), log_entry(1)];
    assert_eq!(controller.get_recent_events(5, Ok(stored.clone())), stored);
    assert_eq!(controller.get_recent_events(3, Ok(stored.clone())), stored);
    assert_eq!(
        controller.get_recent_events(2, Ok(stored.clone())),
        vec![log_entry(3), log_entry(2)]
    );
    assert!(controller.get_recent_events(0, Ok(stored)).is_empty());
}

#[test]
fn recent_events_are_empty_on_store_failure() {
    let controller = LogicController::new();
    let failed = Err(StoreError { message: "no such table".to_string() });
    assert!(controller.get_recent_events(10, failed).is_empty());
}

#[test]
fn tracked_pids_stay_positive_through_a_run_of_events() {
    let mut controller = LogicController::new();
    let packages = ["com.a", "com.b", "com.c", "com.d"];
    for round in 0..20i32 {
        for (index, package) in packages.iter().enumerate() {
            let pid = round - 5 + index as i32;
            controller.handle_app_state_change(package, pid, (round + index as i32) % 3 == 0, &strict(FreezeMode::ModeSigstop));
        }
        controller.perform_memory_cleanup(0);
        controller.standby_timer_scheduled(round as i64);
        controller.on_timer_fired(round as i64);
    }
    for package in packages {
        let state = controller.state_of(package).unwrap();
        assert!(state.pid() > 0);
    }
    assert_eq!(controller.state_of(""), None);
}
