use thanatos_logic::config::{
    configured_priority, AppConfig, ConfigLookup, FreezeMode, ManagementPolicy, OomPriority,
    RuleLookup, StoreError,
};
use thanatos_logic::effects::{ProcessCommand, Signal};
use thanatos_logic::events::pid_of;
use thanatos_logic::execution_manager::{freeze_app, freeze_signal, unfreeze_app};
use thanatos_logic::policy::{decide_background_freeze, decide_launch};

fn config(policy: ManagementPolicy, priority: OomPriority) -> AppConfig {
    AppConfig {
        package_name: "com.a".to_string(),
        policy,
        freeze_mode: FreezeMode::ModeSigstop,
        oom_priority: priority,
        network_policy: 0,
        allow_wakeup_for_push: false,
        allow_autostart: true,
    }
}

fn failure() -> StoreError {
    StoreError { message: "disk I/O error".to_string() }
}

#[test]
fn launch_without_rule_is_allowed() {
    let lookup: RuleLookup = Ok(None);
    assert!(decide_launch(&lookup));
}

#[test]
fn launch_follows_stored_rule() {
    let allow: RuleLookup = Ok(Some(true));
    let block: RuleLookup = Ok(Some(false));
    assert!(decide_launch(&allow));
    assert!(!decide_launch(&block));
}

#[test]
fn launch_fails_open_on_store_failure() {
    let lookup: RuleLookup = Err(failure());
    assert!(decide_launch(&lookup));
}

#[test]
fn strict_background_policy_freezes() {
    let lookup: ConfigLookup =
        Ok(Some(config(ManagementPolicy::StrictBackground, OomPriority::OomNormal)));
    assert!(decide_background_freeze(&lookup));
}

#[test]
fn other_policies_do_not_freeze() {
    let unrestricted: ConfigLookup =
        Ok(Some(config(ManagementPolicy::Unrestricted, OomPriority::OomNormal)));
    let unspecified: ConfigLookup =
        Ok(Some(config(ManagementPolicy::Unspecified, OomPriority::OomNormal)));
    assert!(!decide_background_freeze(&unrestricted));
    assert!(!decide_background_freeze(&unspecified));
}

#[test]
fn missing_or_failed_config_does_not_freeze() {
    let missing: ConfigLookup = Ok(None);
    let failed: ConfigLookup = Err(failure());
    assert!(!decide_background_freeze(&missing));
    assert!(!decide_background_freeze(&failed));
}

#[test]
fn configured_priority_defaults_to_unspecified() {
    let found: ConfigLookup = Ok(Some(config(ManagementPolicy::Unrestricted, OomPriority::OomLow)));
    let missing: ConfigLookup = Ok(None);
    let failed: ConfigLookup = Err(failure());
    assert_eq!(configured_priority(&found), OomPriority::OomLow);
    assert_eq!(configured_priority(&missing), OomPriority::OomUnspecified);
    assert_eq!(configured_priority(&failed), OomPriority::OomUnspecified);
}

#[test]
fn freeze_signal_of_each_mode() {
    assert_eq!(freeze_signal(FreezeMode::ModeSigstop), Signal::Stop);
    assert_eq!(freeze_signal(FreezeMode::ModeKill), Signal::Kill);
    assert_eq!(freeze_signal(FreezeMode::ModeHibernate), Signal::Stop);
    assert_eq!(freeze_signal(FreezeMode::ModeUnspecified), Signal::Stop);
}

#[test]
fn freeze_app_issues_the_signal_of_the_mode() {
    assert_eq!(
        freeze_app(42, FreezeMode::ModeSigstop),
        Some(ProcessCommand { pid: 42, signal: Signal::Stop })
    );
    assert_eq!(
        freeze_app(42, FreezeMode::ModeKill),
        Some(ProcessCommand { pid: 42, signal: Signal::Kill })
    );
    assert_eq!(
        freeze_app(42, FreezeMode::ModeHibernate),
        Some(ProcessCommand { pid: 42, signal: Signal::Stop })
    );
    assert_eq!(
        freeze_app(42, FreezeMode::ModeUnspecified),
        Some(ProcessCommand { pid: 42, signal: Signal::Stop })
    );
}

#[test]
fn freeze_app_ignores_invalid_pid() {
    assert_eq!(freeze_app(0, FreezeMode::ModeKill), None);
    assert_eq!(freeze_app(-1, FreezeMode::ModeSigstop), None);
    assert_eq!(freeze_app(i32::MIN, FreezeMode::ModeSigstop), None);
}

#[test]
fn unfreeze_app_resumes_valid_pid_only() {
    assert_eq!(unfreeze_app(7), Some(ProcessCommand { pid: 7, signal: Signal::Continue }));
    assert_eq!(unfreeze_app(i32::MAX), Some(ProcessCommand { pid: i32::MAX, signal: Signal::Continue }));
    assert_eq!(unfreeze_app(0), None);
    assert_eq!(unfreeze_app(-3), None);
}

#[test]
fn pid_field_is_read_as_decimal() {
    assert_eq!(pid_of("100"), 100);
    assert_eq!(pid_of("+7"), 7);
    assert_eq!(pid_of("-12"), -12);
    assert_eq!(pid_of("2147483647"), i32::MAX);
}

#[test]
fn unreadable_pid_field_names_no_process() {
    assert_eq!(pid_of(""), 0);
    assert_eq!(pid_of("com.a"), 0);
    assert_eq!(pid_of("12x"), 0);
    assert_eq!(pid_of(" 12"), 0);
    assert_eq!(pid_of("2147483648"), 0);
}
