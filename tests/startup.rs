use app_lib::fatal::dialogs_for;
use app_lib::plugins::{
    builder_plugins, setup_plugins, startup_plugins, LogLevel, Plugin, DEBUG_LOG_LEVEL,
};

#[test]
fn store_registered_in_debug_build() {
    let p = startup_plugins(true);
    assert!(p.contains(&Plugin::Store));
}

#[test]
fn store_registered_in_release_build() {
    let p = startup_plugins(false);
    assert!(p.contains(&Plugin::Store));
}

#[test]
fn debug_build_registers_info_logger() {
    let p = startup_plugins(true);
    assert_eq!(p, vec![Plugin::Store, Plugin::Log { level: LogLevel::Info }]);
}

#[test]
fn release_build_registers_no_logger() {
    let p = startup_plugins(false);
    assert_eq!(p, vec![Plugin::Store]);
    assert!(!p.iter().any(|x| matches!(x, Plugin::Log { .. })));
}

#[test]
fn builder_gets_only_the_store() {
    assert_eq!(builder_plugins(), vec![Plugin::Store]);
}

#[test]
fn setup_registers_logger_only_in_debug() {
    assert_eq!(setup_plugins(true), vec![Plugin::Log { level: LogLevel::Info }]);
    assert_eq!(setup_plugins(false), vec![]);
}

#[test]
fn debug_log_level_is_info() {
    assert_eq!(DEBUG_LOG_LEVEL, LogLevel::Info);
}

#[test]
fn failed_run_shows_one_error_dialog() {
    let d = dialogs_for(&Err("store init failed".to_string()));
    assert_eq!(d.len(), 1);
    assert_eq!(d[0].title, "Error");
    assert_eq!(d[0].body, "store init failed");
}

#[test]
fn successful_run_shows_no_dialog() {
    let d = dialogs_for(&Ok(()));
    assert_eq!(d.len(), 0);
}

#[test]
fn error_text_is_kept_verbatim() {
    let d = dialogs_for(&Err(String::new()));
    assert_eq!(d.len(), 1);
    assert_eq!(d[0].title, "Error");
    assert_eq!(d[0].body, "");
    let d = dialogs_for(&Err("window: \"main\" not found\nretry".to_string()));
    assert_eq!(d[0].body, "window: \"main\" not found\nretry");
}
