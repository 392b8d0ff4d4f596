//! Paths under the configuration directory, and edits of a loaded
//! configuration.
use granary::models::config::ActionConfig;
use granary::services::global_config::{
    actions_dir, config_dir_for, config_path, daemon_auth_token_path, daemon_dir, daemon_log_path,
    daemon_pid_path, daemon_socket_path, get_runner, global_db_path, inline_action, is_first_run, list_runners,
    logs_dir, remove_action, remove_runner, set_action, set_runner, worker_logs_dir, GlobalConfig, RunnerConfig,
};
use std::path::Path;

#[test]
fn test_config_path() {
    let path = config_path();
    assert!(path.is_ok());
    let path = path.unwrap();
    assert!(Path::new(&path).ends_with("config.toml"));
}

#[test]
fn test_daemon_dir() {
    let dir = daemon_dir();
    assert!(dir.is_ok());
    let dir = dir.unwrap();
    assert!(Path::new(&dir).ends_with("daemon"));
    assert!(Path::new(&dir).parent().unwrap().ends_with(".granary"));
}

#[test]
fn test_daemon_socket_path() {
    let path = daemon_socket_path();
    assert!(path.is_ok());
    let path = path.unwrap();
    assert!(Path::new(&path).ends_with("granaryd.sock"));
}

#[test]
fn test_daemon_pid_path() {
    let path = daemon_pid_path();
    assert!(path.is_ok());
    let path = path.unwrap();
    assert!(Path::new(&path).ends_with("granaryd.pid"));
}

#[test]
fn test_daemon_log_path() {
    let path = daemon_log_path();
    assert!(path.is_ok());
    let path = path.unwrap();
    assert!(Path::new(&path).ends_with("daemon.log"));
}

#[test]
fn test_daemon_auth_token_path() {
    let path = daemon_auth_token_path();
    assert!(path.is_ok());
    let path = path.unwrap();
    assert!(Path::new(&path).ends_with("auth.token"));
    assert!(Path::new(&path).parent().unwrap().ends_with("daemon"));
}

#[test]
fn test_is_first_run() {
    // The answer depends on whether ~/.granary exists on this system.
    let result = is_first_run();
    assert!(result.is_ok());
    let _is_first = result.unwrap();
}

#[test]
fn test_actions_dir() {
    let dir = actions_dir();
    assert!(dir.is_ok());
    let dir = dir.unwrap();
    assert!(Path::new(&dir).ends_with("actions"));
    assert!(Path::new(&dir).parent().unwrap().ends_with(".granary"));
}

#[test]
fn config_dir_for_a_home_and_for_none() {
    assert_eq!(config_dir_for(Some("/home/ana")).unwrap(), "/home/ana/.granary");
    assert_eq!(config_dir_for(Some("/home/ana/")).unwrap(), "/home/ana/.granary");
    let err = config_dir_for(None).unwrap_err();
    assert_eq!(err.message(), "Global config error: Could not determine home directory");
}

#[test]
fn other_paths_under_the_config_dir() {
    assert!(Path::new(&global_db_path().unwrap()).ends_with(".granary/workers.db"));
    assert!(Path::new(&logs_dir().unwrap()).ends_with(".granary/logs"));
    assert!(Path::new(&worker_logs_dir("worker-1").unwrap()).ends_with(".granary/logs/worker-1"));
}

fn runner(command: &str) -> RunnerConfig {
    RunnerConfig { command: command.to_string(), args: vec![], concurrency: None, on: None, env: vec![] }
}

#[test]
fn runners_set_get_list_remove() {
    let mut config = GlobalConfig::new();
    set_runner(&mut config, "coder", runner("coder"));
    set_runner(&mut config, "echo", runner("echo"));
    set_runner(&mut config, "coder", runner("coder-code"));
    assert_eq!(get_runner(&config, "coder").unwrap().command, "coder-code");
    assert_eq!(list_runners(&config), vec!["coder".to_string(), "echo".to_string()]);
    assert!(remove_runner(&mut config, "coder"));
    assert!(!remove_runner(&mut config, "coder"));
    assert!(get_runner(&config, "coder").is_none());
    assert_eq!(list_runners(&config), vec!["echo".to_string()]);
}

#[test]
fn inline_actions_set_get_remove() {
    let mut config = GlobalConfig::new();
    set_action(&mut config, "deploy", ActionConfig::new("inline-deploy"));
    assert_eq!(inline_action(&config, "deploy").unwrap().command.as_deref(), Some("inline-deploy"));
    assert!(inline_action(&config, "other").is_none());
    assert!(remove_action(&mut config, "deploy"));
    assert!(inline_action(&config, "deploy").is_none());
}

#[test]
fn removing_a_runner_just_set_restores_the_rest() {
    let mut config = GlobalConfig::new();
    set_runner(&mut config, "keep", runner("keep"));
    set_runner(&mut config, "temp", runner("temp"));
    assert!(remove_runner(&mut config, "temp"));
    assert!(get_runner(&config, "temp").is_none());
    assert_eq!(get_runner(&config, "keep").unwrap().command, "keep");
    assert_eq!(list_runners(&config), vec!["keep"]);
}
