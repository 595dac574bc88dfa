use iced_lens::paths::{
    get_app_config_dir, get_app_config_dir_with_override, get_app_data_dir,
    get_app_data_dir_with_override, resolve_app_dir, APP_NAME,
};
use iced_lens::persisted_state::{
    state_load_uses_file, state_load_warning, state_save_warning, AppState, StateReadResult,
    StateWriteResult,
};

#[test]
fn app_data_dir_contains_app_name() {
    if let Some(path) = get_app_data_dir(None, None) {
        assert!(path.contains(APP_NAME), "App data dir should contain app name");
    }
}

#[test]
fn app_data_dir_is_absolute() {
    if let Some(path) = get_app_data_dir(None, None) {
        assert!(std::path::Path::new(&path).is_absolute(), "App data dir should be absolute path");
    }
}

#[test]
fn app_config_dir_contains_app_name() {
    if let Some(path) = get_app_config_dir(None, None) {
        assert!(path.contains(APP_NAME), "App config dir should contain app name");
    }
}

#[test]
fn app_config_dir_is_absolute() {
    if let Some(path) = get_app_config_dir(None, None) {
        assert!(std::path::Path::new(&path).is_absolute(), "App config dir should be absolute path");
    }
}

#[test]
fn override_path_takes_precedence_for_data_dir() {
    let override_path = "/custom/data/path".to_string();
    let result = get_app_data_dir_with_override(Some(override_path.clone()), None, None);
    assert_eq!(result, Some(override_path));
}

#[test]
fn override_path_takes_precedence_for_config_dir() {
    let override_path = "/custom/config/path".to_string();
    let result = get_app_config_dir_with_override(Some(override_path.clone()), None, None);
    assert_eq!(result, Some(override_path));
}

#[test]
fn env_var_overrides_default_data_dir() {
    let test_path = "/test/data/dir".to_string();
    let result = get_app_data_dir(None, Some(test_path.clone()));
    assert_eq!(result, Some(test_path));
}

#[test]
fn env_var_overrides_default_config_dir() {
    let test_path = "/test/config/dir".to_string();
    let result = get_app_config_dir(None, Some(test_path.clone()));
    assert_eq!(result, Some(test_path));
}

#[test]
fn empty_env_var_uses_default() {
    let result = get_app_data_dir(None, Some(String::new()));
    if let Some(path) = result {
        assert!(path.contains(APP_NAME));
    }
}

#[test]
fn override_path_takes_precedence_over_env_var() {
    let override_path = "/override/path".to_string();
    let result = get_app_data_dir_with_override(
        Some(override_path.clone()),
        None,
        Some("/env/path".to_string()),
    );
    assert_eq!(result, Some(override_path));
}

// Scenarios beyond the original suite.

#[test]
fn cli_value_wins_over_environment() {
    let r = get_app_config_dir(Some("/cli".to_string()), Some("/env".to_string()));
    assert_eq!(r, Some("/cli".to_string()));
}

#[test]
fn platform_directory_gets_app_name_appended() {
    let r = resolve_app_dir(None, None, None, Some("/home/u/.local/share".to_string()));
    assert_eq!(r, Some("/home/u/.local/share/IcedLens".to_string()));
    assert_eq!(resolve_app_dir(None, None, Some(String::new()), None), None);
}

#[test]
fn default_state_has_no_last_directory() {
    let state = AppState::default();
    assert!(state.last_save_directory.is_none());
}

#[test]
fn set_last_save_directory_extracts_parent() {
    let mut state = AppState::default();
    state.set_last_save_directory_from_file("/home/user/images/photo.png");
    assert_eq!(state.last_save_directory, Some("/home/user/images".to_string()));
}

#[test]
fn set_last_save_directory_ignores_root() {
    let mut state = AppState::default();
    state.set_last_save_directory_from_file("/");
    assert!(state.last_save_directory.is_none());
}

#[test]
fn set_last_open_directory_extracts_parent() {
    let mut state = AppState::default();
    state.set_last_open_directory_from_file("/home/user/photos/image.jpg");
    assert_eq!(state.last_open_directory, Some("/home/user/photos".to_string()));
}

#[test]
fn set_last_open_directory_ignores_root() {
    let mut state = AppState::default();
    state.set_last_open_directory_from_file("/");
    assert!(state.last_open_directory.is_none());
}

#[test]
fn state_file_lies_in_data_dir() {
    assert_eq!(
        AppState::state_file_path_with_override(Some("/data/IcedLens")),
        Some("/data/IcedLens/state.cbor".to_string())
    );
    assert_eq!(AppState::state_file_path_with_override(None), None);
}

#[test]
fn state_read_and_write_warnings() {
    assert_eq!(state_load_warning(StateReadResult::Missing), None);
    assert_eq!(
        state_load_warning(StateReadResult::ParseFailed),
        Some("notification-state-parse-error".to_string())
    );
    assert_eq!(
        state_load_warning(StateReadResult::OpenFailed),
        Some("notification-state-read-error".to_string())
    );
    assert!(state_load_uses_file(StateReadResult::Loaded));
    assert!(!state_load_uses_file(StateReadResult::ParseFailed));
    assert_eq!(state_save_warning(StateWriteResult::Written), None);
    assert_eq!(
        state_save_warning(StateWriteResult::NoPath),
        Some("notification-state-path-error".to_string())
    );
    assert_eq!(
        state_save_warning(StateWriteResult::CreateFailed),
        Some("notification-state-create-error".to_string())
    );
}
