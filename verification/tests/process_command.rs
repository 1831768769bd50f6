use miscutils::process_waiter::command::{
    make_control_path, Command, ConfigError, ControlPath, SupervisorConfig,
    GENERATED_NAME_RANDOM_LEN,
};
use miscutils::process_waiter::error::Error;
use std::path::PathBuf;

fn words(list: &[&str]) -> Vec<String> {
    list.iter().map(|word| word.to_string()).collect()
}

#[test]
fn a_configured_control_path_is_kept() {
    let path = PathBuf::from("/run/waiter/control");
    match make_control_path(Some(&path)) {
        ControlPath::Configured(chosen) => assert_eq!(chosen, path),
        other => panic!("unexpected place: {:?}", other),
    }
}

#[test]
fn a_missing_control_path_is_generated_under_the_prefix() {
    match make_control_path(None) {
        ControlPath::Generated { prefix, random_len } => {
            assert_eq!(prefix, "S.proc_waiter.");
            assert_eq!(random_len, 5);
            assert_eq!(random_len, GENERATED_NAME_RANDOM_LEN);
        }
        other => panic!("unexpected place: {:?}", other),
    }
}

#[test]
fn a_configuration_needs_a_command() {
    assert!(matches!(
        SupervisorConfig::new(vec![], None),
        Err(ConfigError::EmptyCommand)
    ));
    assert!(matches!(
        SupervisorConfig::new(vec![], Some(PathBuf::from("/tmp/p"))),
        Err(ConfigError::EmptyCommand)
    ));
}

#[test]
fn a_configuration_keeps_the_command_verbatim() {
    let config = match SupervisorConfig::new(words(&["sleep", "5"]), None) {
        Ok(config) => config,
        Err(e) => panic!("unexpected error: {:?}", e),
    };
    assert_eq!(config.command(), &words(&["sleep", "5"]));
    assert_eq!(config.program(), "sleep");
    assert!(matches!(config.control_path(), ControlPath::Generated { .. }));
}

#[test]
fn a_configuration_does_not_interpret_the_command() {
    let odd = words(&["sh -c", "$HOME", "", "a b"]);
    let config = match SupervisorConfig::new(odd.clone(), Some(PathBuf::from("ctl"))) {
        Ok(config) => config,
        Err(e) => panic!("unexpected error: {:?}", e),
    };
    assert_eq!(config.command(), &odd);
    assert_eq!(config.program(), "sh -c");
    match config.control_path() {
        ControlPath::Configured(path) => assert_eq!(path, PathBuf::from("ctl")),
        other => panic!("unexpected place: {:?}", other),
    }
}

#[test]
fn a_command_line_gives_its_configuration() {
    let command = Command {
        command: words(&["false"]),
        control_path: Some(PathBuf::from("/tmp/ctl")),
    };
    let config = match command.config() {
        Ok(config) => config,
        Err(e) => panic!("unexpected error: {:?}", e),
    };
    assert_eq!(config.program(), "false");
    let empty = Command { command: vec![], control_path: None };
    assert!(matches!(empty.config(), Err(ConfigError::EmptyCommand)));
}

#[test]
fn config_error_message() {
    assert_eq!(
        ConfigError::EmptyCommand.message(),
        "no command to supervise was given"
    );
}

#[test]
fn process_waiter_error_messages() {
    assert_eq!(
        Error::InternalError { description: "oops".to_string() }.message(),
        "internal error occurred: oops"
    );
    assert_eq!(
        Error::PathDoesNotExist { name: "/gone".to_string() }.message(),
        "path does not exist: /gone"
    );
}
