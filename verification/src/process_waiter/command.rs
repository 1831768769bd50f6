//! What the supervisor is started with: the command to supervise and the
//! place of the control pipe.

use crate::paths::path_text;
use crate::text::push_text;
use std::path::PathBuf;
use vstd::prelude::*;

verus! {

/// How many random characters end the name of a generated control pipe.
pub const GENERATED_NAME_RANDOM_LEN: usize = 5;

/// `process-waiter` is a simple process supervisor that listens for
/// instructions on a Unix named pipe.
#[derive(Clone, Debug)]
pub struct Command {
    /// Command to supervise.
    pub command: Vec<String>,
    /// Path where the control pipe should be created.
    pub control_path: Option<PathBuf>,
}

/// Where the control pipe goes.
#[derive(Clone, Debug)]
pub enum ControlPath {
    /// At the path that was asked for.
    Configured(PathBuf),
    /// At a fresh path in the system's temporary directory, whose file name
    /// is `prefix` followed by `random_len` random characters.
    Generated { prefix: String, random_len: usize },
}

/// The beginning of the name of every generated control pipe.
pub open spec fn generated_name_prefix() -> Seq<char> {
    "S.proc_waiter."@
}

/// The place of the control pipe: the configured path where there is one,
/// else a fresh path under the recognizable prefix.
pub fn make_control_path(control_path: Option<&PathBuf>) -> (place: ControlPath)
    ensures
        match control_path {
            Some(path) => place matches ControlPath::Configured(chosen) && path_text(chosen)
                == path_text(*path),
            None => place matches ControlPath::Generated { prefix, random_len } && prefix@
                == generated_name_prefix() && random_len == GENERATED_NAME_RANDOM_LEN,
        },
{
    match control_path {
        Some(path) => ControlPath::Configured(path.clone()),
        None => {
            let mut prefix = String::new();
            push_text(&mut prefix, "S.proc_waiter.");
            ControlPath::Generated { prefix, random_len: GENERATED_NAME_RANDOM_LEN }
        },
    }
}

/// Why a configuration was turned down.
#[derive(Clone, Copy, Debug, PartialEq, Eq, Structural)]
pub enum ConfigError {
    /// No command to supervise was given.
    EmptyCommand,
}

impl ConfigError {
    /// The sentence that reports the error.
    pub open spec fn message_text(self) -> Seq<char> {
        "no command to supervise was given"@
    }

    /// The sentence that reports the error.
    pub fn message(&self) -> (text: String)
        ensures
            text@ == self.message_text(),
    {
        let mut text = String::new();
        push_text(&mut text, "no command to supervise was given");
        text
    }
}

/// What a supervisor is started with. Built once and never changed; the
/// command always has at least one word, the program to run.
pub struct SupervisorConfig {
    command: Vec<String>,
    control_path: Option<PathBuf>,
}

impl SupervisorConfig {
    #[verifier::type_invariant]
    spec fn has_program(self) -> bool {
        self.command@.len() > 0
    }

    /// The words of the command, the program first.
    pub closed spec fn command_words(&self) -> Seq<String> {
        self.command@
    }

    /// The path that was asked for, if any.
    pub closed spec fn configured_path(&self) -> Option<PathBuf> {
        self.control_path
    }

    /// A configuration for `command`, which must have at least one word, and
    /// for the control path that was asked for, if any.
    pub fn new(command: Vec<String>, control_path: Option<PathBuf>) -> (r: Result<
        SupervisorConfig,
        ConfigError,
    >)
        ensures
            match r {
                Ok(config) => command@.len() > 0 && config.command_words() == command@
                    && config.configured_path() == control_path,
                Err(e) => command@.len() == 0 && e == ConfigError::EmptyCommand,
            },
    {
        if command.len() == 0 {
            Err(ConfigError::EmptyCommand)
        } else {
            Ok(SupervisorConfig { command, control_path })
        }
    }

    /// The words of the command, the program first; never empty.
    pub fn command(&self) -> (words: &Vec<String>)
        ensures
            words@ == self.command_words(),
            words@.len() > 0,
    {
        proof {
            use_type_invariant(self);
        }
        &self.command
    }

    /// The program to run.
    pub fn program(&self) -> (program: &String)
        ensures
            self.command_words().len() > 0,
            *program == self.command_words()[0],
    {
        proof {
            use_type_invariant(self);
        }
        &self.command[0]
    }

    /// The place of the control pipe.
    pub fn control_path(&self) -> (place: ControlPath)
        ensures
            match self.configured_path() {
                Some(path) => place matches ControlPath::Configured(chosen) && path_text(chosen)
                    == path_text(path),
                None => place matches ControlPath::Generated { prefix, random_len } && prefix@
                    == generated_name_prefix() && random_len == GENERATED_NAME_RANDOM_LEN,
            },
    {
        make_control_path(self.control_path.as_ref())
    }
}

impl Command {
    /// The configuration that this command line asks for.
    pub fn config(self) -> (r: Result<SupervisorConfig, ConfigError>)
        ensures
            match r {
                Ok(config) => self.command@.len() > 0 && config.command_words() == self.command@
                    && config.configured_path() == self.control_path,
                Err(e) => self.command@.len() == 0 && e == ConfigError::EmptyCommand,
            },
    {
        SupervisorConfig::new(self.command, self.control_path)
    }
}

} // verus!
