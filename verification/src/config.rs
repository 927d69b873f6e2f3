//! What the daemon is told about the shells it starts.

use vstd::prelude::*;

verus! {

/// How much of a session's screen is shown again to a client that joins it.
#[derive(Clone, Copy, Debug, PartialEq, Eq, Structural)]
pub enum SessionRestoreMode {
    /// Nothing but a prompt.
    Simple,
    /// The screen as it stood.
    Screen,
    /// The last lines of output, this many.
    Lines(u16),
}

/// The daemon's settings. A field that is `None` was left unset.
#[derive(Clone, Debug)]
pub struct Config {
    /// The shell to start in place of the user's own.
    pub shell: Option<String>,
    /// The `PATH` that a new shell starts with.
    pub initial_path: Option<String>,
    /// Whether a bash is started without its startup files.
    pub norc: Option<bool>,
    /// Whether the terminal's echo is switched off.
    pub noecho: Option<bool>,
    /// Variables to put into every new shell's environment.
    pub env: Option<Vec<(String, String)>>,
    /// Whether to leave the link to the client's agent socket alone.
    pub nosymlink_ssh_auth_sock: Option<bool>,
    /// Whether to leave the system-wide environment file unread.
    pub noread_etc_environment: Option<bool>,
    /// How many lines of output are kept for a client that joins later.
    pub output_spool_lines: Option<usize>,
    /// How much is shown again to a client that joins.
    pub session_restore_mode: Option<SessionRestoreMode>,
    /// Variables of the client's environment to hand to a new shell.
    pub forward_env: Option<Vec<String>>,
}

/// What the daemon knows of the user that it serves.
#[derive(Clone, Debug)]
pub struct UserInfo {
    pub user: String,
    pub home_dir: String,
    pub default_shell: String,
}

/// The number of lines kept when the settings name none.
pub const DEFAULT_OUTPUT_SPOOL_LINES: usize = 500;

/// The number of lines of output to keep: the number set, or else the number
/// of lines that the restore mode asks for, or else the default.
pub open spec fn spool_lines(
    output_spool_lines: Option<usize>,
    mode: Option<SessionRestoreMode>,
) -> usize {
    match (output_spool_lines, mode) {
        (Some(l), _) => l,
        (None, Some(SessionRestoreMode::Lines(l))) => l as usize,
        (None, _) => DEFAULT_OUTPUT_SPOOL_LINES,
    }
}

/// A setting that is switched on only where it is set to `true`.
pub open spec fn is_set(flag: Option<bool>) -> bool {
    flag == Some(true)
}

impl Config {
    /// Settings with every field unset.
    pub fn new() -> (config: Config)
        ensures
            config.shell is None,
            config.initial_path is None,
            config.norc is None,
            config.noecho is None,
            config.env is None,
            config.nosymlink_ssh_auth_sock is None,
            config.noread_etc_environment is None,
            config.output_spool_lines is None,
            config.session_restore_mode is None,
            config.forward_env is None,
    {
        Config {
            shell: None,
            initial_path: None,
            norc: None,
            noecho: None,
            env: None,
            nosymlink_ssh_auth_sock: None,
            noread_etc_environment: None,
            output_spool_lines: None,
            session_restore_mode: None,
            forward_env: None,
        }
    }

    /// The number of lines of output to keep for a new session.
    pub fn spool_lines(&self) -> (lines: usize)
        ensures
            lines == spool_lines(self.output_spool_lines, self.session_restore_mode),
    {
        match (self.output_spool_lines, self.session_restore_mode) {
            (Some(l), _) => l,
            (None, Some(SessionRestoreMode::Lines(l))) => l as usize,
            (None, _) => DEFAULT_OUTPUT_SPOOL_LINES,
        }
    }

    /// The restore mode of a new session: the one set, or else `Screen`.
    pub fn restore_mode(&self) -> (mode: SessionRestoreMode)
        ensures
            mode == match self.session_restore_mode {
                Some(m) => m,
                None => SessionRestoreMode::Screen,
            },
    {
        match self.session_restore_mode {
            Some(m) => m,
            None => SessionRestoreMode::Screen,
        }
    }

    /// Whether the system-wide environment file is to be read for a new
    /// shell.
    pub fn reads_etc_environment(&self) -> (reads: bool)
        ensures
            reads == !is_set(self.noread_etc_environment),
    {
        !flag(self.noread_etc_environment)
    }

    /// Whether the client's agent socket is to be linked for a session.
    pub fn links_ssh_auth_sock(&self) -> (links: bool)
        ensures
            links == !is_set(self.nosymlink_ssh_auth_sock),
    {
        !flag(self.nosymlink_ssh_auth_sock)
    }
}

/// Whether a setting is switched on.
pub fn flag(setting: Option<bool>) -> (on: bool)
    ensures
        on == is_set(setting),
{
    match setting {
        Some(b) => b,
        None => false,
    }
}

} // verus!
