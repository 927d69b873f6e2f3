//! How a new subshell is to be started: the program, its arguments and the
//! environment it finds.

use crate::config::{flag, is_set, spool_lines, Config, SessionRestoreMode, UserInfo};
use crate::protocol::{env_get, env_lookup, AttachHeader, EnvView, TtySize};
use crate::seqs::lemma_filter_take_next;
use vstd::prelude::*;

verus! {

/// The `PATH` of a new shell where the settings name none.
pub const DEFAULT_INITIAL_SHELL_PATH: &'static str = "/usr/bin:/bin:/usr/sbin:/sbin";

/// What `std::path::Path::file_name` gives for `path` on the platform that
/// the crate is built for: its last component, where it has one.
pub uninterp spec fn path_file_name(path: Seq<char>) -> Option<Seq<char>>;

/// What `std::path::Path::join` gives for `base` and `part` on the platform
/// that the crate is built for.
pub uninterp spec fn path_join(base: Seq<char>, part: Seq<char>) -> Seq<char>;

/// Calls `std::path::Path::file_name` on `path`. The contract gives the
/// result its name and claims nothing else of it.
#[verifier::external_body]
fn file_name(path: &str) -> (name: Option<String>)
    ensures
        name.deep_view() == path_file_name(path@),
{
    match std::path::Path::new(path).file_name() {
        Some(name) => Some(name.to_string_lossy().into_owned()),
        None => None,
    }
}

/// Calls `std::path::Path::join` on `base` with `part`. The contract gives
/// the result its name and claims nothing else of it.
#[verifier::external_body]
fn join(base: &str, part: &str) -> (joined: String)
    ensures
        joined@ == path_join(base@, part@),
{
    std::path::Path::new(base).join(part).to_string_lossy().into_owned()
}

/// Where the link to the agent socket of the session `name` lies below the
/// daemon's runtime directory.
pub open spec fn ssh_auth_sock_path(runtime_dir: Seq<char>, name: Seq<char>) -> Seq<char> {
    path_join(path_join(path_join(runtime_dir, "sessions"@), name), "ssh-auth-sock.socket"@)
}

/// Where the link to the agent socket of the session `session_name` lies.
pub fn ssh_auth_sock_symlink(runtime_dir: &str, session_name: &str) -> (path: String)
    ensures
        path@ == ssh_auth_sock_path(runtime_dir@, session_name@),
{
    let sessions = join(runtime_dir, "sessions");
    let session = join(sessions.as_str(), session_name);
    join(session.as_str(), "ssh-auth-sock.socket")
}

/// Whether the string `s` reads `text`.
fn reads(s: &str, text: &str) -> (same: bool)
    ensures
        same == (s@ == text@),
{
    let a = s.to_owned();
    let b = text.to_owned();
    a == b
}

/// The shell to start: the one that the settings name, or else the user's.
pub open spec fn chosen_shell(config: Config, user: UserInfo) -> Seq<char> {
    match config.shell {
        Some(shell) => shell@,
        None => user.default_shell@,
    }
}

/// The arguments of the shell: a bash that is to skip its startup files is
/// told so, and every other shell gets none.
pub open spec fn shell_args(norc: Option<bool>, shell: Seq<char>) -> Seq<Seq<char>> {
    if is_set(norc) && shell == "/bin/bash"@ {
        seq!["--norc"@, "--noprofile"@]
    } else {
        Seq::empty()
    }
}

/// The `TERM` of a new shell. It is the client's, unless the settings hold
/// one: a value there takes its place, and an empty value there means that
/// the shell gets no `TERM` at all.
pub open spec fn resolve_term(client: Option<Seq<char>>, settings: Option<EnvView>) -> Option<
    Seq<char>,
> {
    match settings {
        None => client,
        Some(env) => match env_lookup(env, "TERM"@) {
            None => client,
            Some(t) => if t.len() == 0 {
                None
            } else {
                Some(t)
            },
        },
    }
}

/// The test whether a pair sets another variable than `TERM`.
pub open spec fn not_term() -> spec_fn((Seq<char>, Seq<char>)) -> bool {
    |p: (Seq<char>, Seq<char>)| p.0 != "TERM"@
}

/// The test whether a pair of the client's environment is handed on as it
/// is: every pair is, but those for `TERM` and `SSH_AUTH_SOCK`, which the
/// daemon sets itself.
pub open spec fn forwarded() -> spec_fn((Seq<char>, Seq<char>)) -> bool {
    |p: (Seq<char>, Seq<char>)| p.0 != "TERM"@ && p.0 != "SSH_AUTH_SOCK"@
}

/// What the settings add to the environment: their variables, without
/// `TERM` where the shell is to get none.
pub open spec fn settings_env(settings: Option<EnvView>, term: Option<Seq<char>>) -> EnvView {
    match settings {
        None => Seq::empty(),
        Some(env) => if term is None {
            env.filter(not_term())
        } else {
            env
        },
    }
}

/// A present value as a list of one assignment to `var`, an absent one as
/// the empty list.
pub open spec fn assignment(var: Seq<char>, value: Option<Seq<char>>) -> EnvView {
    match value {
        Some(v) => seq![(var, v)],
        None => Seq::empty(),
    }
}

/// What the system-wide environment file adds: its pairs, where it could be
/// read and is not to be left unread.
pub open spec fn etc_env(noread: Option<bool>, pairs: Option<EnvView>) -> EnvView {
    match pairs {
        Some(env) => if is_set(noread) {
            Seq::empty()
        } else {
            env
        },
        None => Seq::empty(),
    }
}

/// The environment of a new shell, as the assignments to make to an empty
/// environment in this order, a later one replacing an earlier one to the
/// same variable. First come the variables that the daemon sets itself, then
/// the runtime directory where the daemon has one, the settings' variables,
/// the terminal type, the rest of what the client handed over, and last the
/// system-wide environment file.
pub open spec fn shell_env(
    config: Config,
    runtime_dir: Seq<char>,
    header: AttachHeader,
    user: UserInfo,
    xdg_runtime_dir: Option<Seq<char>>,
    etc_environment: Option<EnvView>,
) -> EnvView {
    let term = resolve_term(env_lookup(header.local_env.deep_view(), "TERM"@), config.env.deep_view());
    seq![
        ("HOME"@, user.home_dir@),
        (
            "PATH"@,
            match config.initial_path {
                Some(path) => path@,
                None => DEFAULT_INITIAL_SHELL_PATH@,
            },
        ),
        ("SHPOOL_SESSION_NAME"@, header.name@),
        ("USER"@, user.user@),
        ("SSH_AUTH_SOCK"@, ssh_auth_sock_path(runtime_dir, header.name@)),
    ] + assignment("XDG_RUNTIME_DIR"@, xdg_runtime_dir) + settings_env(
        config.env.deep_view(),
        term,
    ) + assignment("TERM"@, term) + header.local_env.deep_view().filter(forwarded()) + etc_env(
        config.noread_etc_environment,
        etc_environment,
    )
}

/// Why no subshell can be started.
#[derive(Clone, Copy, Debug, PartialEq, Eq, Structural)]
pub enum SpawnError {
    /// The shell's path has no last component to name the login shell by.
    NoShellName,
}

/// How to start the subshell of a new session.
#[derive(Clone, Debug)]
pub struct SpawnPlan {
    /// The program to run.
    pub shell: String,
    /// The name that the program is started under: a dash and the last
    /// component of its path, which marks a login shell.
    pub arg0: String,
    /// The program's arguments.
    pub args: Vec<String>,
    /// The directory to start it in.
    pub dir: String,
    /// The assignments that make up its environment, in order.
    pub env: Vec<(String, String)>,
    /// Whether the terminal's echo is switched off.
    pub noecho: bool,
    /// How many lines of output are kept for a client that joins later.
    pub spool_lines: usize,
    /// How much is shown again to a client that joins.
    pub restore_mode: SessionRestoreMode,
    /// The geometry that the terminal starts with.
    pub tty_size: TtySize,
    /// How long the session may live, in seconds.
    pub ttl_secs: Option<u64>,
}

/// Copies the pairs of `env` that set neither `TERM` nor, where `without_ssh`
/// says so, `SSH_AUTH_SOCK`.
fn filter_env(env: &Vec<(String, String)>, without_ssh: bool) -> (kept: Vec<(String, String)>)
    ensures
        kept.deep_view() == env.deep_view().filter(
            if without_ssh {
                forwarded()
            } else {
                not_term()
            },
        ),
{
    let ghost all = env.deep_view();
    let ghost keep = if without_ssh {
        forwarded()
    } else {
        not_term()
    };
    let mut kept: Vec<(String, String)> = Vec::new();
    let mut i: usize = 0;
    assert(all.take(0) =~= Seq::<(Seq<char>, Seq<char>)>::empty());
    assert(kept.deep_view() =~= Seq::<(Seq<char>, Seq<char>)>::empty());
    while i < env.len()
        invariant
            i <= env.len(),
            all == env.deep_view(),
            keep == if without_ssh {
                forwarded()
            } else {
                not_term()
            },
            kept.deep_view() == all.take(i as int).filter(keep),
        decreases env.len() - i,
    {
        let pair = &env[i];
        proof {
            lemma_filter_take_next(all, keep, i as int);
            assert(all[i as int] == (pair.0@, pair.1@));
        }
        let is_term = reads(pair.0.as_str(), "TERM");
        let is_sock = without_ssh && reads(pair.0.as_str(), "SSH_AUTH_SOCK");
        if !is_term && !is_sock {
            let ghost before = kept;
            kept.push((pair.0.clone(), pair.1.clone()));
            assert(kept.deep_view() =~= before.deep_view().push((pair.0@, pair.1@)));
        }
        i += 1;
    }
    assert(all.take(i as int) =~= all);
    kept
}

/// Appends copies of the pairs of `more` to `env`.
fn extend_env(env: &mut Vec<(String, String)>, more: &Vec<(String, String)>)
    ensures
        final(env).deep_view() == old(env).deep_view() + more.deep_view(),
{
    let mut i: usize = 0;
    assert(env.deep_view() =~= old(env).deep_view() + more.deep_view().take(0));
    while i < more.len()
        invariant
            i <= more.len(),
            env.deep_view() == old(env).deep_view() + more.deep_view().take(i as int),
        decreases more.len() - i,
    {
        let ghost before = *env;
        env.push((more[i].0.clone(), more[i].1.clone()));
        assert(env.deep_view() =~= before.deep_view().push((more[i as int].0@, more[i as int].1@)));
        assert(env.deep_view() =~= old(env).deep_view() + more.deep_view().take(i as int + 1));
        i += 1;
    }
    assert(more.deep_view().take(i as int) =~= more.deep_view());
}

/// Appends the assignment of `value` to `var`.
fn push_var(env: &mut Vec<(String, String)>, var: &str, value: &str)
    ensures
        final(env).deep_view() == old(env).deep_view().push((var@, value@)),
{
    env.push((var.to_owned(), value.to_owned()));
    assert(env.deep_view() =~= old(env).deep_view().push((var@, value@)));
}

/// The `TERM` of a new shell.
fn term_for(header: &AttachHeader, config: &Config) -> (term: Option<String>)
    ensures
        term.deep_view() == resolve_term(
            env_lookup(header.local_env.deep_view(), "TERM"@),
            config.env.deep_view(),
        ),
{
    let client = match header.local_env_get("TERM") {
        Some(t) => Some(t.to_owned()),
        None => None,
    };
    match &config.env {
        None => client,
        Some(env) => match env_get(env, "TERM") {
            None => client,
            Some(t) => if t.unicode_len() == 0 {
                None
            } else {
                Some(t.to_owned())
            },
        },
    }
}

/// Plans the subshell of the session that `header` asks for: which program
/// to run and under which name, with which arguments, in which directory and
/// in which environment. The only way to fail is a shell whose path has no
/// last component.
pub fn spawn_subshell(
    config: &Config,
    runtime_dir: &str,
    header: &AttachHeader,
    user: &UserInfo,
    xdg_runtime_dir: Option<&str>,
    etc_environment: Option<&Vec<(String, String)>>,
) -> (res: Result<SpawnPlan, SpawnError>)
    ensures
        res is Err <==> path_file_name(chosen_shell(*config, *user)) is None,
        res matches Ok(plan) ==> {
            &&& plan.shell@ == chosen_shell(*config, *user)
            &&& plan.arg0@ == "-"@ + path_file_name(chosen_shell(*config, *user))->0
            &&& plan.args.deep_view() == shell_args(config.norc, chosen_shell(*config, *user))
            &&& plan.dir@ == user.home_dir@
            &&& plan.env.deep_view() == shell_env(
                *config,
                runtime_dir@,
                *header,
                *user,
                xdg_runtime_dir.deep_view(),
                etc_environment.deep_view(),
            )
            &&& plan.noecho == is_set(config.noecho)
            &&& plan.spool_lines == spool_lines(
                config.output_spool_lines,
                config.session_restore_mode,
            )
            &&& plan.restore_mode == match config.session_restore_mode {
                Some(m) => m,
                None => SessionRestoreMode::Screen,
            }
            &&& plan.tty_size == header.local_tty_size
            &&& plan.ttl_secs == header.ttl_secs
        },
{
    let shell = match &config.shell {
        Some(s) => s.clone(),
        None => user.default_shell.clone(),
    };
    let base = match file_name(shell.as_str()) {
        None => {
            return Err(SpawnError::NoShellName);
        },
        Some(base) => base,
    };
    let mut arg0 = "-".to_owned();
    arg0.append(base.as_str());

    let mut args: Vec<String> = Vec::new();
    if flag(config.norc) && reads(shell.as_str(), "/bin/bash") {
        args.push("--norc".to_owned());
        args.push("--noprofile".to_owned());
        assert(args.deep_view() =~= seq!["--norc"@, "--noprofile"@]);
    } else {
        assert(args.deep_view() =~= Seq::<Seq<char>>::empty());
    }

    let sock = ssh_auth_sock_symlink(runtime_dir, header.name.as_str());
    let mut env: Vec<(String, String)> = Vec::new();
    assert(env.deep_view() =~= Seq::<(Seq<char>, Seq<char>)>::empty());
    push_var(&mut env, "HOME", user.home_dir.as_str());
    match &config.initial_path {
        Some(path) => push_var(&mut env, "PATH", path.as_str()),
        None => push_var(&mut env, "PATH", DEFAULT_INITIAL_SHELL_PATH),
    }
    push_var(&mut env, "SHPOOL_SESSION_NAME", header.name.as_str());
    push_var(&mut env, "USER", user.user.as_str());
    push_var(&mut env, "SSH_AUTH_SOCK", sock.as_str());
    let ghost fixed = env.deep_view();
    assert(fixed =~= seq![
        ("HOME"@, user.home_dir@),
        (
            "PATH"@,
            match config.initial_path {
                Some(path) => path@,
                None => DEFAULT_INITIAL_SHELL_PATH@,
            },
        ),
        ("SHPOOL_SESSION_NAME"@, header.name@),
        ("USER"@, user.user@),
        ("SSH_AUTH_SOCK"@, ssh_auth_sock_path(runtime_dir@, header.name@)),
    ]);
    match xdg_runtime_dir {
        Some(dir) => push_var(&mut env, "XDG_RUNTIME_DIR", dir),
        None => {},
    }
    let ghost with_xdg = env.deep_view();
    assert(with_xdg =~= fixed + assignment("XDG_RUNTIME_DIR"@, xdg_runtime_dir.deep_view()));

    let term = term_for(header, config);
    match &config.env {
        None => {},
        Some(settings) => {
            if term.is_none() {
                let kept = filter_env(settings, false);
                extend_env(&mut env, &kept);
            } else {
                extend_env(&mut env, settings);
            }
        },
    }
    let ghost with_settings = env.deep_view();
    assert(with_settings =~= with_xdg + settings_env(config.env.deep_view(), term.deep_view()));
    match &term {
        Some(t) => push_var(&mut env, "TERM", t.as_str()),
        None => {},
    }
    let ghost with_term = env.deep_view();
    assert(with_term =~= with_settings + assignment("TERM"@, term.deep_view()));
    let rest = filter_env(&header.local_env, true);
    extend_env(&mut env, &rest);
    let ghost with_client = env.deep_view();
    match etc_environment {
        Some(pairs) => {
            if !flag(config.noread_etc_environment) {
                extend_env(&mut env, pairs);
            }
        },
        None => {},
    }
    assert(env.deep_view() =~= with_client + etc_env(
        config.noread_etc_environment,
        etc_environment.deep_view(),
    ));

    Ok(
        SpawnPlan {
            shell,
            arg0,
            args,
            dir: user.home_dir.clone(),
            env,
            noecho: flag(config.noecho),
            spool_lines: config.spool_lines(),
            restore_mode: config.restore_mode(),
            tty_size: header.local_tty_size,
            ttl_secs: header.ttl_secs,
        },
    )
}

} // verus!
