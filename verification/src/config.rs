//! Runtime-configuration resolution.
//!
//! Command-line overrides, the environment, and a probe of the paths the
//! overrides name are merged into one immutable [`RuntimeConfig`] before
//! any window or terminal is created. Path and size validation fails fast
//! here, with exactly one fatal error per kind of bad input.

use vstd::prelude::*;

use crate::size::parse_size_token;
use crate::size::parsed_size_token;

verus! {

/// The program's short name, used in every derived path.
pub open spec fn app_name() -> Seq<char> {
    "termint"@
}

/// File name of the persisted settings inside the configuration directory.
pub open spec fn settings_file_name() -> Seq<char> {
    "termint.ini"@
}

/// The window title.
pub open spec fn app_title() -> Seq<char> {
    "Termint"@
}

/// Reverse-domain namespace put in front of a supplied application id.
pub open spec fn app_id_prefix() -> Seq<char> {
    "org.gtk_rs."@
}

/// The view of an optional owned piece of text.
pub open spec fn opt_string_view(o: Option<String>) -> Option<Seq<char>> {
    match o {
        Some(s) => Some(s@),
        None => None,
    }
}

/// Everything the command line may override.
pub struct CliOptions {
    /// Application id; absent or empty means non-unique mode.
    pub app_id: Option<String>,
    /// Custom parent directory for the configuration directory.
    pub config_dir: Option<String>,
    /// Create the configuration directory and default settings if missing.
    pub init_settings: bool,
    /// One-shot command run via the shell's `-c` flag.
    pub execute: Option<String>,
    /// Shell executable path; must name an existing regular file.
    pub login_shell: Option<String>,
    /// Initial working directory; must name an existing directory.
    pub working_dir: Option<String>,
    /// `WIDTHxHEIGHT` token for the initial window size.
    pub window_size: Option<String>,
}

/// The environment variables the configuration consumes.
pub struct EnvInfo {
    /// `HOME`; required when no custom configuration directory is given.
    pub home: Option<String>,
    /// `SHELL`; required when no login shell override is given.
    pub shell: Option<String>,
    /// `USER`; advisory, for the welcome message only.
    pub user: Option<String>,
}

/// What a probe of the overridden paths observed on disk.
pub struct PathProbe {
    /// The login-shell override names an existing regular file.
    pub login_shell_is_file: bool,
    /// The working-directory override names an existing directory.
    pub working_dir_is_dir: bool,
}

/// A startup error that ends the process before any window exists.
#[derive(Debug, PartialEq, Eq)]
pub enum FatalError {
    /// `HOME` is unset and no custom configuration directory was given.
    MissingHome,
    /// `SHELL` is unset and no login shell override was given.
    MissingShell,
    /// The login-shell override does not name a regular file.
    LoginShellNotAFile(String),
    /// The working-directory override does not name a directory.
    WorkingDirNotADir(String),
    /// The window-size token does not hold exactly one `'x'` with a
    /// number on each side.
    MalformedWindowSize(String),
}

/// The configuration a session runs under, immutable after construction.
#[derive(Debug)]
pub struct RuntimeConfig {
    /// Application identity; `None` selects non-unique mode.
    pub app_identity: Option<String>,
    /// Directory holding the persisted settings.
    pub config_dir: String,
    /// Path of the persisted settings file.
    pub settings_file: String,
    /// Shell executable handed to the spawner.
    pub shell_path: String,
    /// Initial working directory; `None` inherits the launcher's.
    pub working_dir: Option<String>,
    /// Command run via `shell -c`; `None` starts an interactive shell.
    pub one_shot_command: Option<String>,
    /// Parsed window-size override; `None` defers to the settings file.
    pub window_size_override: Option<(u32, u32)>,
}

/// `HOME` is needed and absent.
pub open spec fn home_missing(cli: CliOptions, env: EnvInfo) -> bool {
    cli.config_dir is None && env.home is None
}

/// The login-shell override is present and names no regular file.
pub open spec fn shell_override_invalid(cli: CliOptions, probe: PathProbe) -> bool {
    cli.login_shell is Some && !probe.login_shell_is_file
}

/// `SHELL` is needed and absent.
pub open spec fn shell_env_missing(cli: CliOptions, env: EnvInfo) -> bool {
    cli.login_shell is None && env.shell is None
}

/// The working-directory override is present and names no directory.
pub open spec fn working_dir_invalid(cli: CliOptions, probe: PathProbe) -> bool {
    cli.working_dir is Some && !probe.working_dir_is_dir
}

/// The window-size token is present and malformed: no single `'x'`, or a
/// side that is not a number.
pub open spec fn size_token_malformed(cli: CliOptions) -> bool {
    match cli.window_size {
        Some(s) => parsed_size_token(s@) is None,
        None => false,
    }
}

/// Some input forces a fatal startup error.
pub open spec fn any_fatal_input(cli: CliOptions, env: EnvInfo, probe: PathProbe) -> bool {
    ||| home_missing(cli, env)
    ||| shell_override_invalid(cli, probe)
    ||| shell_env_missing(cli, env)
    ||| working_dir_invalid(cli, probe)
    ||| size_token_malformed(cli)
}

/// The configuration directory derived from an explicit parent or `HOME`.
pub open spec fn config_dir_spec(
    explicit: Option<Seq<char>>,
    home: Option<Seq<char>>,
) -> Option<Seq<char>> {
    match explicit {
        Some(d) => Some(d + "/"@ + app_name()),
        None => match home {
            Some(h) => Some(h + "/"@ + ".config"@ + "/"@ + app_name()),
            None => None,
        },
    }
}

/// Joins a directory and a name with a single separator.
pub fn join_path(base: &str, name: &str) -> (r: String)
    ensures
        r@ == base@ + "/"@ + name@,
{
    let mut r = String::from_str(base);
    r.append("/");
    r.append(name);
    r
}

/// Merges command-line overrides, environment values, and the path probe
/// into the runtime configuration; returns the first fatal error, in the
/// fixed validation order, when any input is invalid.
pub fn build_runtime_config(cli: &CliOptions, env: &EnvInfo, probe: &PathProbe) -> (r: Result<
    RuntimeConfig,
    FatalError,
>)
    ensures
        r is Err <==> any_fatal_input(*cli, *env, *probe),
        home_missing(*cli, *env) ==> r == Err::<RuntimeConfig, FatalError>(FatalError::MissingHome),
        !home_missing(*cli, *env) && shell_override_invalid(*cli, *probe) ==> (r matches Err(
            FatalError::LoginShellNotAFile(p),
        ) && p@ == cli.login_shell->0@),
        !home_missing(*cli, *env) && !shell_override_invalid(*cli, *probe) && shell_env_missing(
            *cli,
            *env,
        ) ==> r == Err::<RuntimeConfig, FatalError>(FatalError::MissingShell),
        !home_missing(*cli, *env) && !shell_override_invalid(*cli, *probe) && !shell_env_missing(
            *cli,
            *env,
        ) && working_dir_invalid(*cli, *probe) ==> (r matches Err(
            FatalError::WorkingDirNotADir(p),
        ) && p@ == cli.working_dir->0@),
        !home_missing(*cli, *env) && !shell_override_invalid(*cli, *probe) && !shell_env_missing(
            *cli,
            *env,
        ) && !working_dir_invalid(*cli, *probe) && size_token_malformed(*cli) ==> (r matches Err(
            FatalError::MalformedWindowSize(s),
        ) && s@ == cli.window_size->0@),
        r matches Ok(c) ==> {
            &&& Some(c.config_dir@) == config_dir_spec(
                opt_string_view(cli.config_dir),
                opt_string_view(env.home),
            )
            &&& c.settings_file@ == c.config_dir@ + "/"@ + settings_file_name()
            &&& c.shell_path@ == match cli.login_shell {
                Some(p) => p@,
                None => env.shell->0@,
            }
            &&& opt_string_view(c.working_dir) == opt_string_view(cli.working_dir)
            &&& opt_string_view(c.app_identity) == (if cli.app_id matches Some(id) && id@.len()
                > 0 {
                Some(cli.app_id->0@)
            } else {
                None::<Seq<char>>
            })
            &&& opt_string_view(c.one_shot_command) == (if cli.execute matches Some(e) && e@.len()
                > 0 {
                Some(cli.execute->0@)
            } else {
                None::<Seq<char>>
            })
            &&& c.window_size_override == match cli.window_size {
                Some(s) => parsed_size_token(s@),
                None => None::<(u32, u32)>,
            }
        },
{
    let config_dir = match &cli.config_dir {
        Some(d) => join_path(d.as_str(), "termint"),
        None => match &env.home {
            Some(h) => {
                let parent = join_path(h.as_str(), ".config");
                join_path(parent.as_str(), "termint")
            },
            None => {
                return Err(FatalError::MissingHome);
            },
        },
    };
    let shell_path = match &cli.login_shell {
        Some(p) => {
            if !probe.login_shell_is_file {
                return Err(FatalError::LoginShellNotAFile(p.clone()));
            }
            p.clone()
        },
        None => match &env.shell {
            Some(sh) => sh.clone(),
            None => {
                return Err(FatalError::MissingShell);
            },
        },
    };
    let working_dir = match &cli.working_dir {
        Some(d) => {
            if !probe.working_dir_is_dir {
                return Err(FatalError::WorkingDirNotADir(d.clone()));
            }
            Some(d.clone())
        },
        None => None,
    };
    let window_size_override = match &cli.window_size {
        Some(s) => match parse_size_token(s.as_str()) {
            Some(pair) => Some(pair),
            None => {
                return Err(FatalError::MalformedWindowSize(s.clone()));
            },
        },
        None => None,
    };
    let app_identity = match &cli.app_id {
        Some(id) => {
            if id.as_str().unicode_len() == 0 {
                None
            } else {
                Some(id.clone())
            }
        },
        None => None,
    };
    let one_shot_command = match &cli.execute {
        Some(e) => {
            if e.as_str().unicode_len() == 0 {
                None
            } else {
                Some(e.clone())
            }
        },
        None => None,
    };
    let settings_file = join_path(config_dir.as_str(), "termint.ini");
    Ok(
        RuntimeConfig {
            app_identity,
            config_dir,
            settings_file,
            shell_path,
            working_dir,
            one_shot_command,
            window_size_override,
        },
    )
}

/// How the windowing layer must be configured: allow several independent
/// instances, or register under one derived identifier.
pub enum AppMode {
    /// No identity: multiple independent instances may run.
    NonUnique,
    /// Register under the derived reverse-domain identifier.
    Identified(String),
}

/// Derives the application mode: an absent or empty identity selects
/// non-unique mode; anything else is namespaced behind the fixed
/// reverse-domain prefix, deterministically.
pub fn derive_app_mode(app_identity: &Option<String>) -> (m: AppMode)
    ensures
        match app_identity {
            None => m is NonUnique,
            Some(id) => if id@.len() == 0 {
                m is NonUnique
            } else {
                m matches AppMode::Identified(full) && full@ == app_id_prefix() + id@
            },
        },
{
    match app_identity {
        Some(id) => {
            if id.as_str().unicode_len() == 0 {
                AppMode::NonUnique
            } else {
                let mut full = String::from_str("org.gtk_rs.");
                full.append(id.as_str());
                AppMode::Identified(full)
            }
        },
        None => AppMode::NonUnique,
    }
}

/// The advisory greeting shown when an interactive shell starts: present
/// exactly when no one-shot command runs and the user's name is known.
pub fn welcome_line(user: &Option<String>, has_command: bool) -> (r: Option<String>)
    ensures
        match r {
            Some(line) => !has_command && (user matches Some(u) && line@ == "Welcome "@ + u@
                + "!"@),
            None => has_command || user is None,
        },
{
    if has_command {
        return None;
    }
    match user {
        Some(u) => {
            let mut line = String::from_str("Welcome ");
            line.append(u.as_str());
            line.append("!");
            Some(line)
        },
        None => None,
    }
}

/// Fatal errors carry a human-readable message naming the bad input.
impl FatalError {
    /// The diagnostic printed before the process exits.
    pub fn message(&self) -> (r: String)
        ensures
            match self {
                FatalError::MissingHome => r@ == "unable to get the home directory"@,
                FatalError::MissingShell => r@ == "Unable to get the user's shell"@,
                FatalError::LoginShellNotAFile(p) => r@
                    == "The specified login shell does not exist: "@ + p@,
                FatalError::WorkingDirNotADir(p) => r@
                    == "The specified working directory does not exist: "@ + p@,
                FatalError::MalformedWindowSize(s) => r@ == "Invalid window size: "@ + s@,
            },
    {
        match self {
            FatalError::MissingHome => String::from_str("unable to get the home directory"),
            FatalError::MissingShell => String::from_str("Unable to get the user's shell"),
            FatalError::LoginShellNotAFile(p) => {
                let mut r = String::from_str("The specified login shell does not exist: ");
                r.append(p.as_str());
                r
            },
            FatalError::WorkingDirNotADir(p) => {
                let mut r = String::from_str("The specified working directory does not exist: ");
                r.append(p.as_str());
                r
            },
            FatalError::MalformedWindowSize(s) => {
                let mut r = String::from_str("Invalid window size: ");
                r.append(s.as_str());
                r
            },
        }
    }
}

} // verus!
