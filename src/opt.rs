use vstd::prelude::*;
use vstd::string::StringExecFns;

verus! {

/// Directory, under the user's data directory, that holds the installation
/// by default.
pub const INSTALL_SUBDIR: &'static str = "/toontown-rewritten";

/// The options of a run, once every default is filled in.
#[derive(Debug)]
pub struct Options {
    /// The installation directory.
    pub install_dir: String,
    /// Skip updating and go straight to login.
    pub no_update: bool,
    /// Read the password from standard input; a username is then required.
    pub pass_stdin: bool,
    pub username: Option<String>,
    /// Save and recall passwords with the system keyring.
    pub keyring: bool,
    /// Forget the password held in the keyring.
    pub reset_keyring: bool,
    /// Print the cookie and game server instead of launching.
    pub manual: bool,
}

/// The options as given on the command line, before defaults.
#[derive(Debug)]
pub struct CommandLine {
    pub install_dir: Option<String>,
    pub no_update: bool,
    pub pass_stdin: bool,
    pub username: Option<String>,
    pub keyring: bool,
    pub reset_keyring: bool,
    pub manual: bool,
}

/// Why the options cannot be used.
#[derive(Debug, PartialEq, Eq, Structural)]
pub enum OptionsError {
    /// No installation directory was given and the platform has no data
    /// directory to put one in.
    NoInstallDir,
    /// Passwords come from standard input but no username was given.
    MissingUsername,
}

/// The installation directory that a run uses.
pub open spec fn install_dir_spec(given: Option<Seq<char>>, data_dir: Option<Seq<char>>) -> Option<
    Seq<char>,
> {
    match given {
        Some(d) => Some(d),
        None => match data_dir {
            Some(base) => Some(base + INSTALL_SUBDIR@),
            None => None,
        },
    }
}

pub open spec fn opt_seq(s: Option<String>) -> Option<Seq<char>> {
    match s {
        Some(v) => Some(v@),
        None => None,
    }
}

/// The options of a run, from the command line and the user's data directory.
pub open spec fn options_spec(cli: CommandLine, data_dir: Option<Seq<char>>) -> Result<
    (Seq<char>, CommandLine),
    OptionsError,
> {
    if cli.pass_stdin && cli.username is None {
        Err(OptionsError::MissingUsername)
    } else {
        match install_dir_spec(opt_seq(cli.install_dir), data_dir) {
            None => Err(OptionsError::NoInstallDir),
            Some(d) => Ok((d, cli)),
        }
    }
}

/// `o` carries the flags of `cli` with the installation directory `dir`.
pub open spec fn options_from(o: Options, dir: Seq<char>, cli: CommandLine) -> bool {
    &&& o.install_dir@ == dir
    &&& o.no_update == cli.no_update
    &&& o.pass_stdin == cli.pass_stdin
    &&& o.username == cli.username
    &&& o.keyring == cli.keyring
    &&& o.reset_keyring == cli.reset_keyring
    &&& o.manual == cli.manual
}

/// Relies on dirs' `data_dir`: the user's data directory, which depends on
/// the platform and the environment, or `None`; a path that is not valid
/// UTF-8 is taken as `None`.
#[verifier::external_body]
fn data_dir() -> (r: Option<String>) {
    dirs::data_dir().and_then(|p| p.to_str().map(|s| s.to_string()))
}

/// Completes the command line with the default installation directory under
/// `data_dir`, and checks that a username comes with passwords on stdin.
pub fn resolve_options(cli: CommandLine, data_dir: Option<String>) -> (r: Result<
    Options,
    OptionsError,
>)
    ensures
        match options_spec(cli, opt_seq(data_dir)) {
            Ok((dir, c)) => r matches Ok(o) && options_from(o, dir, c),
            Err(e) => r == Err::<Options, OptionsError>(e),
        },
{
    if cli.pass_stdin && cli.username.is_none() {
        return Err(OptionsError::MissingUsername);
    }
    let install_dir = match cli.install_dir {
        Some(d) => d,
        None => match data_dir {
            Some(base) => base.concat(INSTALL_SUBDIR),
            None => {
                return Err(OptionsError::NoInstallDir);
            },
        },
    };
    Ok(
        Options {
            install_dir,
            no_update: cli.no_update,
            pass_stdin: cli.pass_stdin,
            username: cli.username,
            keyring: cli.keyring,
            reset_keyring: cli.reset_keyring,
            manual: cli.manual,
        },
    )
}

/// Completes the command line; where it names no installation directory, the
/// default lies under the user's data directory.
pub fn get_options(cli: CommandLine) -> (r: Result<Options, OptionsError>)
    ensures
        cli.pass_stdin && cli.username is None ==> r == Err::<Options, OptionsError>(
            OptionsError::MissingUsername,
        ),
        !(cli.pass_stdin && cli.username is None) && cli.install_dir is Some ==> (r matches Ok(o)
            && options_from(o, cli.install_dir->Some_0@, cli)),
        r is Err ==> r == Err::<Options, OptionsError>(OptionsError::MissingUsername) || (
        cli.install_dir is None && r == Err::<Options, OptionsError>(OptionsError::NoInstallDir)),
        r matches Ok(o) ==> options_from(o, o.install_dir@, cli),
        r is Ok ==> (cli.install_dir is None ==> exists|base: Seq<char>|
            r->Ok_0.install_dir@ == base + INSTALL_SUBDIR@),
{
    let dir = if cli.install_dir.is_none() {
        data_dir()
    } else {
        None
    };
    resolve_options(cli, dir)
}

} // verus!
