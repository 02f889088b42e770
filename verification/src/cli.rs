//! Command line: the subcommand and the global options.
//!
//! Grammar (after the program name): the options `-c PATH` (also `-cPATH`,
//! `-c=PATH`) / `--config PATH` / `--config=PATH` and `-v` / `--verbose`, each
//! at most once and anywhere, short options grouped behind one dash (`-vc
//! PATH`), and exactly one subcommand among `run`, `sync`, `pull`, `push`,
//! `status`; `-h`/`--help`/`help` and `-V`/`--version` ask for the help or
//! version text.  An option's value cannot itself look like an option.

use vstd::prelude::*;
use crate::paths::{chars_start_with, has_prefix};
use crate::text::{chars_slice, chars_to_string, str_chars, str_eq};

verus! {

/// The command line of the client.
#[derive(Debug, Clone, PartialEq, Eq)]
pub struct Cli {
    /// Path to config.yaml.
    pub config: Option<String>,
    /// Verbose logging.
    pub verbose: bool,
    /// What to do.
    pub command: Commands,
}

/// The subcommands.
#[derive(Debug, Clone, Copy, PartialEq, Eq, Structural)]
pub enum Commands {
    /// Start continuous sync (watch + push + pull).
    Run,
    /// Run a full bidirectional sync, then exit.
    Sync,
    /// Pull remote changes to local vault.
    Pull,
    /// Push all local files to remote.
    Push,
    /// Show sync state and configuration.
    Status,
}

/// Why a command line was not accepted.
#[derive(Debug, Clone, PartialEq, Eq)]
pub enum CliError {
    /// The help text was asked for.
    Help,
    /// The version was asked for.
    Version,
    /// No subcommand was given.
    MissingSubcommand,
    /// An option that takes a value came last.
    MissingValue(String),
    /// An option was given twice.
    Duplicate(String),
    /// An argument that is no option and no (first) subcommand.
    Unexpected(String),
}

/// What a command line yields, with its texts as character sequences.
pub enum CliOutcome {
    Parsed(Option<Seq<char>>, bool, Commands),
    Help,
    Version,
    MissingSubcommand,
    MissingValue(Seq<char>),
    Duplicate(Seq<char>),
    Unexpected(Seq<char>),
}

/// The subcommand an argument names.
pub open spec fn spec_command(a: Seq<char>) -> Option<Commands> {
    if a == "run"@ {
        Some(Commands::Run)
    } else if a == "sync"@ {
        Some(Commands::Sync)
    } else if a == "pull"@ {
        Some(Commands::Pull)
    } else if a == "push"@ {
        Some(Commands::Push)
    } else if a == "status"@ {
        Some(Commands::Status)
    } else {
        None
    }
}

/// Whether an argument would be read as an option, so it cannot be the value
/// of the option before it.
pub open spec fn looks_like_option(a: Seq<char>) -> bool {
    a.len() > 1 && a[0] == '-'
}

/// What the arguments from position `i` on yield, given the options and
/// subcommand seen before.
pub open spec fn spec_parse_from(
    args: Seq<Seq<char>>,
    i: int,
    config: Option<Seq<char>>,
    verbose: bool,
    command: Option<Commands>,
) -> CliOutcome
    decreases args.len() - i, 1int, 0int,
{
    if i >= args.len() || i < 0 {
        match command {
            Some(c) => CliOutcome::Parsed(config, verbose, c),
            None => CliOutcome::MissingSubcommand,
        }
    } else {
        let a = args[i];
        if a == "--help"@ {
            CliOutcome::Help
        } else if a == "--version"@ {
            CliOutcome::Version
        } else if a == "--verbose"@ {
            if verbose {
                CliOutcome::Duplicate(a)
            } else {
                spec_parse_from(args, i + 1, config, true, command)
            }
        } else if a == "--config"@ {
            if config is Some {
                CliOutcome::Duplicate(a)
            } else if i + 1 >= args.len() || looks_like_option(args[i + 1]) {
                CliOutcome::MissingValue(a)
            } else {
                spec_parse_from(args, i + 2, Some(args[i + 1]), verbose, command)
            }
        } else if has_prefix(a, "--config="@) {
            if config is Some {
                CliOutcome::Duplicate("--config"@)
            } else {
                spec_parse_from(args, i + 1, Some(a.skip(9)), verbose, command)
            }
        } else if a.len() >= 2 && a[0] == '-' && a[1] != '-' {
            spec_parse_short(args, i, 1, config, verbose, command)
        } else if a == "help"@ && command is None {
            CliOutcome::Help
        } else {
            match spec_command(a) {
                Some(c) => if command is None {
                    spec_parse_from(args, i + 1, config, verbose, Some(c))
                } else {
                    CliOutcome::Unexpected(a)
                },
                None => CliOutcome::Unexpected(a),
            }
        }
    }
}

/// What the short options of argument `i` (a dash followed by option letters,
/// such as `-v`, `-vc PATH` or `-cPATH`) yield from its character `j` on,
/// followed by the arguments after it.  `-c` takes the rest of the argument as
/// its value (without a leading `=`), or the next argument when nothing is left.
pub open spec fn spec_parse_short(
    args: Seq<Seq<char>>,
    i: int,
    j: int,
    config: Option<Seq<char>>,
    verbose: bool,
    command: Option<Commands>,
) -> CliOutcome
    decreases args.len() - i, 0int, args[i].len() - j,
{
    if i < 0 || i >= args.len() || j < 1 {
        CliOutcome::MissingSubcommand
    } else if j >= args[i].len() {
        spec_parse_from(args, i + 1, config, verbose, command)
    } else {
        let a = args[i];
        let c = a[j];
        if c == 'h' {
            CliOutcome::Help
        } else if c == 'V' {
            CliOutcome::Version
        } else if c == 'v' {
            if verbose {
                CliOutcome::Duplicate("-v"@)
            } else {
                spec_parse_short(args, i, j + 1, config, true, command)
            }
        } else if c == 'c' {
            if config is Some {
                CliOutcome::Duplicate("-c"@)
            } else if j + 1 < a.len() {
                let rest = a.skip(j + 1);
                let value = if rest[0] == '=' { rest.skip(1) } else { rest };
                spec_parse_from(args, i + 1, Some(value), verbose, command)
            } else if i + 1 >= args.len() || looks_like_option(args[i + 1]) {
                CliOutcome::MissingValue("-c"@)
            } else {
                spec_parse_from(args, i + 2, Some(args[i + 1]), verbose, command)
            }
        } else {
            CliOutcome::Unexpected(seq!['-', c])
        }
    }
}

/// What a whole command line (program name first) yields.
pub open spec fn spec_parse(args: Seq<Seq<char>>) -> CliOutcome {
    spec_parse_from(args, 1, None, false, None)
}

/// The outcome that an error stands for.
pub open spec fn error_outcome(e: CliError) -> CliOutcome {
    match e {
        CliError::Help => CliOutcome::Help,
        CliError::Version => CliOutcome::Version,
        CliError::MissingSubcommand => CliOutcome::MissingSubcommand,
        CliError::MissingValue(s) => CliOutcome::MissingValue(s@),
        CliError::Duplicate(s) => CliOutcome::Duplicate(s@),
        CliError::Unexpected(s) => CliOutcome::Unexpected(s@),
    }
}

/// The subcommand an argument names.
fn command_of(a: &str) -> (r: Option<Commands>)
    ensures
        r == spec_command(a@),
{
    if str_eq(a, "run") {
        Some(Commands::Run)
    } else if str_eq(a, "sync") {
        Some(Commands::Sync)
    } else if str_eq(a, "pull") {
        Some(Commands::Pull)
    } else if str_eq(a, "push") {
        Some(Commands::Push)
    } else if str_eq(a, "status") {
        Some(Commands::Status)
    } else {
        None
    }
}

/// The arguments as character sequences.
pub open spec fn arg_views(args: Seq<String>) -> Seq<Seq<char>> {
    args.map_values(|s: String| s@)
}

/// The option view of a parsed configuration path.
pub open spec fn config_view(c: Option<String>) -> Option<Seq<char>> {
    match c {
        Some(s) => Some(s@),
        None => None,
    }
}

/// Whether the argument at `i` would be read as an option.
fn option_like(args: &Vec<String>, i: usize) -> (r: bool)
    requires
        i < args@.len(),
    ensures
        r == looks_like_option(args@[i as int]@),
{
    let v = str_chars(args[i].as_str());
    v.len() > 1 && v[0] == '-'
}

/// Where the short options of one argument leave the parse: the options
/// after them and the position of the next argument, or the outcome.
enum ShortStep {
    Next(Option<String>, bool, usize),
    Stop(CliError),
}

/// Reads the short options of argument `i`.
fn parse_short(args: &Vec<String>, i: usize, config0: Option<String>, verbose0: bool, command: Option<Commands>) -> (r: ShortStep)
    requires
        i < args@.len(),
    ensures
        match r {
            ShortStep::Next(c, v, next) => i < next <= args@.len() && spec_parse_short(
                arg_views(args@),
                i as int,
                1,
                config_view(config0),
                verbose0,
                command,
            ) == spec_parse_from(arg_views(args@), next as int, config_view(c), v, command),
            ShortStep::Stop(e) => spec_parse_short(
                arg_views(args@),
                i as int,
                1,
                config_view(config0),
                verbose0,
                command,
            ) == error_outcome(e),
        },
{
    let ghost av = arg_views(args@);
    let a = str_chars(args[i].as_str());
    proof {
        assert(av[i as int] == a@);
        assert(av.len() == args@.len());
    }
    let mut config = config0;
    let mut verbose = verbose0;
    let ghost start = spec_parse_short(av, i as int, 1, config_view(config), verbose, command);
    let mut j: usize = 1;
    while j < a.len()
        invariant
            1 <= j,
            i < args.len(),
            av == arg_views(args@),
            av.len() == args@.len(),
            av[i as int] == a@,
            start == spec_parse_short(av, i as int, 1, config_view(config0), verbose0, command),
            start == spec_parse_short(av, i as int, j as int, config_view(config), verbose, command),
        decreases a@.len() - j,
    {
        let c = a[j];
        if c == 'h' {
            return ShortStep::Stop(CliError::Help);
        } else if c == 'V' {
            return ShortStep::Stop(CliError::Version);
        } else if c == 'v' {
            if verbose {
                return ShortStep::Stop(CliError::Duplicate(String::from_str("-v")));
            }
            verbose = true;
            j += 1;
        } else if c == 'c' {
            if config.is_some() {
                return ShortStep::Stop(CliError::Duplicate(String::from_str("-c")));
            }
            if j + 1 < a.len() {
                let from = if a[j + 1] == '=' { j + 2 } else { j + 1 };
                let value = chars_to_string(&chars_slice(&a, from, a.len()));
                proof {
                    let rest = a@.skip(j + 1);
                    if a@[j + 1] == '=' {
                        assert(rest.skip(1) =~= a@.subrange(from as int, a@.len() as int));
                    } else {
                        assert(rest =~= a@.subrange(from as int, a@.len() as int));
                    }
                }
                return ShortStep::Next(Some(value), verbose, i + 1);
            }
            if i + 1 >= args.len() || option_like(args, i + 1) {
                return ShortStep::Stop(CliError::MissingValue(String::from_str("-c")));
            }
            proof {
                assert(av[i + 1] == args@[i + 1]@);
            }
            return ShortStep::Next(Some(args[i + 1].clone()), verbose, i + 2);
        } else {
            let mut text = String::from_str("-");
            let mut one: Vec<char> = Vec::new();
            one.push(c);
            text.append(chars_to_string(&one).as_str());
            proof {
                reveal_strlit("-");
                assert(text@ =~= seq!['-', c]);
            }
            return ShortStep::Stop(CliError::Unexpected(text));
        }
    }
    ShortStep::Next(config, verbose, i + 1)
}

impl Cli {
    /// Parses a command line, the program name first (see [`spec_parse`]).
    pub fn try_parse_from(args: Vec<String>) -> (r: Result<Cli, CliError>)
        ensures
            match spec_parse(arg_views(args@)) {
                CliOutcome::Parsed(config, verbose, command) => r matches Ok(cli) && cli.verbose == verbose
                    && cli.command == command && config_view(cli.config) == config,
                outcome => r matches Err(e) && error_outcome(e) == outcome,
            },
    {
        proof {
            reveal_strlit("--config=");
        }
        let ghost av = arg_views(args@);
        let mut config: Option<String> = None;
        let mut verbose = false;
        let mut command: Option<Commands> = None;
        let mut i: usize = 1;
        while i < args.len()
            invariant
                1 <= i,
                av == arg_views(args@),
                spec_parse(av) == spec_parse_from(av, i as int, config_view(config), verbose, command),
            decreases args@.len() - i,
        {
            let a = args[i].as_str();
            let v = str_chars(a);
            proof {
                assert(av[i as int] == a@);
                assert(v@ == a@);
            }
            if str_eq(a, "--help") {
                return Err(CliError::Help);
            }
            if str_eq(a, "--version") {
                return Err(CliError::Version);
            }
            if str_eq(a, "--verbose") {
                if verbose {
                    return Err(CliError::Duplicate(a.to_owned()));
                }
                verbose = true;
                i += 1;
            } else if str_eq(a, "--config") {
                if config.is_some() {
                    return Err(CliError::Duplicate(a.to_owned()));
                }
                if i + 1 >= args.len() || option_like(&args, i + 1) {
                    return Err(CliError::MissingValue(a.to_owned()));
                }
                proof {
                    assert(av[i + 1] == args@[i + 1]@);
                }
                config = Some(args[i + 1].clone());
                i += 2;
            } else if chars_start_with(&v, &str_chars("--config=")) {
                if config.is_some() {
                    return Err(CliError::Duplicate(String::from_str("--config")));
                }
                proof {
                    reveal_strlit("--config=");
                    assert(v@.subrange(9, v@.len() as int) =~= v@.skip(9));
                }
                config = Some(chars_to_string(&chars_slice(&v, 9, v.len())));
                i += 1;
            } else if v.len() >= 2 && v[0] == '-' && v[1] != '-' {
                match parse_short(&args, i, config, verbose, command) {
                    ShortStep::Next(c, vb, next) => {
                        config = c;
                        verbose = vb;
                        i = next;
                    },
                    ShortStep::Stop(e) => {
                        return Err(e);
                    },
                }
            } else if str_eq(a, "help") && command.is_none() {
                return Err(CliError::Help);
            } else {
                match command_of(a) {
                    Some(c) => {
                        if command.is_some() {
                            return Err(CliError::Unexpected(a.to_owned()));
                        }
                        command = Some(c);
                        i += 1;
                    },
                    None => {
                        return Err(CliError::Unexpected(a.to_owned()));
                    },
                }
            }
        }
        match command {
            Some(c) => Ok(Cli { config, verbose, command: c }),
            None => Err(CliError::MissingSubcommand),
        }
    }
}

} // verus!
