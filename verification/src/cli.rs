//! The command-line front end: option parsing (through getopts), the
//! early-exit decision for help and version requests, and the usage and
//! version texts.

use vstd::prelude::*;

verus! {

/// The options of one run, as parsed from the command line.
pub struct ParsedOptions {
    /// `-h` / `--help` was given.
    pub help: bool,
    /// `-V` / `--version` was given.
    pub version_requested: bool,
    /// `-v` was given: echo each command before running it.
    pub verbose: bool,
    /// The argument of `-r`: the explicit reference file, if any.
    pub refname: Option<String>,
    /// The positional arguments, in order.
    pub free: Vec<String>,
}

/// What a run does once its options are parsed.
pub enum Action {
    /// Print the requested texts — the version first when both were
    /// asked for — and exit successfully, installing nothing.
    Early { show_version: bool, show_help: bool },
    /// Resolve targets and install them.
    Install,
}

/// The action a pair of flags calls for: an early exit whenever help or
/// version information was requested, an install run otherwise.
pub open spec fn action_of(help: bool, version_requested: bool) -> Action {
    if help || version_requested {
        Action::Early { show_version: version_requested, show_help: help }
    } else {
        Action::Install
    }
}

/// Decides what `opts` calls for.  Help and version requests always win:
/// the run installs nothing when either flag was given.
pub fn decide_action(opts: &ParsedOptions) -> (r: Action)
    ensures
        r == action_of(opts.help, opts.version_requested),
        (opts.help || opts.version_requested) <==> !(r is Install),
{
    if opts.help || opts.version_requested {
        Action::Early { show_version: opts.version_requested, show_help: opts.help }
    } else {
        Action::Install
    }
}

/// Whether getopts accepts `args` as a well-formed command line for the
/// four options registered here.
pub uninterp spec fn getopts_accepts(args: Seq<Seq<char>>) -> bool;

/// Whether getopts finds `-h`/`--help` among `args`.
pub uninterp spec fn getopts_help(args: Seq<Seq<char>>) -> bool;

/// Whether getopts finds `-V`/`--version` among `args`.
pub uninterp spec fn getopts_version(args: Seq<Seq<char>>) -> bool;

/// Whether getopts finds `-v` among `args`.
pub uninterp spec fn getopts_verbose(args: Seq<Seq<char>>) -> bool;

/// The argument getopts hands to `-r`, when one was given.
pub uninterp spec fn getopts_refname(args: Seq<Seq<char>>) -> Option<Seq<char>>;

/// The free (positional) arguments getopts leaves over, in order.
pub uninterp spec fn getopts_free(args: Seq<Seq<char>>) -> Seq<Seq<char>>;

/// Relies on getopts: `Options::parse` splits the arguments into
/// recognized options and free arguments, and `opt_present` / `opt_str`
/// report the options registered here (`-h`/`--help`, `-V`/`--version`,
/// `-v`, `-r FILE`).  The outcome is a function of the arguments alone;
/// the names above stand for it, and the parse outcome is handed back
/// whole, as plain values.  A parse failure is reported as getopts' own
/// message.
#[verifier::external_body]
fn parse_with_getopts(args: &Vec<String>) -> (r: Result<ParsedOptions, String>)
    ensures
        (r is Ok) == getopts_accepts(args@.map_values(|s: String| s@)),
        r matches Ok(p) ==> {
            &&& p.help == getopts_help(args@.map_values(|s: String| s@))
            &&& p.version_requested == getopts_version(args@.map_values(|s: String| s@))
            &&& p.verbose == getopts_verbose(args@.map_values(|s: String| s@))
            &&& (p.refname is Some) == (getopts_refname(args@.map_values(|s: String| s@)) is Some)
            &&& (p.refname matches Some(f) ==> getopts_refname(args@.map_values(|s: String| s@))
                == Some(f@))
            &&& p.free@.map_values(|s: String| s@) == getopts_free(
                args@.map_values(|s: String| s@),
            )
        },
{
    let mut options = getopts::Options::new();
    options.optflag("h", "help", "").optopt("r", "", "", "").optflag("V", "version", "").optflag(
        "v", "", "");
    match options.parse(args) {
        Err(e) => Err(e.to_string()),
        Ok(m) => Ok(ParsedOptions {
            help: m.opt_present("h"),
            version_requested: m.opt_present("V"),
            verbose: m.opt_present("v"),
            refname: m.opt_str("r"),
            free: m.free,
        }),
    }
}

/// Parses a command line (the arguments after the program name) and
/// decides the action it calls for.  The run succeeds exactly when
/// getopts accepts the arguments; the parsed values are exactly getopts'
/// outcome, and the action is the one those flags call for — in
/// particular a command line that asked for help or version information
/// never installs.
pub fn parse_command_line(args: &Vec<String>) -> (r: Result<(Action, ParsedOptions), String>)
    ensures
        (r is Ok) == getopts_accepts(args@.map_values(|s: String| s@)),
        r matches Ok(p) ==> {
            &&& p.1.help == getopts_help(args@.map_values(|s: String| s@))
            &&& p.1.version_requested == getopts_version(args@.map_values(|s: String| s@))
            &&& p.1.verbose == getopts_verbose(args@.map_values(|s: String| s@))
            &&& (p.1.refname is Some) == (getopts_refname(args@.map_values(|s: String| s@))
                is Some)
            &&& (p.1.refname matches Some(f) ==> getopts_refname(
                args@.map_values(|s: String| s@),
            ) == Some(f@))
            &&& p.1.free@.map_values(|s: String| s@) == getopts_free(
                args@.map_values(|s: String| s@),
            )
            &&& p.0 == action_of(p.1.help, p.1.version_requested)
        },
        r matches Ok(p) ==> ((getopts_help(args@.map_values(|s: String| s@)) || getopts_version(
            args@.map_values(|s: String| s@),
        )) <==> !(p.0 is Install)),
{
    match parse_with_getopts(args) {
        Err(e) => Err(e),
        Ok(opts) => {
            let action = decide_action(&opts);
            Ok((action, opts))
        },
    }
}

/// The usage text, shown for `-h` and on every rejected run.
pub open spec fn usage_text() -> Seq<char> {
    "Usage:\tinstall-mimic [-v] [-r reffile] srcfile dstfile\n\tinstall-mimic [-v] [-r reffile] file1 [file2...] directory\n\tinstall-mimic -V | -h\n\n\t-h\tdisplay program usage information and exit\n\t-V\tdisplay program version information and exit\n\t-r\tspecify a reference file to obtain the information from\n\t-v\tverbose operation; display diagnostic output"@
}

/// The usage text, shown for `-h` and on every rejected run.
pub fn usage() -> (r: &'static str)
    ensures
        r@ == usage_text(),
{
    "Usage:\tinstall-mimic [-v] [-r reffile] srcfile dstfile\n\tinstall-mimic [-v] [-r reffile] file1 [file2...] directory\n\tinstall-mimic -V | -h\n\n\t-h\tdisplay program usage information and exit\n\t-V\tdisplay program version information and exit\n\t-r\tspecify a reference file to obtain the information from\n\t-v\tverbose operation; display diagnostic output"
}

/// The version text, shown for `-V`.
pub open spec fn version_text() -> Seq<char> {
    "install-mimic 0.3.0"@
}

/// The version text, shown for `-V`.
pub fn version() -> (r: &'static str)
    ensures
        r@ == version_text(),
{
    "install-mimic 0.3.0"
}

} // verus!
