//! Command-line argument parsing.
//!
//! The beacon accepts one option: a configuration-file path, introduced by
//! `--config` or `-c`. Any invocation without a flag followed by a value
//! falls back to the default path; this leniency is deliberate.

use vstd::prelude::*;

verus! {

/// The parsed command-line arguments.
pub struct CliArgs {
    /// Path of the configuration file to load.
    pub config: String,
}

/// The configuration path used when none is given on the command line.
pub open spec fn default_config_path() -> Seq<char> {
    "StatBeacon.toml"@
}

/// A token that introduces a configuration path.
pub open spec fn is_config_flag(s: Seq<char>) -> bool {
    s == "--config"@ || s == "-c"@
}

/// The configuration path selected by the argument tokens from position
/// `i` on: the token right after the first flag token that is followed by
/// one; the default when no flag is followed by a value.
pub open spec fn spec_config_path_from(args: Seq<String>, i: int) -> Seq<char>
    decreases args.len() - i,
{
    if i + 1 >= args.len() {
        default_config_path()
    } else if is_config_flag(args[i]@) {
        args[i + 1]@
    } else {
        spec_config_path_from(args, i + 1)
    }
}

/// The configuration path selected by the argument tokens (the program
/// name excluded).
pub open spec fn spec_config_path(args: Seq<String>) -> Seq<char> {
    spec_config_path_from(args, 0)
}

impl Default for CliArgs {
    /// The arguments of an invocation that named no configuration path.
    fn default() -> (r: Self)
        ensures
            r.config@ == default_config_path(),
    {
        CliArgs { config: String::from_str("StatBeacon.toml") }
    }
}

/// Parses the argument tokens (the program name excluded): the token after
/// the first `--config` or `-c` becomes the configuration path, and any
/// other invocation yields the default path.
pub fn parse_cli_args(args: &Vec<String>) -> (r: CliArgs)
    ensures
        r.config@ == spec_config_path(args@),
{
    let long_flag = String::from_str("--config");
    let short_flag = String::from_str("-c");
    let n = args.len();
    if n == 0 {
        return CliArgs::default();
    }
    let mut i: usize = 0;
    while i < n - 1
        invariant
            n == args@.len(),
            1 <= n,
            i <= n,
            long_flag@ == "--config"@,
            short_flag@ == "-c"@,
            spec_config_path(args@) == spec_config_path_from(args@, i as int),
        decreases n - i,
    {
        if args[i].eq(&long_flag) || args[i].eq(&short_flag) {
            return CliArgs { config: args[i + 1].clone() };
        }
        i = i + 1;
    }
    CliArgs::default()
}

} // verus!
