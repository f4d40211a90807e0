//! Selection of the date input format from the command-line flags.

use vstd::prelude::*;

verus! {

/// The supported time input formats.
#[derive(Debug, PartialEq)]
pub enum InputType {
    /// A calendar date written as `YYYY-MM-DD`.
    Iso6801,
    /// Seconds since the Unix epoch.
    UnixTimestamp,
}

/// The command-line arguments, as plain values.
#[derive(Debug)]
pub struct Args {
    /// The optional date argument.
    pub arg_date: Option<String>,
    /// Print the help message and exit.
    pub flag_help: bool,
    /// Print version information and exit.
    pub flag_version: bool,
    /// Output Discordian dates (the default).
    pub flag_discordian: bool,
    /// The date argument is a timestamp instead of an ISO date.
    pub flag_timestamp: bool,
}

/// The input format the arguments ask for: a timestamp when `--timestamp`
/// was given, otherwise an ISO date.
pub fn get_input_type(args: &Args) -> (r: InputType)
    ensures
        r == (if args.flag_timestamp {
            InputType::UnixTimestamp
        } else {
            InputType::Iso6801
        }),
{
    if args.flag_timestamp {
        InputType::UnixTimestamp
    } else {
        InputType::Iso6801
    }
}

} // verus!
