use vstd::prelude::*;
use vstd::string::*;

verus! {

/// What is missing from the command line.
#[derive(Clone, Copy, Debug, PartialEq, Eq, Structural)]
pub enum ArgumentError {
    NoApiFile,
    NoConfigFile,
}

/// How a missing API file is reported.
pub const NO_API_FILE: &'static str = "no api file provided";

/// How a missing configuration file is reported.
pub const NO_CONFIG_FILE: &'static str = "no config file provided";

impl ArgumentError {
    /// The message the service stops with.
    pub fn message(&self) -> (message: String)
        ensures
            message@ == (match self {
                ArgumentError::NoApiFile => NO_API_FILE@,
                ArgumentError::NoConfigFile => NO_CONFIG_FILE@,
            }),
    {
        match self {
            ArgumentError::NoApiFile => String::from_str(NO_API_FILE),
            ArgumentError::NoConfigFile => String::from_str(NO_CONFIG_FILE),
        }
    }
}

/// The files named on the command line, `args` holding the program first:
/// the API file is the first argument after it, the configuration file the
/// second; further arguments are ignored.
pub fn parse_arguments(args: &Vec<String>) -> (files: Result<(String, String), ArgumentError>)
    ensures
        args@.len() < 2 ==> files == Err::<(String, String), ArgumentError>(
            ArgumentError::NoApiFile,
        ),
        args@.len() == 2 ==> files == Err::<(String, String), ArgumentError>(
            ArgumentError::NoConfigFile,
        ),
        args@.len() > 2 ==> (files matches Ok((api_file, config_file)) && api_file@ == args@[1]@
            && config_file@ == args@[2]@),
{
    if args.len() < 2 {
        return Err(ArgumentError::NoApiFile);
    }
    if args.len() < 3 {
        return Err(ArgumentError::NoConfigFile);
    }
    Ok((args[1].clone(), args[2].clone()))
}

} // verus!
