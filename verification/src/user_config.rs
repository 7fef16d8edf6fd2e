//! The audio front end's configuration: how many frames each buffer
//! should carry.

use vstd::prelude::*;

use crate::strutil::{parse_u32, spec_parse_u32};

verus! {

/// The frames-per-buffer choice; zero leaves the choice to the audio
/// backend.
#[derive(Debug, PartialEq, Eq, Structural)]
pub struct UserConfig {
    pub fpb: u32,
}

/// The argument list could not be read as a configuration.
#[derive(Debug, PartialEq, Eq, Structural)]
pub struct ParseError;

impl Default for UserConfig {
    fn default() -> (r: UserConfig)
        ensures
            r.fpb == 0,
    {
        UserConfig { fpb: 0 }
    }
}

impl UserConfig {
    /// No argument keeps the default; one argument must be an
    /// unsigned number of frames; more arguments are rejected.
    pub fn try_from(args: &[String]) -> (r: Result<UserConfig, ParseError>)
        ensures
            args@.len() == 1 ==> r == Ok::<UserConfig, ParseError>(UserConfig { fpb: 0 }),
            args@.len() == 2 ==> match spec_parse_u32(args@[1]@) {
                Some(v) => r == Ok::<UserConfig, ParseError>(UserConfig { fpb: v }),
                None => r == Err::<UserConfig, ParseError>(ParseError),
            },
            (args@.len() != 1 && args@.len() != 2) ==> r == Err::<UserConfig, ParseError>(
                ParseError,
            ),
    {
        if args.len() == 1 {
            return Ok(UserConfig::default());
        }
        if args.len() == 2 {
            if let Some(user_fpb) = parse_u32(args[1].as_str()) {
                return Ok(UserConfig { fpb: user_fpb });
            }
            return Err(ParseError);
        }
        Err(ParseError)
    }
}

} // verus!
