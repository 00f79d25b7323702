//! Validation of the command line before any measurement starts: the one
//! accepted invocation names the mode `all`. Everything else is rejected with
//! a usage message and nothing runs.

use vstd::prelude::*;
use vstd::string::StringExecFns;

verus! {

/// The command line is valid exactly when its first argument after the
/// program name is the mode `all`; any other invocation is answered with the
/// usage message and nothing is measured.
pub fn validate_args(args: &Vec<String>) -> (valid: Result<(), &'static str>)
    ensures
        valid is Ok <==> args@.len() >= 2 && args@[1]@ == "all"@,
        valid is Err ==> valid->Err_0@ == "Usage: pressure all"@,
{
    if args.len() < 2 {
        return Err("Usage: pressure all");
    }
    let mode = String::from_str("all");
    if args[1] == mode {
        Ok(())
    } else {
        Err("Usage: pressure all")
    }
}

} // verus!
