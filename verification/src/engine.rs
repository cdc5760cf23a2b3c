//! The interface to the external changelog engine.
//!
//! The engine runs out of process; the shell around the library invokes it
//! and hands back what it wrote. The library owns the two computations at
//! that boundary: building the argument list a request is invoked with, and
//! mapping the process outcome to a generated text or a failure message.

use crate::state::FilterSettings;
use vstd::prelude::*;

verus! {

/// The argument list the engine is invoked with for one request: the config
/// reference, the output filters of the request, and no command execution.
pub open spec fn spec_engine_args(config: Seq<char>, settings: FilterSettings) -> Seq<Seq<char>> {
    let base = seq!["-c"@, config];
    let with_unreleased = if settings.unreleased {
        base + seq!["-u"@]
    } else {
        base
    };
    let with_latest = if settings.latest {
        with_unreleased + seq!["-l"@]
    } else {
        with_unreleased
    };
    with_latest + seq!["--no-exec"@]
}

/// The views of a vector of strings.
pub open spec fn string_views(vs: Seq<String>) -> Seq<Seq<char>> {
    vs.map_values(|s: String| s@)
}

/// Builds the argument list for one generation request.
pub fn engine_args(config: &String, settings: FilterSettings) -> (args: Vec<String>)
    ensures
        string_views(args@) == spec_engine_args(config@, settings),
{
    let mut args: Vec<String> = Vec::new();
    args.push("-c".to_owned());
    args.push(config.clone());
    if settings.unreleased {
        args.push("-u".to_owned());
    }
    if settings.latest {
        args.push("-l".to_owned());
    }
    args.push("--no-exec".to_owned());
    proof {
        assert(string_views(args@) =~= spec_engine_args(config@, settings));
    }
    args
}

/// Maps the outcome of one engine invocation: a successful exit yields the
/// generated text, any other exit yields the diagnostic text as the failure
/// message.
pub fn engine_outcome(success: bool, stdout: Vec<u8>, stderr: String) -> (res: Result<
    Vec<u8>,
    String,
>)
    ensures
        success <==> res is Ok,
        res matches Ok(text) ==> text == stdout,
        res matches Err(message) ==> message == stderr,
{
    if success {
        Result::Ok(stdout)
    } else {
        Result::Err(stderr)
    }
}

} // verus!
