//! Command-line arguments: an optional leading `--verbose`, then exactly one
//! JSON payload.
use vstd::prelude::*;
use vstd::string::StringExecFns;

verus! {

/// The flag that turns on diagnostic output.
pub open spec fn verbose_flag() -> Seq<char> {
    "--verbose"@
}

/// The message given for any argument list of the wrong shape: a single line.
pub open spec fn usage_text() -> Seq<char> {
    "Usage: codex-notify-chime [--verbose] <NOTIFICATION_JSON> (expected a single JSON argument)"@
}

/// Whether the argument list starts with the verbose flag.
pub open spec fn starts_verbose(args: Seq<String>) -> bool {
    args.len() > 0 && args[0]@ == verbose_flag()
}

/// The arguments that remain once a leading verbose flag is taken off.
pub open spec fn positional(args: Seq<String>) -> Seq<String> {
    if starts_verbose(args) {
        args.drop_first()
    } else {
        args
    }
}

/// Builds the usage message, a single line.
pub fn usage() -> (r: String)
    ensures
        r@ == usage_text(),
        forall|i: int| 0 <= i < r@.len() ==> r@[i] != '\n',
{
    proof {
        reveal_strlit("Usage: codex-notify-chime [--verbose] <NOTIFICATION_JSON> (expected a single JSON argument)");
    }
    String::from_str(
        "Usage: codex-notify-chime [--verbose] <NOTIFICATION_JSON> (expected a single JSON argument)",
    )
}

/// Reads the arguments that follow the program name: an optional `--verbose`,
/// then exactly one payload. Returns the payload and whether verbose output is on,
/// or the usage message when the list has any other shape.
pub fn parse_args(args: &Vec<String>) -> (r: Result<(String, bool), String>)
    ensures
        r is Ok <==> positional(args@).len() == 1,
        r matches Ok((payload, verbose)) ==> payload@ == positional(args@)[0]@ && verbose
            == starts_verbose(args@),
        r matches Err(msg) ==> msg@ == usage_text(),
        r matches Err(msg) ==> forall|i: int| 0 <= i < msg@.len() ==> msg@[i] != '\n',
{
    let flag = String::from_str("--verbose");
    let verbose = args.len() > 0 && args[0] == flag;
    let start: usize = if verbose { 1 } else { 0 };
    if args.len() - start != 1 {
        return Err(usage());
    }
    Ok((args[start].clone(), verbose))
}

} // verus!
