//! Pass-through argument handling for the build invocation.

use vstd::prelude::*;
use vstd::string::StringExecFns;

verus! {

/// The token under which the pipeline runs as a build-tool subcommand.
pub open spec fn subcommand_token() -> Seq<char> {
    "flash"@
}

/// The pass-through arguments with every occurrence of the pipeline's own
/// subcommand token removed, in their given order. When the pipeline runs as
/// a build-tool subcommand, that token names the pipeline itself and is not a
/// build flag. The match is exact, and deliberately applies to any
/// occurrence, not only to the leading position.
pub open spec fn forwarded_args(s: Seq<Seq<char>>) -> Seq<Seq<char>>
    decreases s.len(),
{
    if s.len() == 0 {
        Seq::empty()
    } else {
        let init = forwarded_args(s.drop_last());
        if s.last() == subcommand_token() {
            init
        } else {
            init.push(s.last())
        }
    }
}

/// The full argument list for the build tool: the build subcommand, the
/// request for a line-delimited JSON event stream on standard output, then
/// the forwarded pass-through arguments.
pub open spec fn build_tool_args_model(args: Seq<Seq<char>>) -> Seq<Seq<char>> {
    seq!["build"@, "--message-format=json"@] + forwarded_args(args)
}

/// Builds the build tool's argument list from the pass-through arguments.
pub fn build_tool_args(args: &Vec<String>) -> (r: Vec<String>)
    ensures
        r.deep_view() == build_tool_args_model(args.deep_view()),
{
    let ghost argvs = args.deep_view();
    let mut r: Vec<String> = Vec::new();
    r.push(String::from_str("build"));
    r.push(String::from_str("--message-format=json"));
    let token = String::from_str("flash");
    proof {
        assert(argvs.take(0) =~= Seq::<Seq<char>>::empty());
        assert(r.deep_view() =~= build_tool_args_model(argvs.take(0)));
    }
    let n = args.len();
    for i in 0..n
        invariant
            n == args.len(),
            argvs == args.deep_view(),
            token@ == subcommand_token(),
            r.deep_view() == build_tool_args_model(argvs.take(i as int)),
    {
        let ghost pre = r.deep_view();
        proof {
            assert(argvs.take(i as int + 1).drop_last() =~= argvs.take(i as int));
            assert(argvs[i as int] == args[i as int]@);
        }
        if !(args[i] == token) {
            r.push(args[i].clone());
            proof {
                assert(r.deep_view() =~= pre.push(argvs[i as int]));
            }
        }
    }
    proof {
        assert(argvs.take(n as int) =~= argvs);
    }
    r
}

} // verus!
