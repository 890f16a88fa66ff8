//! The driver's decisions: splitting the command line into a time-to-live
//! and the command tokens, choosing what to do with them, joining the
//! tokens into the line handed to the shell, and picking the exit code.
//! Printing, process spawning and exiting stay with the caller.

use vstd::prelude::*;
use crate::duration::duration_secs;
use crate::duration::is_duration_token;
use crate::duration::parse_duration;
use crate::DEFAULT_TTL_SECS;

verus! {

/// Usage text printed for the help flags or an empty command line.
pub const HELP: &'static str = "Cache any command output.\n\nUsage: kep [duration] <command...>\n\nExamples:\n  kep curl google.com      # cached for 1h (default)\n  kep 7d curl google.com   # cached for 7 days\n  kep 30m echo hello       # cached for 30 minutes\n\nDuration suffixes: s (seconds), m (minutes), h (hours), d (days)";

/// Compare two strings character by character.
pub fn str_eq(a: &str, b: &str) -> (r: bool)
    ensures
        r == (a@ == b@),
{
    let la = a.unicode_len();
    let lb = b.unicode_len();
    if la != lb {
        return false;
    }
    let mut i: usize = 0;
    while i < la
        invariant
            la == a@.len(),
            lb == b@.len(),
            la == lb,
            i <= la,
            forall|j: int| 0 <= j < i ==> a@[j] == b@[j],
        decreases la - i,
    {
        if a.get_char(i) != b.get_char(i) {
            return false;
        }
        i = i + 1;
    }
    proof {
        assert(a@ =~= b@);
    }
    true
}

/// The first argument asks for the usage text.
pub open spec fn is_help_token(s: Seq<char>) -> bool {
    s == "-h"@ || s == "--help"@
}

/// Whether a token is one of the two help flags.
pub fn is_help_flag(s: &str) -> (r: bool)
    ensures
        r == is_help_token(s@),
{
    str_eq(s, "-h") || str_eq(s, "--help")
}

/// Copy the tokens of `args` from position `start` on.
fn copy_tail(args: &Vec<String>, start: usize) -> (r: Vec<String>)
    requires
        start <= args@.len(),
    ensures
        r.deep_view() == args.deep_view().subrange(start as int, args@.len() as int),
{
    let mut out: Vec<String> = Vec::new();
    proof {
        assert(out@ =~= args@.subrange(start as int, start as int));
    }
    let mut i: usize = start;
    while i < args.len()
        invariant
            start <= i <= args@.len(),
            out@ == args@.subrange(start as int, i as int),
        decreases args@.len() - i,
    {
        out.push(args[i].clone());
        proof {
            assert(out@ =~= args@.subrange(start as int, i + 1));
        }
        i = i + 1;
    }
    proof {
        assert(out.deep_view() =~= args.deep_view().subrange(start as int, args@.len() as int));
    }
    out
}

/// Split the command line into the time-to-live in seconds and the command
/// tokens. When the first token is a duration, it supplies the
/// time-to-live and the rest are the command; otherwise the default of one
/// hour applies and every token, the first included, belongs to the command.
pub fn parse_args(args: &Vec<String>) -> (r: (u64, Vec<String>))
    requires
        args@.len() >= 1,
    ensures
        is_duration_token(args.deep_view()[0]) ==> {
            &&& r.0 == duration_secs(args.deep_view()[0])
            &&& r.1.deep_view() == args.deep_view().subrange(1, args.deep_view().len() as int)
        },
        !is_duration_token(args.deep_view()[0]) ==> {
            &&& r.0 == DEFAULT_TTL_SECS
            &&& r.1.deep_view() == args.deep_view()
        },
{
    proof {
        assert(args.deep_view()[0] == args@[0]@);
    }
    match parse_duration(args[0].as_str()) {
        Some(secs) => (secs, copy_tail(args, 1)),
        None => {
            let all = copy_tail(args, 0);
            proof {
                assert(args.deep_view().subrange(0, args@.len() as int) =~= args.deep_view());
            }
            (DEFAULT_TTL_SECS, all)
        },
    }
}

/// What one invocation should do, decided from the raw arguments alone.
#[derive(Debug)]
pub enum Plan {
    /// Print the usage text and exit successfully.
    Help,
    /// Report that no command was provided and exit with failure.
    NoCommand,
    /// Look the cache up under this time-to-live; on a miss, run the tokens.
    Run { ttl_secs: u64, tokens: Vec<String> },
}

/// Decide what an invocation does. An empty argument list or a leading help
/// flag asks for the usage text; a lone duration token leaves no command to
/// run; otherwise the command runs under the parsed or default time-to-live,
/// and a first token that is not a duration counts as part of the command.
pub fn plan(args: &Vec<String>) -> (r: Plan)
    ensures
        (args.deep_view().len() == 0 || is_help_token(args.deep_view()[0])) ==> r is Help,
        (args.deep_view().len() >= 1 && !is_help_token(args.deep_view()[0])
            && is_duration_token(args.deep_view()[0]) && args.deep_view().len() == 1) ==> r
            is NoCommand,
        (args.deep_view().len() >= 2 && !is_help_token(args.deep_view()[0])
            && is_duration_token(args.deep_view()[0])) ==> (r matches Plan::Run {
            ttl_secs,
            tokens,
        } && ttl_secs == duration_secs(args.deep_view()[0]) && tokens.deep_view()
            == args.deep_view().subrange(1, args.deep_view().len() as int)),
        (args.deep_view().len() >= 1 && !is_help_token(args.deep_view()[0])
            && !is_duration_token(args.deep_view()[0])) ==> (r matches Plan::Run {
            ttl_secs,
            tokens,
        } && ttl_secs == DEFAULT_TTL_SECS && tokens.deep_view() == args.deep_view()),
{
    if args.len() == 0 {
        return Plan::Help;
    }
    proof {
        assert(args.deep_view()[0] == args@[0]@);
    }
    if is_help_flag(args[0].as_str()) {
        return Plan::Help;
    }
    let (ttl_secs, tokens) = parse_args(args);
    proof {
        assert(tokens.deep_view().len() == tokens@.len());
        assert(args.deep_view().len() == args@.len());
    }
    if tokens.len() == 0 {
        return Plan::NoCommand;
    }
    Plan::Run { ttl_secs, tokens }
}

/// The joined command line: the tokens separated by single spaces.
pub open spec fn joined(toks: Seq<Seq<char>>) -> Seq<char>
    decreases toks.len(),
{
    if toks.len() == 0 {
        Seq::empty()
    } else if toks.len() == 1 {
        toks[0]
    } else {
        joined(toks.drop_last()) + seq![' '] + toks.last()
    }
}

/// Join the command tokens with single spaces into the line handed to the
/// shell. Tokens that themselves hold spaces or shell metacharacters are
/// re-interpreted by the shell; that pass-through is deliberate.
pub fn join_tokens(tokens: &Vec<String>) -> (r: String)
    ensures
        r@ == joined(tokens.deep_view()),
{
    let ghost toks = tokens.deep_view();
    let mut out = String::new();
    if tokens.len() == 0 {
        return out;
    }
    out.append(tokens[0].as_str());
    proof {
        assert(toks.subrange(0, 1) =~= seq![toks[0]]);
        assert(out@ =~= joined(toks.subrange(0, 1)));
    }
    let mut i: usize = 1;
    while i < tokens.len()
        invariant
            toks == tokens.deep_view(),
            toks.len() == tokens.len(),
            1 <= i <= tokens.len(),
            out@ == joined(toks.subrange(0, i as int)),
        decreases tokens.len() - i,
    {
        out.append(" ");
        out.append(tokens[i].as_str());
        proof {
            reveal_strlit(" ");
            assert(" "@ =~= seq![' ']);
            let p = toks.subrange(0, i + 1);
            assert(p.drop_last() =~= toks.subrange(0, i as int));
            assert(p.last() == toks[i as int]);
            assert(out@ =~= joined(p));
        }
        i = i + 1;
    }
    proof {
        assert(toks.subrange(0, tokens.len() as int) =~= toks);
    }
    out
}

/// The process exit code after an execution: the command's own code, or 1
/// when the command terminated without one.
pub fn exit_code(status: Option<i32>) -> (r: i32)
    ensures
        status matches Some(c) ==> r == c,
        status is None ==> r == 1,
{
    match status {
        Some(c) => c,
        None => 1,
    }
}

} // verus!
