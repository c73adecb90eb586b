//! Partitioning of the command-line argument vector into an optional flag
//! prefix, a poll command string and a run command string.
//!
//! All tokens after the flags, except the last, belong to the poll command
//! until a literal `--` separator is seen, and to the run command after
//! it; the last token always belongs to the run command. Tokens on each
//! side are joined with single spaces.

use crate::config::Config;
use vstd::prelude::*;

verus! {

/// The one recognized option token.
pub open spec fn flag_token() -> Seq<char> {
    "-v"@
}

/// The literal separator between poll-command and run-command tokens.
pub open spec fn sep_token() -> Seq<char> {
    "--"@
}

/// The index of the first token, at or after position 1, that is not a
/// recognized option token: option scanning consumes everything before it.
pub open spec fn spec_options_end(args: Seq<Seq<char>>, i: int) -> int
    decreases args.len() - i,
{
    if i < args.len() && args[i] == flag_token() {
        spec_options_end(args, i + 1)
    } else {
        i
    }
}

/// The configuration read off the flag prefix: verbose exactly when at
/// least one option token was consumed, with the default kill code.
pub open spec fn spec_config(args: Seq<Seq<char>>) -> Config {
    Config {
        verbose: spec_options_end(args, 1) > 1,
        kill_condition_code: crate::config::DEFAULT_KILL_CONDITION_CODE,
    }
}

/// Option scanning never runs past the end of the argument list, nor
/// backwards.
pub proof fn lemma_options_end_bounds(args: Seq<Seq<char>>, i: int)
    ensures
        spec_options_end(args, i) >= i,
        i <= args.len() ==> spec_options_end(args, i) <= args.len(),
        i > args.len() ==> spec_options_end(args, i) == i,
    decreases args.len() - i,
{
    if i < args.len() && args[i] == flag_token() {
        lemma_options_end_bounds(args, i + 1);
    }
}

/// One token joined onto an accumulated command string: the token itself
/// when the accumulator is still empty, and otherwise the accumulator, a
/// single space, and the token.
pub open spec fn spec_join(acc: Seq<char>, word: Seq<char>) -> Seq<char> {
    if acc.len() == 0 {
        word
    } else {
        acc + " "@ + word
    }
}

/// All the given tokens joined in order with single spaces.
pub open spec fn spec_join_all(words: Seq<Seq<char>>) -> Seq<char>
    decreases words.len(),
{
    if words.len() == 0 {
        Seq::empty()
    } else {
        spec_join(spec_join_all(words.drop_last()), words.last())
    }
}

/// The partitioning state after some prefix of the argument tokens: the
/// poll command and run command accumulated so far, and whether the `--`
/// separator has been seen.
pub struct ArgSplit {
    pub poll: Seq<char>,
    pub run: Seq<char>,
    pub sep: bool,
}

/// The partitioning state after the tokens at positions `start..n`: a `--`
/// token marks the separator as seen (and joins neither side); any other
/// token joins the run command once the separator has been seen, and the
/// poll command before that.
pub open spec fn spec_split_prefix(args: Seq<Seq<char>>, start: int, n: int) -> ArgSplit
    decreases n - start,
{
    if n <= start {
        ArgSplit { poll: Seq::empty(), run: Seq::empty(), sep: false }
    } else {
        let prev = spec_split_prefix(args, start, n - 1);
        let word = args[n - 1];
        if word == sep_token() {
            ArgSplit { poll: prev.poll, run: prev.run, sep: true }
        } else if prev.sep {
            ArgSplit { poll: prev.poll, run: spec_join(prev.run, word), sep: true }
        } else {
            ArgSplit { poll: spec_join(prev.poll, word), run: prev.run, sep: false }
        }
    }
}

/// The poll command resolved from a full argument list: the non-flag
/// tokens before the separator (the last token excluded), space-joined.
pub open spec fn spec_poll_command(args: Seq<Seq<char>>) -> Seq<char>
    recommends
        args.len() >= 1,
{
    spec_split_prefix(args, spec_options_end(args, 1), args.len() - 1).poll
}

/// The run command resolved from a full argument list: the non-flag
/// tokens after the separator (the last token excluded), space-joined,
/// with the last token always joined on at the end.
pub open spec fn spec_run_command(args: Seq<Seq<char>>) -> Seq<char>
    recommends
        args.len() >= 1,
{
    spec_join(
        spec_split_prefix(args, spec_options_end(args, 1), args.len() - 1).run,
        args.last(),
    )
}

/// Scan leading option tokens, starting after the program name, until the
/// first token that is not a recognized option. Returns how many tokens
/// were consumed in total (program name included) and the resulting
/// configuration.
pub fn parse_options(args: &Vec<String>) -> (r: (usize, Config))
    ensures
        r.0 == spec_options_end(args.deep_view(), 1),
        r.1 == spec_config(args.deep_view()),
        1 <= r.0,
        args@.len() >= 1 ==> r.0 <= args@.len(),
{
    let ghost dv = args.deep_view();
    let flag = String::from_str("-v");
    let mut verbose = false;
    let mut index: usize = 1;
    proof {
        lemma_options_end_bounds(dv, 1);
    }
    while index < args.len() && args[index] == flag
        invariant
            1 <= index,
            args@.len() >= 1 ==> index <= args@.len(),
            dv == args.deep_view(),
            flag@ == flag_token(),
            spec_options_end(dv, 1) == spec_options_end(dv, index as int),
            verbose == (index > 1),
        decreases args@.len() - index,
    {
        verbose = true;
        index = index + 1;
    }
    proof {
        assert(spec_options_end(dv, index as int) == index);
    }
    (index, Config::new(verbose))
}

/// Partition the argument list into the poll command and the run command,
/// carrying the configuration read off the flag prefix along. Requires at
/// least one non-flag token, which the last token then is.
pub fn parse_arguments(args: &Vec<String>) -> (r: (String, String, Config))
    requires
        args@.len() >= 1,
        spec_options_end(args.deep_view(), 1) <= args.deep_view().len() - 1,
    ensures
        r.0@ == spec_poll_command(args.deep_view()),
        r.1@ == spec_run_command(args.deep_view()),
        r.2 == spec_config(args.deep_view()),
{
    let ghost dv = args.deep_view();
    let (start, config) = parse_options(args);
    let sep = String::from_str("--");
    let mut poll_command = String::new();
    let mut run_command = String::new();
    let mut separator_found = false;
    let end = args.len() - 1;
    let mut i = start;
    while i < end
        invariant
            dv == args.deep_view(),
            args@.len() >= 1,
            end == args@.len() - 1,
            start == spec_options_end(dv, 1),
            start <= i <= end,
            sep@ == sep_token(),
            spec_split_prefix(dv, start as int, i as int) == (ArgSplit {
                poll: poll_command@,
                run: run_command@,
                sep: separator_found,
            }),
        decreases end - i,
    {
        if args[i] == sep {
            separator_found = true;
        } else if separator_found {
            if !run_command.as_str().is_empty() {
                run_command.append(" ");
            }
            run_command.append(args[i].as_str());
        } else {
            if !poll_command.as_str().is_empty() {
                poll_command.append(" ");
            }
            poll_command.append(args[i].as_str());
        }
        proof {
            let post = spec_split_prefix(dv, start as int, i as int + 1);
            assert(post.poll =~= poll_command@);
            assert(post.run =~= run_command@);
        }
        i = i + 1;
    }
    if !run_command.as_str().is_empty() {
        run_command.append(" ");
    }
    run_command.append(args[args.len() - 1].as_str());
    proof {
        assert(run_command@ =~= spec_run_command(dv));
    }
    (poll_command, run_command, config)
}

/// Partitioning a stretch of tokens that holds no separator joins them
/// all onto the poll command and leaves the run command empty.
proof fn lemma_split_no_separator(args: Seq<Seq<char>>, start: int, n: int)
    requires
        0 <= start <= n <= args.len(),
        forall|i: int| start <= i < n ==> args[i] != sep_token(),
    ensures
        spec_split_prefix(args, start, n) == (ArgSplit {
            poll: spec_join_all(args.subrange(start, n)),
            run: Seq::<char>::empty(),
            sep: false,
        }),
    decreases n - start,
{
    if n <= start {
        assert(args.subrange(start, n) =~= Seq::<Seq<char>>::empty());
    } else {
        lemma_split_no_separator(args, start, n - 1);
        assert(args.subrange(start, n).drop_last() =~= args.subrange(start, n - 1));
        assert(args.subrange(start, n).last() == args[n - 1]);
    }
}

/// Once the separator has been seen and nothing has joined the run
/// command yet, a further stretch of tokens without a separator joins
/// them all onto the run command and leaves the poll command as it was.
proof fn lemma_split_after_separator(args: Seq<Seq<char>>, start: int, m: int, n: int)
    requires
        0 <= start <= m <= n <= args.len(),
        spec_split_prefix(args, start, m).sep,
        spec_split_prefix(args, start, m).run.len() == 0,
        forall|i: int| m <= i < n ==> args[i] != sep_token(),
    ensures
        spec_split_prefix(args, start, n).poll == spec_split_prefix(args, start, m).poll,
        spec_split_prefix(args, start, n).sep,
        spec_split_prefix(args, start, n).run == spec_join_all(args.subrange(m, n)),
    decreases n - m,
{
    if n <= m {
        assert(args.subrange(m, n) =~= Seq::<Seq<char>>::empty());
        assert(spec_split_prefix(args, start, m).run =~= Seq::<char>::empty());
    } else {
        lemma_split_after_separator(args, start, m, n - 1);
        assert(args.subrange(m, n).drop_last() =~= args.subrange(m, n - 1));
        assert(args.subrange(m, n).last() == args[n - 1]);
    }
}

/// With no `--` token among the arguments and at least two tokens after
/// the flags, the run command is exactly the last token, and the poll
/// command is the space-joined remaining tokens in order.
pub proof fn lemma_no_separator(args: Seq<Seq<char>>)
    requires
        args.len() >= 1,
        spec_options_end(args, 1) <= args.len() - 2,
        forall|i: int| spec_options_end(args, 1) <= i < args.len() ==> args[i] != sep_token(),
    ensures
        spec_run_command(args) == args.last(),
        spec_poll_command(args) == spec_join_all(
            args.subrange(spec_options_end(args, 1), args.len() - 1),
        ),
{
    lemma_options_end_bounds(args, 1);
    lemma_split_no_separator(args, spec_options_end(args, 1), args.len() - 1);
}

/// With exactly one `--` token among the partitioned tokens, at position
/// `k`, the tokens before it join into the poll command, the tokens after
/// it join into the run command, and the final token is joined onto the
/// run command regardless of which side it would otherwise belong to.
pub proof fn lemma_single_separator(args: Seq<Seq<char>>, k: int)
    requires
        args.len() >= 1,
        spec_options_end(args, 1) <= k < args.len() - 1,
        args[k] == sep_token(),
        forall|i: int|
            spec_options_end(args, 1) <= i < args.len() - 1 && i != k ==> args[i] != sep_token(),
    ensures
        spec_poll_command(args) == spec_join_all(args.subrange(spec_options_end(args, 1), k)),
        spec_run_command(args) == spec_join(
            spec_join_all(args.subrange(k + 1, args.len() - 1)),
            args.last(),
        ),
{
    let start = spec_options_end(args, 1);
    lemma_options_end_bounds(args, 1);
    lemma_split_no_separator(args, start, k);
    assert(spec_split_prefix(args, start, k + 1) == (ArgSplit {
        poll: spec_join_all(args.subrange(start, k)),
        run: Seq::<char>::empty(),
        sep: true,
    }));
    lemma_split_after_separator(args, start, k + 1, args.len() - 1);
}

/// Parsing is deterministic, so parsing the same argument list twice
/// yields the same poll command, the same run command and the same
/// configuration.
pub proof fn lemma_parse_deterministic(args1: Seq<Seq<char>>, args2: Seq<Seq<char>>)
    requires
        args1 == args2,
    ensures
        spec_poll_command(args1) == spec_poll_command(args2),
        spec_run_command(args1) == spec_run_command(args2),
        spec_config(args1) == spec_config(args2),
{
}

/// The outcome of reading a full command line: the two resolved command
/// strings with the configuration, or a usage error.
#[derive(Debug, PartialEq, Eq)]
pub enum CommandLine {
    Parsed { poll_command: String, run_command: String, config: Config },
    UsageError,
}

/// A command line is malformed when fewer than two non-flag tokens remain
/// after the flags, or when either resolved command string is empty.
pub open spec fn spec_usage_error(args: Seq<Seq<char>>) -> bool {
    ||| args.len() - spec_options_end(args, 1) < 2
    ||| spec_poll_command(args).len() == 0
    ||| spec_run_command(args).len() == 0
}

/// Read a full argument list (program name included): report a usage
/// error exactly on malformed command lines, and otherwise resolve the
/// poll command, the run command and the configuration.
pub fn parse_command_line(args: &Vec<String>) -> (r: CommandLine)
    ensures
        r is UsageError <==> spec_usage_error(args.deep_view()),
        r matches CommandLine::Parsed { poll_command, run_command, config } ==> {
            &&& poll_command@ == spec_poll_command(args.deep_view())
            &&& run_command@ == spec_run_command(args.deep_view())
            &&& config == spec_config(args.deep_view())
        },
{
    let ghost dv = args.deep_view();
    proof {
        lemma_options_end_bounds(dv, 1);
    }
    if args.len() < 3 {
        return CommandLine::UsageError;
    }
    let (consumed, _config) = parse_options(args);
    if args.len() - consumed < 2 {
        return CommandLine::UsageError;
    }
    let (poll_command, run_command, config) = parse_arguments(args);
    if poll_command.as_str().is_empty() || run_command.as_str().is_empty() {
        return CommandLine::UsageError;
    }
    CommandLine::Parsed { poll_command, run_command, config }
}

} // verus!
