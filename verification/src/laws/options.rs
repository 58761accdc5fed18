//! Promises about the command line and the configuration that comes of it.

use crate::arguments::{
    first_dashed_number, first_k_flag, thousands, value_of, word_of,
};
use crate::config::{
    numeric_port_flag, port_limit_flag, thread_arg, timeout_arg, ConfigView, EnvView, ScanMode,
};
use crate::decimal;
use crate::error::ErrorView;
use crate::rate_limit::RateLimitView;
use crate::setup::{config_step, AnswersView, ConfigStepView, Prompt};
use crate::text;
use crate::validation::checked_target;
use vstd::prelude::*;

verus! {

/// The first argument of that name stands at position `i`.
pub open spec fn first_flag(args: Seq<Seq<char>>, flag: Seq<char>, i: int) -> bool {
    &&& 0 <= i < args.len()
    &&& args[i] == flag
    &&& forall|j: int| 0 <= j < i ==> #[trigger] args[j] != flag
}

/// What stands behind the first such flag is its value; there is none where the
/// flag comes last or is not there.
pub proof fn theorem_flag_value(args: Seq<Seq<char>>, flag: Seq<char>, i: int)
    requires
        first_flag(args, flag, i) || !args.contains(flag),
    ensures
        !args.contains(flag) ==> value_of(args, flag) is None,
        first_flag(args, flag, i) && i + 1 == args.len() ==> value_of(args, flag) == Some(
            None::<Seq<char>>,
        ),
        first_flag(args, flag, i) && i + 1 < args.len() ==> value_of(args, flag) == Some(
            Some(args[i + 1]),
        ),
    decreases args.len(),
{
    if !args.contains(flag) {
        crate::arguments::lemma_no_flag(args, flag);
    } else if i > 0 {
        let rest = args.skip(1);
        assert(args[0] != flag);
        assert forall|j: int| 0 <= j < i - 1 implies #[trigger] rest[j] != flag by {
            assert(args[j + 1] != flag);
        }
        theorem_flag_value(rest, flag, i - 1);
    }
}

/// At position `i` a word stands behind the flag.
pub open spec fn word_at(args: Seq<Seq<char>>, flag: Seq<char>, i: int) -> bool {
    &&& 0 <= i < args.len() - 1
    &&& args[i] == flag
    &&& text::trimmed(args[i + 1]).len() > 0
    &&& text::trimmed(args[i + 1])[0] != '-'
}

/// The first word behind such a flag is found, without the whitespace around
/// it, and nothing else is.
pub proof fn theorem_flag_word(args: Seq<Seq<char>>, flag: Seq<char>, i: int)
    requires
        forall|j: int| 0 <= j < i ==> !#[trigger] word_at(args, flag, j),
        word_at(args, flag, i) || i >= args.len(),
    ensures
        word_at(args, flag, i) ==> word_of(args, flag) == Some(text::trimmed(args[i + 1])),
        i >= args.len() ==> word_of(args, flag) is None,
    decreases args.len(),
{
    if args.len() > 0 {
        if i > 0 {
            let rest = args.skip(1);
            assert(!word_at(args, flag, 0));
            assert forall|j: int| 0 <= j < i - 1 implies !#[trigger] word_at(rest, flag, j) by {
                assert(!word_at(args, flag, j + 1));
            }
            if word_at(args, flag, i) {
                assert(word_at(rest, flag, i - 1));
            }
            theorem_flag_word(rest, flag, i - 1);
        }
    }
}

/// The argument is a dash and a number from 1 to 65535.
pub open spec fn is_count(arg: Seq<char>, n: u16) -> bool {
    &&& arg.len() > 1
    &&& arg[0] == '-'
    &&& decimal::unsigned(arg.skip(1)) == Some(n as nat)
    &&& n >= 1
}

/// The first argument that is a dash and a number gives the number.
pub proof fn theorem_count(args: Seq<Seq<char>>, i: int)
    requires
        forall|j: int, n: u16| 0 <= j < i ==> !#[trigger] is_count(args[j], n),
        0 <= i <= args.len(),
    ensures
        i == args.len() ==> first_dashed_number(args) is None,
        i < args.len() ==> forall|n: u16|
            is_count(args[i], n) ==> first_dashed_number(args) == Some(n),
    decreases args.len(),
{
    if args.len() > 0 {
        let first = crate::arguments::dashed_number(args[0]);
        if i > 0 {
            if first is Some {
                assert(is_count(args[0], first->0));
            }
            let rest = args.skip(1);
            assert forall|j: int, n: u16| 0 <= j < i - 1 implies !#[trigger] is_count(
                rest[j],
                n,
            ) by {
                assert(!is_count(args[j + 1], n));
            }
            theorem_count(rest, i - 1);
            assert(i < args.len() ==> rest[i - 1] == args[i]);
        }
    }
}

/// The argument begins with a dash and ends with a `k`.
pub open spec fn ends_in_k(arg: Seq<char>) -> bool {
    arg.len() > 0 && arg[0] == '-' && arg[arg.len() - 1] == 'k'
}

/// The first argument of that form is found, and what stands between the dash
/// and the `k` is the number of thousands.
pub proof fn theorem_thousands_flag(args: Seq<Seq<char>>, i: int)
    requires
        forall|j: int| 0 <= j < i ==> !ends_in_k(#[trigger] args[j]),
        0 <= i <= args.len(),
        i < args.len() ==> ends_in_k(args[i]),
    ensures
        i == args.len() ==> first_k_flag(args) is None,
        i < args.len() ==> first_k_flag(args) == Some(args[i]),
        i < args.len() ==> thousands(args[i]) == (match decimal::unsigned(
            args[i].subrange(1, args[i].len() - 1),
        ) {
            Some(n) => if n <= 65535 {
                Some(n)
            } else {
                None
            },
            None => None,
        }),
    decreases args.len(),
{
    if args.len() > 0 && i > 0 {
        let rest = args.skip(1);
        assert(!ends_in_k(args[0]));
        assert forall|j: int| 0 <= j < i - 1 implies !ends_in_k(#[trigger] rest[j]) by {
            assert(!ends_in_k(args[j + 1]));
        }
        theorem_thousands_flag(rest, i - 1);
    }
}

/// A time is the number of milliseconds behind its flag, or the default without
/// the flag. A flag without a value, or with one that is no number, is refused.
pub proof fn theorem_timeout(args: Seq<Seq<char>>, flag: Seq<char>, default_ms: u64, i: int)
    requires
        first_flag(args, flag, i) || !args.contains(flag),
    ensures
        !args.contains(flag) ==> timeout_arg(args, flag, default_ms) == Ok::<nat, ErrorView>(
            (default_ms * 1_000_000) as nat,
        ),
        first_flag(args, flag, i) && i + 1 == args.len() ==> timeout_arg(args, flag, default_ms)
            == Err::<nat, ErrorView>(ErrorView::Config("Missing timeout value for "@ + flag)),
        first_flag(args, flag, i) && i + 1 < args.len() ==> timeout_arg(args, flag, default_ms)
            == match decimal::unsigned(args[i + 1]) {
            Some(ms) if ms <= u64::MAX => Ok::<nat, ErrorView>(ms * 1_000_000),
            _ => Err(
                ErrorView::Config("Invalid timeout value for "@ + flag + ": "@ + args[i + 1]),
            ),
        },
{
    theorem_flag_value(args, flag, i);
}

/// The number of connections is the number behind its flag, or the default
/// without the flag; 0 stands for 200.
pub proof fn theorem_threads(args: Seq<Seq<char>>, default: usize, i: int)
    requires
        first_flag(args, "--threads"@, i) || !args.contains("--threads"@),
    ensures
        !args.contains("--threads"@) ==> thread_arg(args, default) == Ok::<usize, ErrorView>(
            default,
        ),
        first_flag(args, "--threads"@, i) && i + 1 == args.len() ==> thread_arg(args, default)
            == Err::<usize, ErrorView>(ErrorView::Config("Missing connection count value"@)),
        first_flag(args, "--threads"@, i) && i + 1 < args.len() ==> thread_arg(args, default)
            == match decimal::unsigned(args[i + 1]) {
            Some(n) if n == 0 => Ok::<usize, ErrorView>(200),
            Some(n) if n <= usize::MAX => Ok(n as usize),
            _ => Err(ErrorView::Config("Invalid connection count: "@ + args[i + 1])),
        },
{
    theorem_flag_value(args, "--threads"@, i);
}

/// The port count is the number behind `--ports`, and without that flag the
/// first argument that is a dash and a number.
pub proof fn theorem_port_count(args: Seq<Seq<char>>, i: int)
    requires
        first_flag(args, "--ports"@, i) || !args.contains("--ports"@),
    ensures
        !args.contains("--ports"@) ==> numeric_port_flag(args) == Ok::<Option<u16>, ErrorView>(
            first_dashed_number(args),
        ),
        first_flag(args, "--ports"@, i) && i + 1 == args.len() ==> numeric_port_flag(args)
            == Err::<Option<u16>, ErrorView>(
            ErrorView::Config("Missing port count value for --ports flag"@),
        ),
        first_flag(args, "--ports"@, i) && i + 1 < args.len() ==> numeric_port_flag(args)
            == match decimal::unsigned(args[i + 1]) {
            Some(n) if n == 0 => Err::<Option<u16>, ErrorView>(
                ErrorView::Config("Port count must be at least 1"@),
            ),
            Some(n) if n <= 65535 => Ok(Some(n as u16)),
            _ => Err(ErrorView::Config("Invalid port count: "@ + args[i + 1])),
        },
{
    theorem_flag_value(args, "--ports"@, i);
}

/// A number of thousands from 1 to 30 is a port count, and any other is refused.
pub proof fn theorem_thousands(args: Seq<Seq<char>>, i: int)
    requires
        0 <= i < args.len(),
        ends_in_k(args[i]),
        forall|j: int| 0 <= j < i ==> !ends_in_k(#[trigger] args[j]),
    ensures
        port_limit_flag(args) == match decimal::unsigned(
            args[i].subrange(1, args[i].len() - 1),
        ) {
            Some(n) if 1 <= n <= 30 => Ok::<u16, ErrorView>((n * 1000) as u16),
            Some(n) if n <= 65535 => Err(
                ErrorView::Config(
                    "Port limit must be between 1k and "@ + decimal::digits_of(30) + "k"@,
                ),
            ),
            _ => Err(ErrorView::Config("Invalid port limit format: "@ + args[i])),
        },
{
    theorem_thousands_flag(args, i);
}

/// The environment sets each value for itself; what is not set has its default,
/// and what is no number or truth value is refused by its name.
pub proof fn theorem_environment(env: EnvView)
    ensures
        env.config() matches Ok(c) ==> {
            &&& c.target.len() == 0
            &&& !c.json_mode
            &&& c.scan_mode == ScanMode::Tcp
            &&& c.port_limit == 1000
            &&& c.scan_timeout == 1_000_000_000
            &&& c.exploit_timeout == 10_000_000_000
            &&& c.nse_script is None
            &&& c.threads == match env.threads {
                Some(s) => decimal::unsigned(s)->0,
                None => 200,
            }
            &&& c.shutdown_timeout == match env.shutdown_timeout {
                Some(s) => decimal::unsigned(s)->0 * 1_000_000_000,
                None => 30_000_000_000,
            }
            &&& c.enable_rate_limiting <==> env.enable_rate_limit is None || env.enable_rate_limit
                == Some("true"@)
            &&& c.scanner_rate_limit == limit_of(env.scanner_rate_limit, 50)
            &&& c.external_tools_rate_limit == limit_of(env.external_tools_rate_limit, 5)
            &&& c.exploit_queries_rate_limit == limit_of(env.exploit_queries_rate_limit, 2)
        },
        env.config() is Ok <==> {
            &&& is_number(env.threads, usize::MAX as nat)
            &&& is_number(env.shutdown_timeout, u64::MAX as nat)
            &&& env.enable_rate_limit is None || env.enable_rate_limit == Some("true"@)
                || env.enable_rate_limit == Some("false"@)
            &&& is_number(env.scanner_rate_limit, u32::MAX as nat)
            &&& is_number(env.external_tools_rate_limit, u32::MAX as nat)
            &&& is_number(env.exploit_queries_rate_limit, u32::MAX as nat)
        },
        !is_number(env.threads, usize::MAX as nat) ==> env.config() == Err::<ConfigView, ErrorView>(
            ErrorView::Config("Invalid OXIDE_THREADS value"@),
        ),
        is_number(env.threads, usize::MAX as nat) && !is_number(
            env.shutdown_timeout,
            u64::MAX as nat,
        ) ==> env.config() == Err::<ConfigView, ErrorView>(
            ErrorView::Config("Invalid OXIDE_SHUTDOWN_TIMEOUT value"@),
        ),
        is_number(env.threads, usize::MAX as nat) && is_number(
            env.shutdown_timeout,
            u64::MAX as nat,
        ) ==> {
            let truth = env.enable_rate_limit is None || env.enable_rate_limit == Some("true"@)
                || env.enable_rate_limit == Some("false"@);
            let scanner = is_number(env.scanner_rate_limit, u32::MAX as nat);
            let tools = is_number(env.external_tools_rate_limit, u32::MAX as nat);
            let queries = is_number(env.exploit_queries_rate_limit, u32::MAX as nat);
            &&& !truth ==> env.config() == Err::<ConfigView, ErrorView>(
                ErrorView::Config("Invalid OXIDE_ENABLE_RATE_LIMIT value"@),
            )
            &&& truth && !scanner ==> env.config() == Err::<ConfigView, ErrorView>(
                ErrorView::Config("Invalid OXIDE_SCANNER_RATE_LIMIT value"@),
            )
            &&& truth && scanner && !tools ==> env.config() == Err::<ConfigView, ErrorView>(
                ErrorView::Config("Invalid OXIDE_EXTERNAL_TOOLS_RATE_LIMIT value"@),
            )
            &&& truth && scanner && tools && !queries ==> env.config() == Err::<
                ConfigView,
                ErrorView,
            >(ErrorView::Config("Invalid OXIDE_EXPLOIT_QUERIES_RATE_LIMIT value"@))
        },
{
    reveal_strlit("true");
    reveal_strlit("false");
    assert("true"@.len() != "false"@.len());
}

/// A variable that is not set, or holds a number of at most `max`.
pub open spec fn is_number(value: Option<Seq<char>>, max: nat) -> bool {
    match value {
        Some(s) => decimal::unsigned(s) matches Some(n) && n <= max,
        None => true,
    }
}

/// So many operations in a second.
pub open spec fn limit_of(value: Option<Seq<char>>, default: u32) -> RateLimitView {
    RateLimitView {
        max_operations: match value {
            Some(s) => decimal::unsigned(s)->0 as u32,
            None => default,
        },
        period: 1_000_000_000,
        burst_capacity: None,
    }
}

/// The user can be asked.
pub open spec fn can_ask(args: Seq<Seq<char>>, terminal: bool) -> bool {
    terminal && !args.contains("--json"@)
}

/// The user is asked for the scan mode.
pub open spec fn asks_mode(args: Seq<Seq<char>>, terminal: bool) -> bool {
    can_ask(args, terminal) && args.len() == 2 && !args.contains("--udp"@) && !args.contains(
        "--both"@,
    )
}

/// The scan mode that is settled by flags, by default or by the answer.
pub open spec fn mode_is(
    args: Seq<Seq<char>>,
    terminal: bool,
    answers: AnswersView,
    mode: ScanMode,
) -> bool {
    if asks_mode(args, terminal) {
        answers.scan_mode == Some(Ok::<ScanMode, ErrorView>(mode))
    } else if args.contains("--udp"@) {
        mode == ScanMode::Udp
    } else if args.contains("--both"@) {
        mode == ScanMode::Both
    } else {
        mode == ScanMode::Tcp
    }
}

/// No argument names a port count.
pub open spec fn no_count(args: Seq<Seq<char>>) -> bool {
    first_k_flag(args) is None && numeric_port_flag(args) == Ok::<Option<u16>, ErrorView>(None)
}

/// The port count that is settled by flags, by default or by the answer.
pub open spec fn limit_is(
    args: Seq<Seq<char>>,
    terminal: bool,
    answers: AnswersView,
    limit: u16,
) -> bool {
    if first_k_flag(args) is Some {
        port_limit_flag(args) == Ok::<u16, ErrorView>(limit)
    } else if !no_count(args) {
        numeric_port_flag(args) == Ok::<Option<u16>, ErrorView>(Some(limit))
    } else if can_ask(args, terminal) {
        answers.port_limit == Some(Ok::<u16, ErrorView>(limit))
    } else {
        limit == 1000
    }
}

/// The scripts that are settled by the flag or by the answer.
pub open spec fn script_is(
    args: Seq<Seq<char>>,
    terminal: bool,
    answers: AnswersView,
    script: Option<Seq<char>>,
) -> bool {
    if word_of(args, "--script"@) is Some {
        script == word_of(args, "--script"@)
    } else if can_ask(args, terminal) && args.len() == 2 {
        answers.nse_script == Some(Ok::<Option<Seq<char>>, ErrorView>(script))
    } else {
        script is None
    }
}

/// Once everything is settled, the configuration has all of it: each setting
/// from its own flag, answer or variable.
pub proof fn theorem_configuration(
    args: Seq<Seq<char>>,
    terminal: bool,
    answers: AnswersView,
    env: EnvView,
    mode: ScanMode,
    limit: u16,
    script: Option<Seq<char>>,
    scan: nat,
    exploit: nat,
    threads: usize,
    shutdown: nat,
)
    requires
        args.len() >= 2,
        checked_target(args[1]) is Ok,
        mode_is(args, terminal, answers, mode),
        limit_is(args, terminal, answers, limit),
        script_is(args, terminal, answers, script),
        timeout_arg(args, "--scan-timeout"@, 1000) == Ok::<nat, ErrorView>(scan),
        timeout_arg(args, "--exploit-timeout"@, 10000) == Ok::<nat, ErrorView>(exploit),
        env.config() is Ok,
        thread_arg(args, env.config()->Ok_0.threads) == Ok::<usize, ErrorView>(threads),
        timeout_arg(
            args,
            "--shutdown-timeout"@,
            ((env.config()->Ok_0.shutdown_timeout / 1_000_000) % 0x1_0000_0000_0000_0000) as u64,
        ) == Ok::<nat, ErrorView>(shutdown),
    ensures
        config_step(args, terminal, answers, env) matches ConfigStepView::Done(Ok(c)) && {
            let base = env.config()->Ok_0;
            &&& c.target == args[1]
            &&& c.json_mode == args.contains("--json"@)
            &&& c.scan_mode == mode
            &&& c.port_limit == limit
            &&& c.scan_timeout == scan
            &&& c.exploit_timeout == exploit
            &&& c.threads == threads
            &&& c.shutdown_timeout == shutdown
            &&& c.enable_rate_limiting == (base.enable_rate_limiting && !args.contains(
                "--no-rate-limit"@,
            ))
            &&& c.scanner_rate_limit == base.scanner_rate_limit
            &&& c.external_tools_rate_limit == base.external_tools_rate_limit
            &&& c.exploit_queries_rate_limit == base.exploit_queries_rate_limit
            &&& c.nse_script == script
        },
{
}

/// The user is asked for what is open, in a fixed order and only at a terminal.
pub proof fn theorem_questions(
    args: Seq<Seq<char>>,
    terminal: bool,
    answers: AnswersView,
    env: EnvView,
    mode: ScanMode,
    limit: u16,
)
    requires
        args.len() >= 2,
        checked_target(args[1]) is Ok,
    ensures
        asks_mode(args, terminal) && answers.scan_mode is None ==> config_step(
            args,
            terminal,
            answers,
            env,
        ) == ConfigStepView::Ask(Prompt::ScanMode),
        mode_is(args, terminal, answers, mode) && no_count(args) && can_ask(args, terminal)
            && answers.port_limit is None ==> config_step(args, terminal, answers, env)
            == ConfigStepView::Ask(Prompt::PortLimit),
        mode_is(args, terminal, answers, mode) && limit_is(args, terminal, answers, limit)
            && timeout_arg(args, "--scan-timeout"@, 1000) is Ok && timeout_arg(
            args,
            "--exploit-timeout"@,
            10000,
        ) is Ok && word_of(args, "--script"@) is None && can_ask(args, terminal) && args.len() == 2
            && answers.nse_script is None ==> config_step(args, terminal, answers, env)
            == ConfigStepView::Ask(Prompt::NseScript),
{
}

/// What is refused, in the order in which it is looked at.
pub proof fn theorem_refusals(
    args: Seq<Seq<char>>,
    terminal: bool,
    answers: AnswersView,
    env: EnvView,
    mode: ScanMode,
    limit: u16,
    script: Option<Seq<char>>,
    e: ErrorView,
)
    ensures
        args.len() < 2 ==> config_step(args, terminal, answers, env) == ConfigStepView::Done(
            Err(ErrorView::Config("Target argument required"@)),
        ),
        args.len() >= 2 && checked_target(args[1]) == Err::<Seq<char>, ErrorView>(e)
            ==> config_step(args, terminal, answers, env) == ConfigStepView::Done(Err(e)),
        args.len() >= 2 && checked_target(args[1]) is Ok ==> {
            let step = config_step(args, terminal, answers, env);
            let refused = ConfigStepView::Done(Err(e));
            let scan = timeout_arg(args, "--scan-timeout"@, 1000);
            let exploit = timeout_arg(args, "--exploit-timeout"@, 10000);
            &&& asks_mode(args, terminal) && answers.scan_mode == Some(
                Err::<ScanMode, ErrorView>(e),
            ) ==> step == refused
            &&& mode_is(args, terminal, answers, mode) ==> {
                &&& first_k_flag(args) is Some && port_limit_flag(args) == Err::<u16, ErrorView>(e)
                    ==> step == refused
                &&& first_k_flag(args) is None && numeric_port_flag(args) == Err::<
                    Option<u16>,
                    ErrorView,
                >(e) ==> step == refused
                &&& no_count(args) && can_ask(args, terminal) && answers.port_limit == Some(
                    Err::<u16, ErrorView>(e),
                ) ==> step == refused
                &&& limit_is(args, terminal, answers, limit) ==> {
                    &&& scan == Err::<nat, ErrorView>(e) ==> step == refused
                    &&& scan is Ok && exploit == Err::<nat, ErrorView>(e) ==> step == refused
                    &&& scan is Ok && exploit is Ok && word_of(args, "--script"@) is None
                        && can_ask(args, terminal) && args.len() == 2 && answers.nse_script == Some(
                        Err::<Option<Seq<char>>, ErrorView>(e),
                    ) ==> step == refused
                    &&& scan is Ok && exploit is Ok && script_is(args, terminal, answers, script)
                        ==> {
                        &&& env.config() == Err::<ConfigView, ErrorView>(e) ==> step == refused
                        &&& env.config() is Ok && thread_arg(args, env.config()->Ok_0.threads)
                            == Err::<usize, ErrorView>(e) ==> step == refused
                        &&& env.config() is Ok && thread_arg(args, env.config()->Ok_0.threads) is Ok
                            && timeout_arg(
                            args,
                            "--shutdown-timeout"@,
                            ((env.config()->Ok_0.shutdown_timeout / 1_000_000)
                                % 0x1_0000_0000_0000_0000) as u64,
                        ) == Err::<nat, ErrorView>(e) ==> step == refused
                    }
                }
            }
        },
{
}

} // verus!
