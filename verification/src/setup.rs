//! From the command line to a configuration, with questions to the user where
//! the command line leaves something open.

use crate::arguments;
use crate::config::{
    numeric_port_flag, port_limit_flag, thread_arg, timeout_arg, Config, ConfigView, EnvVars,
    EnvView, ScanMode,
};
use crate::constants;
use crate::decimal;
use crate::duration::{wrapped_millis, Duration};
use crate::error::{outcome, ErrorView, Outcome, OxideScannerError};
use crate::validation::{checked_target, validate_target};
use vstd::prelude::*;

verus! {

/// A question to the user.
#[derive(Debug, Clone, Copy, PartialEq, Eq, Structural)]
pub enum Prompt {
    ScanMode,
    PortLimit,
    NseScript,
}

/// An answer, where there is one, by its contents.
pub open spec fn answered<T: DeepView>(r: Option<Outcome<T>>) -> Option<
    core::result::Result<T::V, ErrorView>,
> {
    match r {
        Some(r) => Some(outcome(r)),
        None => None,
    }
}

/// What came of the questions asked so far.
#[derive(Debug)]
pub struct Answers {
    pub scan_mode: Option<Outcome<ScanMode>>,
    pub port_limit: Option<Outcome<u16>>,
    pub nse_script: Option<Outcome<Option<String>>>,
}

/// The answers by their contents.
#[verifier::ext_equal]
pub struct AnswersView {
    pub scan_mode: Option<core::result::Result<ScanMode, ErrorView>>,
    pub port_limit: Option<core::result::Result<u16, ErrorView>>,
    pub nse_script: Option<core::result::Result<Option<Seq<char>>, ErrorView>>,
}

impl DeepView for Answers {
    type V = AnswersView;

    open spec fn deep_view(&self) -> AnswersView {
        AnswersView {
            scan_mode: answered(self.scan_mode),
            port_limit: answered(self.port_limit),
            nse_script: answered(self.nse_script),
        }
    }
}

/// What happens next: a question, or the end.
#[derive(Debug)]
pub enum ConfigStep {
    Ask(Prompt),
    Done(Outcome<Config>),
}

/// A step by its contents.
#[verifier::ext_equal]
pub enum ConfigStepView {
    Ask(Prompt),
    Done(core::result::Result<ConfigView, ErrorView>),
}

impl DeepView for ConfigStep {
    type V = ConfigStepView;

    open spec fn deep_view(&self) -> ConfigStepView {
        match *self {
            ConfigStep::Ask(p) => ConfigStepView::Ask(p),
            ConfigStep::Done(r) => ConfigStepView::Done(outcome(r)),
        }
    }
}

/// The user can be asked at a terminal, unless the output is JSON.
pub open spec fn interactive(args: Seq<Seq<char>>, terminal: bool) -> bool {
    terminal && !args.contains("--json"@)
}

/// Anything stands behind the target.
pub open spec fn has_options(args: Seq<Seq<char>>) -> bool {
    args.len() > 2
}

/// The scan mode, or nothing where the user has to be asked first.
pub open spec fn scan_mode_step(
    args: Seq<Seq<char>>,
    terminal: bool,
    answer: Option<core::result::Result<ScanMode, ErrorView>>,
) -> Option<core::result::Result<ScanMode, ErrorView>> {
    if args.contains("--udp"@) {
        Some(Ok(ScanMode::Udp))
    } else if args.contains("--both"@) {
        Some(Ok(ScanMode::Both))
    } else if !has_options(args) && interactive(args, terminal) {
        answer
    } else {
        Some(Ok(ScanMode::Tcp))
    }
}

/// The port count, or nothing where the user has to be asked first.
pub open spec fn port_limit_step(
    args: Seq<Seq<char>>,
    terminal: bool,
    answer: Option<core::result::Result<u16, ErrorView>>,
) -> Option<core::result::Result<u16, ErrorView>> {
    if arguments::first_k_flag(args) is Some {
        Some(port_limit_flag(args))
    } else {
        match numeric_port_flag(args) {
            Err(e) => Some(Err(e)),
            Ok(Some(n)) => Some(Ok(n)),
            Ok(None) => if interactive(args, terminal) {
                answer
            } else {
                Some(Ok(constants::ports::DEFAULT_LIMIT))
            },
        }
    }
}

/// The scripts to run, or nothing where the user has to be asked first.
pub open spec fn nse_script_step(
    args: Seq<Seq<char>>,
    terminal: bool,
    answer: Option<core::result::Result<Option<Seq<char>>, ErrorView>>,
) -> Option<core::result::Result<Option<Seq<char>>, ErrorView>> {
    match arguments::word_of(args, "--script"@) {
        Some(script) => Some(Ok(Some(script))),
        None => if !has_options(args) && interactive(args, terminal) {
            answer
        } else {
            Some(Ok(None))
        },
    }
}

/// What the user settled, by flags or by answers.
#[verifier::ext_equal]
pub struct Choices {
    pub target: Seq<char>,
    pub scan_mode: ScanMode,
    pub port_limit: u16,
    pub scan_timeout: nat,
    pub exploit_timeout: nat,
    pub nse_script: Option<Seq<char>>,
}

/// The configuration with the choices, what is left of the arguments, and the
/// environment.
pub open spec fn completed(args: Seq<Seq<char>>, choices: Choices, env: EnvView) -> core::result::Result<
    ConfigView,
    ErrorView,
> {
    match env.config() {
        Err(e) => Err(e),
        Ok(base) => match thread_arg(args, base.threads) {
            Err(e) => Err(e),
            Ok(threads) => match timeout_arg(
                args,
                "--shutdown-timeout"@,
                wrapped_millis(base.shutdown_timeout),
            ) {
                Err(e) => Err(e),
                Ok(shutdown_timeout) => Ok(
                    ConfigView {
                        target: choices.target,
                        json_mode: args.contains("--json"@),
                        scan_mode: choices.scan_mode,
                        port_limit: choices.port_limit,
                        scan_timeout: choices.scan_timeout,
                        exploit_timeout: choices.exploit_timeout,
                        threads,
                        shutdown_timeout,
                        enable_rate_limiting: !args.contains("--no-rate-limit"@)
                            && base.enable_rate_limiting,
                        scanner_rate_limit: base.scanner_rate_limit,
                        external_tools_rate_limit: base.external_tools_rate_limit,
                        exploit_queries_rate_limit: base.exploit_queries_rate_limit,
                        nse_script: choices.nse_script,
                    },
                ),
            },
        },
    }
}

/// The default of `--exploit-timeout`.
pub open spec fn exploit_default_ms() -> u64 {
    (constants::DEFAULT_EXPLOIT_TIMEOUT_SECS * 1000) as u64
}

/// What happens next, given the answers so far. The arguments are read in a
/// fixed order, and the first thing that fails or has to be asked decides.
pub open spec fn config_step(
    args: Seq<Seq<char>>,
    terminal: bool,
    answers: AnswersView,
    env: EnvView,
) -> ConfigStepView {
    if args.len() < 2 {
        ConfigStepView::Done(Err(ErrorView::Config("Target argument required"@)))
    } else {
        match checked_target(args[1]) {
            Err(e) => ConfigStepView::Done(Err(e)),
            Ok(target) => match scan_mode_step(args, terminal, answers.scan_mode) {
                None => ConfigStepView::Ask(Prompt::ScanMode),
                Some(Err(e)) => ConfigStepView::Done(Err(e)),
                Some(Ok(scan_mode)) => match port_limit_step(args, terminal, answers.port_limit) {
                    None => ConfigStepView::Ask(Prompt::PortLimit),
                    Some(Err(e)) => ConfigStepView::Done(Err(e)),
                    Some(Ok(port_limit)) => timed_step(
                        args,
                        terminal,
                        answers,
                        env,
                        target,
                        scan_mode,
                        port_limit,
                    ),
                },
            },
        }
    }
}

/// What happens once target, scan mode and port count are known.
pub open spec fn timed_step(
    args: Seq<Seq<char>>,
    terminal: bool,
    answers: AnswersView,
    env: EnvView,
    target: Seq<char>,
    scan_mode: ScanMode,
    port_limit: u16,
) -> ConfigStepView {
    let scan = timeout_arg(args, "--scan-timeout"@, constants::DEFAULT_SCAN_TIMEOUT_MS);
    let exploit = timeout_arg(args, "--exploit-timeout"@, exploit_default_ms());
    match (scan, exploit) {
        (Err(e), _) => ConfigStepView::Done(Err(e)),
        (Ok(_), Err(e)) => ConfigStepView::Done(Err(e)),
        (Ok(scan_timeout), Ok(exploit_timeout)) => match nse_script_step(
            args,
            terminal,
            answers.nse_script,
        ) {
            None => ConfigStepView::Ask(Prompt::NseScript),
            Some(Err(e)) => ConfigStepView::Done(Err(e)),
            Some(Ok(nse_script)) => ConfigStepView::Done(
                completed(
                    args,
                    Choices {
                        target,
                        scan_mode,
                        port_limit,
                        scan_timeout,
                        exploit_timeout,
                        nse_script,
                    },
                    env,
                ),
            ),
        },
    }
}

/// No answers at all.
pub open spec fn no_answers() -> AnswersView {
    AnswersView { scan_mode: None, port_limit: None, nse_script: None }
}

/// Without a terminal, or with JSON output, nothing is asked, and what the
/// answers would be makes no difference.
pub proof fn theorem_no_question_without_dialogue(
    args: Seq<Seq<char>>,
    terminal: bool,
    answers: AnswersView,
    env: EnvView,
)
    requires
        !terminal || args.contains("--json"@),
    ensures
        config_step(args, terminal, answers, env) is Done,
        config_step(args, terminal, answers, env) == config_step(args, false, no_answers(), env),
{
}

/// With anything behind the target, neither the scan mode nor the scripts are
/// asked for.
pub proof fn theorem_options_answer_for_the_user(
    args: Seq<Seq<char>>,
    terminal: bool,
    answers: AnswersView,
    env: EnvView,
)
    requires
        has_options(args),
    ensures
        config_step(args, terminal, answers, env) != ConfigStepView::Ask(Prompt::ScanMode),
        config_step(args, terminal, answers, env) != ConfigStepView::Ask(Prompt::NseScript),
{
}

/// A question that has an answer is not asked again.
pub proof fn theorem_answers_end_the_dialogue(
    args: Seq<Seq<char>>,
    terminal: bool,
    answers: AnswersView,
    env: EnvView,
)
    ensures
        config_step(args, terminal, answers, env) == ConfigStepView::Ask(Prompt::ScanMode)
            ==> answers.scan_mode is None,
        config_step(args, terminal, answers, env) == ConfigStepView::Ask(Prompt::PortLimit)
            ==> answers.port_limit is None,
        config_step(args, terminal, answers, env) == ConfigStepView::Ask(Prompt::NseScript)
            ==> answers.nse_script is None,
{
}

/// A configuration made without asking scans at least one port, keeps a valid
/// target and turns rate limiting on only where the environment allows it.
pub proof fn theorem_configuration_is_usable(args: Seq<Seq<char>>, env: EnvView, config: ConfigView)
    requires
        config_step(args, false, no_answers(), env) == ConfigStepView::Done(Ok(config)),
    ensures
        config.port_limit >= constants::ports::MIN,
        checked_target(config.target) == Ok::<Seq<char>, ErrorView>(config.target),
        config.target == args[1],
        config.enable_rate_limiting ==> crate::config::env_bool(env.enable_rate_limit) == Some(
            true,
        ),
{
    arguments::lemma_first_dashed_number(args);
}

/// What a flag asks for, the configuration has: JSON output just with `--json`,
/// UDP with `--udp`, both protocols with `--both` alone, no rate limit with
/// `--no-rate-limit`, and the scripts behind `--script`.
pub proof fn theorem_flags(
    args: Seq<Seq<char>>,
    terminal: bool,
    answers: AnswersView,
    env: EnvView,
    config: ConfigView,
)
    requires
        config_step(args, terminal, answers, env) == ConfigStepView::Done(Ok(config)),
    ensures
        config.json_mode == args.contains("--json"@),
        args.contains("--udp"@) ==> config.scan_mode == ScanMode::Udp,
        args.contains("--both"@) && !args.contains("--udp"@) ==> config.scan_mode == ScanMode::Both,
        args.contains("--no-rate-limit"@) ==> !config.enable_rate_limiting,
        arguments::word_of(args, "--script"@) is Some ==> config.nse_script == arguments::word_of(
            args,
            "--script"@,
        ),
        timeout_arg(args, "--scan-timeout"@, constants::DEFAULT_SCAN_TIMEOUT_MS) == Ok::<
            nat,
            ErrorView,
        >(config.scan_timeout),
        timeout_arg(args, "--exploit-timeout"@, exploit_default_ms()) == Ok::<nat, ErrorView>(
            config.exploit_timeout,
        ),
{
}

/// A text that does not begin with a dash.
pub open spec fn is_plain(s: Seq<char>) -> bool {
    s.len() == 0 || s[0] != '-'
}

/// The option `-N`.
pub open spec fn count_option(n: u16) -> Seq<char> {
    seq!['-'] + decimal::digits_of(n as nat)
}

/// The option `-Nk`.
pub open spec fn thousands_option(n: u16) -> Seq<char> {
    seq!['-'] + decimal::digits_of(n as nat) + seq!['k']
}

/// The configuration of a TCP scan of so many ports, with every other setting
/// left to the environment or the defaults.
pub open spec fn plain_scan(target: Seq<char>, port_limit: u16, base: ConfigView) -> ConfigView {
    ConfigView {
        target,
        json_mode: false,
        scan_mode: ScanMode::Tcp,
        port_limit,
        scan_timeout: (constants::DEFAULT_SCAN_TIMEOUT_MS * 1_000_000) as nat,
        exploit_timeout: (constants::DEFAULT_EXPLOIT_TIMEOUT_SECS * 1_000_000_000) as nat,
        shutdown_timeout: (wrapped_millis(base.shutdown_timeout) * 1_000_000) as nat,
        nse_script: None,
        ..base
    }
}

/// No argument is a flag that begins with two dashes.
spec fn without_flags(args: Seq<Seq<char>>) -> bool {
    forall|i: int|
        0 <= i < args.len() ==> is_plain(#[trigger] args[i]) || (args[i].len() > 1 && args[i][1]
            != '-')
}

proof fn lemma_without_flags(args: Seq<Seq<char>>)
    requires
        without_flags(args),
    ensures
        !args.contains("--udp"@),
        !args.contains("--both"@),
        !args.contains("--json"@),
        !args.contains("--no-rate-limit"@),
        arguments::value_of(args, "--ports"@) is None,
        arguments::value_of(args, "--scan-timeout"@) is None,
        arguments::value_of(args, "--exploit-timeout"@) is None,
        arguments::value_of(args, "--shutdown-timeout"@) is None,
        arguments::value_of(args, "--threads"@) is None,
        arguments::word_of(args, "--script"@) is None,
{
    reveal_strlit("--udp");
    reveal_strlit("--both");
    reveal_strlit("--json");
    reveal_strlit("--no-rate-limit");
    reveal_strlit("--ports");
    reveal_strlit("--scan-timeout");
    reveal_strlit("--exploit-timeout");
    reveal_strlit("--shutdown-timeout");
    reveal_strlit("--threads");
    reveal_strlit("--script");
    arguments::lemma_no_flag(args, "--ports"@);
    arguments::lemma_no_flag(args, "--scan-timeout"@);
    arguments::lemma_no_flag(args, "--exploit-timeout"@);
    arguments::lemma_no_flag(args, "--shutdown-timeout"@);
    arguments::lemma_no_flag(args, "--threads"@);
    arguments::lemma_no_flag(args, "--script"@);
}

/// With a target alone, and no terminal to ask at, a thousand TCP ports are
/// scanned.
pub proof fn theorem_target_alone(program: Seq<char>, target: Seq<char>, env: EnvView)
    requires
        is_plain(program),
        is_plain(target),
        checked_target(target) is Ok,
        env.config() is Ok,
    ensures
        config_step(seq![program, target], false, no_answers(), env) == ConfigStepView::Done(
            Ok(plain_scan(target, 1000, env.config()->Ok_0)),
        ),
{
    let args = seq![program, target];
    lemma_without_flags(args);
    reveal_with_fuel(arguments::first_k_flag, 3);
    reveal_with_fuel(arguments::first_dashed_number, 3);
}

/// The option `-N` scans `N` ports, and the option `-Nk` scans `N` thousand.
pub proof fn theorem_port_options(program: Seq<char>, target: Seq<char>, n: u16, env: EnvView)
    requires
        is_plain(program),
        is_plain(target),
        checked_target(target) is Ok,
        env.config() is Ok,
        n >= 1,
    ensures
        config_step(seq![program, target, count_option(n)], false, no_answers(), env)
            == ConfigStepView::Done(Ok(plain_scan(target, n, env.config()->Ok_0))),
        n <= constants::ports::MAX_K_VALUE ==> config_step(
            seq![program, target, thousands_option(n)],
            false,
            no_answers(),
            env,
        ) == ConfigStepView::Done(
            Ok(plain_scan(target, (n * 1000) as u16, env.config()->Ok_0)),
        ),
{
    decimal::lemma_digits_of(n as nat);
    arguments::theorem_dashed_number(n);
    arguments::theorem_thousands(n);
    let count = count_option(n);
    let thousand = thousands_option(n);
    reveal_with_fuel(arguments::first_k_flag, 4);
    reveal_with_fuel(arguments::first_dashed_number, 4);
    let a = seq![program, target, count];
    lemma_without_flags(a);
    let b = seq![program, target, thousand];
    lemma_without_flags(b);
}

impl Config {
    /// The configuration out of the choices, the arguments and the environment.
    fn complete(
        args: &[String],
        target: String,
        scan_mode: ScanMode,
        port_limit: u16,
        scan_timeout: Duration,
        exploit_timeout: Duration,
        nse_script: Option<String>,
        env: &EnvVars,
    ) -> (r: Outcome<Self>)
        ensures
            outcome(r) == completed(
                args.deep_view(),
                Choices {
                    target: target@,
                    scan_mode,
                    port_limit,
                    scan_timeout: scan_timeout.deep_view(),
                    exploit_timeout: exploit_timeout.deep_view(),
                    nse_script: nse_script.deep_view(),
                },
                env.deep_view(),
            ),
    {
        let base = match Self::from_env(env) {
            Ok(base) => base,
            Err(e) => {
                return Err(e);
            },
        };
        let threads: usize = match Self::parse_thread_arg(args, base.threads) {
            Ok(threads) => threads,
            Err(e) => {
                return Err(e);
            },
        };
        let default_ms: u64 = base.shutdown_timeout.as_millis_u64();
        let shutdown_timeout = match Self::parse_timeout_arg(
            args,
            "--shutdown-timeout",
            default_ms,
        ) {
            Ok(timeout) => timeout,
            Err(e) => {
                return Err(e);
            },
        };
        Ok(
            Config {
                target,
                json_mode: arguments::has(args, "--json"),
                scan_mode,
                port_limit,
                scan_timeout,
                exploit_timeout,
                threads,
                shutdown_timeout,
                enable_rate_limiting: !arguments::has(args, "--no-rate-limit")
                    && base.enable_rate_limiting,
                scanner_rate_limit: base.scanner_rate_limit,
                external_tools_rate_limit: base.external_tools_rate_limit,
                exploit_queries_rate_limit: base.exploit_queries_rate_limit,
                nse_script,
            },
        )
    }

    /// The scan mode, or nothing where the user has to be asked first.
    fn choose_scan_mode(
        args: &[String],
        terminal: bool,
        answer: Option<Outcome<ScanMode>>,
    ) -> (r: Option<Outcome<ScanMode>>)
        ensures
            answered(r) == scan_mode_step(args.deep_view(), terminal, answered(answer)),
    {
        if arguments::has(args, "--udp") {
            Some(Ok(ScanMode::Udp))
        } else if arguments::has(args, "--both") {
            Some(Ok(ScanMode::Both))
        } else if args.len() <= 2 && terminal && !arguments::has(args, "--json") {
            answer
        } else {
            Some(Ok(ScanMode::Tcp))
        }
    }

    /// The port count, or nothing where the user has to be asked first.
    fn choose_port_limit(
        args: &[String],
        terminal: bool,
        answer: Option<Outcome<u16>>,
    ) -> (r: Option<Outcome<u16>>)
        ensures
            answered(r) == port_limit_step(args.deep_view(), terminal, answered(answer)),
    {
        if arguments::find_k_flag(args).is_some() {
            return Some(Self::parse_port_limit_flag(args));
        }
        match Self::parse_numeric_port_flag(args) {
            Err(e) => Some(Err(e)),
            Ok(Some(n)) => Some(Ok(n)),
            Ok(None) => if terminal && !arguments::has(args, "--json") {
                answer
            } else {
                Some(Ok(constants::ports::DEFAULT_LIMIT))
            },
        }
    }

    /// The scripts to run, or nothing where the user has to be asked first.
    fn choose_nse_script(
        args: &[String],
        terminal: bool,
        answer: Option<Outcome<Option<String>>>,
    ) -> (r: Option<Outcome<Option<String>>>)
        ensures
            answered(r) == nse_script_step(args.deep_view(), terminal, answered(answer)),
    {
        match Self::parse_string_arg(args, "--script") {
            Some(script) => Some(Ok(Some(script))),
            None => if args.len() <= 2 && terminal && !arguments::has(args, "--json") {
                answer
            } else {
                Some(Ok(None))
            },
        }
    }

    /// Reads the command line as far as the answers reach. Where a question is
    /// open, it is returned; it is to be asked, its answer added, and the
    /// command line read again.
    pub fn from_args_at_terminal(
        args: &[String],
        terminal: bool,
        answers: Answers,
        env: &EnvVars,
    ) -> (r: ConfigStep)
        ensures
            r.deep_view() == config_step(
                args.deep_view(),
                terminal,
                answers.deep_view(),
                env.deep_view(),
            ),
    {
        if args.len() < 2 {
            return ConfigStep::Done(Err(OxideScannerError::config("Target argument required")));
        }
        let target = match validate_target(args[1].as_str()) {
            Ok(target) => target,
            Err(e) => {
                return ConfigStep::Done(Err(e));
            },
        };
        let scan_mode = match Self::choose_scan_mode(args, terminal, answers.scan_mode) {
            Some(Ok(mode)) => mode,
            Some(Err(e)) => {
                return ConfigStep::Done(Err(e));
            },
            None => {
                return ConfigStep::Ask(Prompt::ScanMode);
            },
        };
        let port_limit: u16 = match Self::choose_port_limit(args, terminal, answers.port_limit) {
            Some(Ok(limit)) => limit,
            Some(Err(e)) => {
                return ConfigStep::Done(Err(e));
            },
            None => {
                return ConfigStep::Ask(Prompt::PortLimit);
            },
        };
        let scan_timeout = match Self::parse_timeout_arg(
            args,
            "--scan-timeout",
            constants::DEFAULT_SCAN_TIMEOUT_MS,
        ) {
            Ok(timeout) => timeout,
            Err(e) => {
                return ConfigStep::Done(Err(e));
            },
        };
        let exploit_timeout = match Self::parse_timeout_arg(
            args,
            "--exploit-timeout",
            constants::DEFAULT_EXPLOIT_TIMEOUT_SECS * 1000,
        ) {
            Ok(timeout) => timeout,
            Err(e) => {
                return ConfigStep::Done(Err(e));
            },
        };
        let nse_script = match Self::choose_nse_script(args, terminal, answers.nse_script) {
            Some(Ok(script)) => script,
            Some(Err(e)) => {
                return ConfigStep::Done(Err(e));
            },
            None => {
                return ConfigStep::Ask(Prompt::NseScript);
            },
        };
        ConfigStep::Done(
            Self::complete(
                args,
                target,
                scan_mode,
                port_limit,
                scan_timeout,
                exploit_timeout,
                nse_script,
                env,
            ),
        )
    }

    /// Reads the command line where there is no terminal to ask at.
    pub fn from_args(args: &[String], env: &EnvVars) -> (r: Outcome<Self>)
        ensures
            config_step(args.deep_view(), false, no_answers(), env.deep_view())
                == ConfigStepView::Done(outcome(r)),
    {
        let answers = Answers { scan_mode: None, port_limit: None, nse_script: None };
        match Self::from_args_at_terminal(args, false, answers, env) {
            ConfigStep::Done(r) => r,
            ConfigStep::Ask(_) => vstd::pervasive::unreached(),
        }
    }
}

} // verus!
