//! The configuration of a run.

use crate::arguments;
use crate::constants;
use crate::decimal;
use crate::duration::Duration;
use crate::error::{outcome, ErrorView, Outcome, OxideScannerError};
use crate::rate_limit::{RateLimitPolicy, RateLimitView};
use crate::text::{self, cat};
use vstd::prelude::*;

verus! {

/// Which protocols are scanned.
#[derive(Debug, Clone, Copy, PartialEq, Eq, Structural)]
pub enum ScanMode {
    Tcp,
    Udp,
    Both,
}

impl DeepView for ScanMode {
    type V = ScanMode;

    open spec fn deep_view(&self) -> ScanMode {
        *self
    }
}

impl ScanMode {
    /// The name of the mode.
    pub open spec fn name(self) -> Seq<char> {
        match self {
            ScanMode::Tcp => "TCP"@,
            ScanMode::Udp => "UDP"@,
            ScanMode::Both => "TCP + UDP"@,
        }
    }

    pub fn label(&self) -> (r: &str)
        ensures
            r@ == self.name(),
    {
        match self {
            ScanMode::Tcp => "TCP",
            ScanMode::Udp => "UDP",
            ScanMode::Both => "TCP + UDP",
        }
    }
}

/// The settings of a run.
#[derive(Debug, Clone)]
pub struct Config {
    pub target: String,
    pub json_mode: bool,
    pub scan_mode: ScanMode,
    pub port_limit: u16,
    pub scan_timeout: Duration,
    pub exploit_timeout: Duration,
    pub threads: usize,
    pub shutdown_timeout: Duration,
    pub enable_rate_limiting: bool,
    pub scanner_rate_limit: RateLimitPolicy,
    pub external_tools_rate_limit: RateLimitPolicy,
    pub exploit_queries_rate_limit: RateLimitPolicy,
    pub nse_script: Option<String>,
}

/// The settings of a run, with texts by their characters and spans of time in
/// nanoseconds.
#[verifier::ext_equal]
pub struct ConfigView {
    pub target: Seq<char>,
    pub json_mode: bool,
    pub scan_mode: ScanMode,
    pub port_limit: u16,
    pub scan_timeout: nat,
    pub exploit_timeout: nat,
    pub threads: usize,
    pub shutdown_timeout: nat,
    pub enable_rate_limiting: bool,
    pub scanner_rate_limit: RateLimitView,
    pub external_tools_rate_limit: RateLimitView,
    pub exploit_queries_rate_limit: RateLimitView,
    pub nse_script: Option<Seq<char>>,
}

impl DeepView for Config {
    type V = ConfigView;

    open spec fn deep_view(&self) -> ConfigView {
        ConfigView {
            target: self.target@,
            json_mode: self.json_mode,
            scan_mode: self.scan_mode,
            port_limit: self.port_limit,
            scan_timeout: self.scan_timeout.deep_view(),
            exploit_timeout: self.exploit_timeout.deep_view(),
            threads: self.threads,
            shutdown_timeout: self.shutdown_timeout.deep_view(),
            enable_rate_limiting: self.enable_rate_limiting,
            scanner_rate_limit: self.scanner_rate_limit.deep_view(),
            external_tools_rate_limit: self.external_tools_rate_limit.deep_view(),
            exploit_queries_rate_limit: self.exploit_queries_rate_limit.deep_view(),
            nse_script: self.nse_script.deep_view(),
        }
    }
}

/// The environment variables that the configuration reads, where they are set:
/// `OXIDE_THREADS`, `OXIDE_SHUTDOWN_TIMEOUT` (in seconds),
/// `OXIDE_ENABLE_RATE_LIMIT`, and the operations per second of
/// `OXIDE_SCANNER_RATE_LIMIT`, `OXIDE_EXTERNAL_TOOLS_RATE_LIMIT` and
/// `OXIDE_EXPLOIT_QUERIES_RATE_LIMIT`.
#[derive(Debug, Clone)]
pub struct EnvVars {
    pub threads: Option<String>,
    pub shutdown_timeout: Option<String>,
    pub enable_rate_limit: Option<String>,
    pub scanner_rate_limit: Option<String>,
    pub external_tools_rate_limit: Option<String>,
    pub exploit_queries_rate_limit: Option<String>,
}

/// The environment variables by their characters.
#[verifier::ext_equal]
pub struct EnvView {
    pub threads: Option<Seq<char>>,
    pub shutdown_timeout: Option<Seq<char>>,
    pub enable_rate_limit: Option<Seq<char>>,
    pub scanner_rate_limit: Option<Seq<char>>,
    pub external_tools_rate_limit: Option<Seq<char>>,
    pub exploit_queries_rate_limit: Option<Seq<char>>,
}

impl DeepView for EnvVars {
    type V = EnvView;

    open spec fn deep_view(&self) -> EnvView {
        EnvView {
            threads: self.threads.deep_view(),
            shutdown_timeout: self.shutdown_timeout.deep_view(),
            enable_rate_limit: self.enable_rate_limit.deep_view(),
            scanner_rate_limit: self.scanner_rate_limit.deep_view(),
            external_tools_rate_limit: self.external_tools_rate_limit.deep_view(),
            exploit_queries_rate_limit: self.exploit_queries_rate_limit.deep_view(),
        }
    }
}

/// A number of at most `max` out of a variable, or the default where the
/// variable is not set.
pub open spec fn env_number(value: Option<Seq<char>>, default: nat, max: nat) -> Option<nat> {
    match value {
        Some(s) => decimal::unsigned_up_to(s, max),
        None => Some(default),
    }
}

/// A truth value out of a variable; true where the variable is not set.
pub open spec fn env_bool(value: Option<Seq<char>>) -> Option<bool> {
    match value {
        Some(s) => if s == "true"@ {
            Some(true)
        } else if s == "false"@ {
            Some(false)
        } else {
            None
        },
        None => Some(true),
    }
}

/// So many operations per second.
pub open spec fn per_second(n: nat) -> RateLimitView {
    RateLimitView { max_operations: n as u32, period: 1_000_000_000, burst_capacity: None }
}

impl EnvView {
    /// The configuration before any argument is read. The first variable that
    /// cannot be read is the error.
    pub open spec fn config(self) -> core::result::Result<ConfigView, ErrorView> {
        let threads = env_number(
            self.threads,
            constants::MAX_CONCURRENT_CONNS as nat,
            usize::MAX as nat,
        );
        let shutdown = env_number(self.shutdown_timeout, 30, u64::MAX as nat);
        let limiting = env_bool(self.enable_rate_limit);
        let scanner = env_number(self.scanner_rate_limit, 50, u32::MAX as nat);
        let tools = env_number(self.external_tools_rate_limit, 5, u32::MAX as nat);
        let queries = env_number(self.exploit_queries_rate_limit, 2, u32::MAX as nat);
        if threads is None {
            Err(ErrorView::Config("Invalid OXIDE_THREADS value"@))
        } else if shutdown is None {
            Err(ErrorView::Config("Invalid OXIDE_SHUTDOWN_TIMEOUT value"@))
        } else if limiting is None {
            Err(ErrorView::Config("Invalid OXIDE_ENABLE_RATE_LIMIT value"@))
        } else if scanner is None {
            Err(ErrorView::Config("Invalid OXIDE_SCANNER_RATE_LIMIT value"@))
        } else if tools is None {
            Err(ErrorView::Config("Invalid OXIDE_EXTERNAL_TOOLS_RATE_LIMIT value"@))
        } else if queries is None {
            Err(ErrorView::Config("Invalid OXIDE_EXPLOIT_QUERIES_RATE_LIMIT value"@))
        } else {
            Ok(
                ConfigView {
                    target: Seq::empty(),
                    json_mode: false,
                    scan_mode: ScanMode::Tcp,
                    port_limit: 1000,
                    scan_timeout: (constants::DEFAULT_SCAN_TIMEOUT_MS * 1_000_000) as nat,
                    exploit_timeout: (constants::DEFAULT_EXPLOIT_TIMEOUT_SECS
                        * 1_000_000_000) as nat,
                    threads: threads->0 as usize,
                    shutdown_timeout: shutdown->0 * 1_000_000_000,
                    enable_rate_limiting: limiting->0,
                    scanner_rate_limit: per_second(scanner->0),
                    external_tools_rate_limit: per_second(tools->0),
                    exploit_queries_rate_limit: per_second(queries->0),
                    nse_script: None,
                },
            )
        }
    }
}

/// A number of at most `max` out of a variable, or the default.
fn read_env_number(value: &Option<String>, default: u64, max: u64) -> (r: Option<u64>)
    requires
        default <= max,
    ensures
        match r {
            Some(n) => n <= max && env_number(value.deep_view(), default as nat, max as nat)
                == Some(n as nat),
            None => env_number(value.deep_view(), default as nat, max as nat) is None,
        },
{
    match value {
        Some(s) => decimal::read(s.as_str(), max),
        None => Some(default),
    }
}

/// A truth value out of a variable; true where the variable is not set.
fn read_env_bool(value: &Option<String>) -> (r: Option<bool>)
    ensures
        r == env_bool(value.deep_view()),
{
    match value {
        Some(s) => {
            if text::same(s.as_str(), "true") {
                Some(true)
            } else if text::same(s.as_str(), "false") {
                Some(false)
            } else {
                None
            }
        },
        None => Some(true),
    }
}

impl Config {
    /// The configuration before any argument is read.
    pub fn from_env(env: &EnvVars) -> (r: Outcome<Self>)
        ensures
            outcome(r) == env.deep_view().config(),
    {
        let threads: usize = match read_env_number(
            &env.threads,
            constants::MAX_CONCURRENT_CONNS as u64,
            usize::MAX as u64,
        ) {
            Some(n) => n as usize,
            None => {
                return Err(OxideScannerError::config("Invalid OXIDE_THREADS value"));
            },
        };
        let shutdown_timeout = match read_env_number(&env.shutdown_timeout, 30, u64::MAX) {
            Some(n) => Duration::from_secs(n),
            None => {
                return Err(OxideScannerError::config("Invalid OXIDE_SHUTDOWN_TIMEOUT value"));
            },
        };
        let enable_rate_limiting = match read_env_bool(&env.enable_rate_limit) {
            Some(b) => b,
            None => {
                return Err(OxideScannerError::config("Invalid OXIDE_ENABLE_RATE_LIMIT value"));
            },
        };
        let scanner_rate_limit = match read_env_number(
            &env.scanner_rate_limit,
            50,
            u32::MAX as u64,
        ) {
            Some(n) => RateLimitPolicy::new(n as u32, Duration::from_secs(1)),
            None => {
                return Err(OxideScannerError::config("Invalid OXIDE_SCANNER_RATE_LIMIT value"));
            },
        };
        let external_tools_rate_limit = match read_env_number(
            &env.external_tools_rate_limit,
            5,
            u32::MAX as u64,
        ) {
            Some(n) => RateLimitPolicy::new(n as u32, Duration::from_secs(1)),
            None => {
                return Err(
                    OxideScannerError::config("Invalid OXIDE_EXTERNAL_TOOLS_RATE_LIMIT value"),
                );
            },
        };
        let exploit_queries_rate_limit = match read_env_number(
            &env.exploit_queries_rate_limit,
            2,
            u32::MAX as u64,
        ) {
            Some(n) => RateLimitPolicy::new(n as u32, Duration::from_secs(1)),
            None => {
                return Err(
                    OxideScannerError::config("Invalid OXIDE_EXPLOIT_QUERIES_RATE_LIMIT value"),
                );
            },
        };
        Ok(
            Config {
                target: String::new(),
                json_mode: false,
                scan_mode: ScanMode::Tcp,
                port_limit: 1000,
                scan_timeout: Duration::from_millis(constants::DEFAULT_SCAN_TIMEOUT_MS),
                exploit_timeout: Duration::from_secs(constants::DEFAULT_EXPLOIT_TIMEOUT_SECS),
                threads,
                shutdown_timeout,
                enable_rate_limiting,
                scanner_rate_limit,
                external_tools_rate_limit,
                exploit_queries_rate_limit,
                nse_script: None,
            },
        )
    }
}

/// The span of time behind `flag`, given in milliseconds, in nanoseconds.
pub open spec fn timeout_arg(
    args: Seq<Seq<char>>,
    flag: Seq<char>,
    default_ms: u64,
) -> core::result::Result<nat, ErrorView> {
    match arguments::value_of(args, flag) {
        None => Ok((default_ms * 1_000_000) as nat),
        Some(None) => Err(ErrorView::Config("Missing timeout value for "@ + flag)),
        Some(Some(value)) => match decimal::unsigned_up_to(value, u64::MAX as nat) {
            Some(ms) => Ok(ms * 1_000_000),
            None => Err(
                ErrorView::Config("Invalid timeout value for "@ + flag + ": "@ + value),
            ),
        },
    }
}

/// The port count that `--ports N` or else a flag `-N` names.
pub open spec fn numeric_port_flag(args: Seq<Seq<char>>) -> core::result::Result<
    Option<u16>,
    ErrorView,
> {
    match arguments::value_of(args, "--ports"@) {
        None => Ok(arguments::first_dashed_number(args)),
        Some(None) => Err(ErrorView::Config("Missing port count value for --ports flag"@)),
        Some(Some(value)) => match decimal::unsigned_up_to(value, u16::MAX as nat) {
            None => Err(ErrorView::Config("Invalid port count: "@ + value)),
            Some(n) => if n < 1 {
                Err(ErrorView::Config("Port count must be at least 1"@))
            } else {
                Ok(Some(n as u16))
            },
        },
    }
}

/// The port count that the first flag of the form `-Nk` names; every port if
/// there is no such flag.
pub open spec fn port_limit_flag(args: Seq<Seq<char>>) -> core::result::Result<u16, ErrorView> {
    match arguments::first_k_flag(args) {
        None => Ok(constants::ports::MAX),
        Some(arg) => match arguments::thousands(arg) {
            None => Err(ErrorView::Config("Invalid port limit format: "@ + arg)),
            Some(n) => if 1 <= n <= constants::ports::MAX_K_VALUE {
                Ok((n * constants::ports::DEFAULT_LIMIT) as u16)
            } else {
                Err(
                    ErrorView::Config(
                        "Port limit must be between 1k and "@ + decimal::digits_of(
                            constants::ports::MAX_K_VALUE as nat,
                        ) + "k"@,
                    ),
                )
            },
        },
    }
}

/// The number of connections behind `--threads`; zero stands for the default
/// of the library.
pub open spec fn thread_arg(args: Seq<Seq<char>>, default: usize) -> core::result::Result<
    usize,
    ErrorView,
> {
    match arguments::value_of(args, "--threads"@) {
        None => Ok(default),
        Some(None) => Err(ErrorView::Config("Missing connection count value"@)),
        Some(Some(value)) => match decimal::unsigned_up_to(value, usize::MAX as nat) {
            None => Err(ErrorView::Config("Invalid connection count: "@ + value)),
            Some(n) => if n == 0 {
                Ok(constants::MAX_CONCURRENT_CONNS)
            } else {
                Ok(n as usize)
            },
        },
    }
}

/// Every flag `-Nk` with `N` from 1 to 30 asks for `N` thousand ports.
pub proof fn theorem_k_flag(n: u16)
    requires
        1 <= n <= constants::ports::MAX_K_VALUE,
    ensures
        port_limit_flag(seq![seq!['-'] + decimal::digits_of(n as nat) + seq!['k']]) == Ok::<
            u16,
            ErrorView,
        >((n * 1000) as u16),
{
    arguments::theorem_thousands(n);
}

/// A time in milliseconds behind a flag is read back.
pub proof fn theorem_timeout_option(
    before: Seq<Seq<char>>,
    flag: Seq<char>,
    ms: u64,
    behind: Seq<Seq<char>>,
    default_ms: u64,
)
    requires
        !before.contains(flag),
    ensures
        timeout_arg(
            before + seq![flag, decimal::digits_of(ms as nat)] + behind,
            flag,
            default_ms,
        ) == Ok::<nat, ErrorView>((ms * 1_000_000) as nat),
{
    arguments::theorem_value_of(before, flag, decimal::digits_of(ms as nat), behind);
    decimal::theorem_digits_read_back(ms as nat, u64::MAX as nat);
}

/// The option `--ports N` asks for `N` ports.
pub proof fn theorem_ports_option(before: Seq<Seq<char>>, n: u16, behind: Seq<Seq<char>>)
    requires
        !before.contains("--ports"@),
        n >= 1,
    ensures
        numeric_port_flag(before + seq!["--ports"@, decimal::digits_of(n as nat)] + behind) == Ok::<
            Option<u16>,
            ErrorView,
        >(Some(n)),
{
    arguments::theorem_value_of(before, "--ports"@, decimal::digits_of(n as nat), behind);
    decimal::theorem_digits_read_back(n as nat, u16::MAX as nat);
}

/// The option `--threads N` asks for `N` connections, and for as many as by
/// default if `N` is 0.
pub proof fn theorem_threads_option(
    before: Seq<Seq<char>>,
    n: usize,
    behind: Seq<Seq<char>>,
    default: usize,
)
    requires
        !before.contains("--threads"@),
    ensures
        thread_arg(before + seq!["--threads"@, decimal::digits_of(n as nat)] + behind, default)
            == Ok::<usize, ErrorView>(
            if n == 0 {
                constants::MAX_CONCURRENT_CONNS
            } else {
                n
            },
        ),
{
    arguments::theorem_value_of(before, "--threads"@, decimal::digits_of(n as nat), behind);
    decimal::theorem_digits_read_back(n as nat, usize::MAX as nat);
}

impl Config {
    pub fn parse_timeout_arg(args: &[String], flag: &str, default_ms: u64) -> (r: Outcome<Duration>)
        ensures
            outcome(r) == timeout_arg(args.deep_view(), flag@, default_ms),
    {
        match arguments::find_value(args, flag) {
            None => Ok(Duration::from_millis(default_ms)),
            Some(None) => Err(
                OxideScannerError::config(cat("Missing timeout value for ", flag).as_str()),
            ),
            Some(Some(value)) => match decimal::read(value.as_str(), u64::MAX) {
                Some(ms) => Ok(Duration::from_millis(ms)),
                None => {
                    let mut message = cat("Invalid timeout value for ", flag);
                    message.append(": ");
                    message.append(value.as_str());
                    Err(OxideScannerError::config(message.as_str()))
                },
            },
        }
    }

    pub fn parse_numeric_port_flag(args: &[String]) -> (r: Outcome<Option<u16>>)
        ensures
            outcome(r) == numeric_port_flag(args.deep_view()),
    {
        match arguments::find_value(args, "--ports") {
            None => Ok(arguments::find_dashed_number(args)),
            Some(None) => Err(
                OxideScannerError::config("Missing port count value for --ports flag"),
            ),
            Some(Some(value)) => match decimal::read(value.as_str(), u16::MAX as u64) {
                Some(n) => {
                    if n < 1 {
                        Err(OxideScannerError::config("Port count must be at least 1"))
                    } else {
                        Ok(Some(n as u16))
                    }
                },
                None => Err(
                    OxideScannerError::config(cat("Invalid port count: ", value.as_str()).as_str()),
                ),
            },
        }
    }

    pub fn parse_port_limit_flag(args: &[String]) -> (r: Outcome<u16>)
        ensures
            outcome(r) == port_limit_flag(args.deep_view()),
    {
        match arguments::find_k_flag(args) {
            None => Ok(constants::ports::MAX),
            Some(arg) => {
                proof {
                    arguments::lemma_first_k_flag(args.deep_view());
                }
                match arguments::read_thousands(arg.as_str()) {
                    Some(n) => {
                        if 1 <= n && n <= constants::ports::MAX_K_VALUE {
                            Ok(n * constants::ports::DEFAULT_LIMIT)
                        } else {
                            let max = decimal::write(constants::ports::MAX_K_VALUE as u64);
                            let mut message = cat(
                                "Port limit must be between 1k and ",
                                max.as_str(),
                            );
                            message.append("k");
                            Err(OxideScannerError::config(message.as_str()))
                        }
                    },
                    None => Err(
                        OxideScannerError::config(
                            cat("Invalid port limit format: ", arg.as_str()).as_str(),
                        ),
                    ),
                }
            },
        }
    }

    pub fn parse_string_arg(args: &[String], flag: &str) -> (r: Option<String>)
        ensures
            r.deep_view() == arguments::word_of(args.deep_view(), flag@),
    {
        arguments::find_word(args, flag)
    }

    pub fn parse_thread_arg(args: &[String], default: usize) -> (r: Outcome<usize>)
        ensures
            outcome(r) == thread_arg(args.deep_view(), default),
    {
        match arguments::find_value(args, "--threads") {
            None => Ok(default),
            Some(None) => Err(OxideScannerError::config("Missing connection count value")),
            Some(Some(value)) => match decimal::read(value.as_str(), usize::MAX as u64) {
                Some(n) => {
                    if n == 0 {
                        Ok(constants::MAX_CONCURRENT_CONNS)
                    } else {
                        Ok(n as usize)
                    }
                },
                None => Err(
                    OxideScannerError::config(
                        cat("Invalid connection count: ", value.as_str()).as_str(),
                    ),
                ),
            },
        }
    }
}

} // verus!
