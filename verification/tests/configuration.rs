use oxidescanner::arguments;
use oxidescanner::config::{Config, EnvVars, ScanMode};
use oxidescanner::duration::Duration;
use oxidescanner::error::OxideScannerError;
use oxidescanner::prompts;
use oxidescanner::prompts::{PortLimitChoice, PortLimitStep, ScriptChoice, ScriptStep};
use oxidescanner::rate_limit::RateLimitPolicy;
use oxidescanner::report::{scan_announcement, Style};
use oxidescanner::setup::{Answers, ConfigStep, Prompt};
use oxidescanner::usage;

fn no_env() -> EnvVars {
    EnvVars {
        threads: None,
        shutdown_timeout: None,
        enable_rate_limit: None,
        scanner_rate_limit: None,
        external_tools_rate_limit: None,
        exploit_queries_rate_limit: None,
    }
}

fn no_answers() -> Answers {
    Answers { scan_mode: None, port_limit: None, nse_script: None }
}

fn words(list: &[&str]) -> Vec<String> {
    list.iter().map(|s| s.to_string()).collect()
}

fn configured(list: &[&str]) -> Config {
    Config::from_args(&words(list), &no_env()).unwrap()
}

fn refused(list: &[&str]) -> String {
    Config::from_args(&words(list), &no_env()).unwrap_err().describe()
}

#[test]
fn test_config_from_args_basic() {
    let args = vec![
        "oxidescanner".to_string(),
        "127.0.0.1".to_string(),
        "-5k".to_string(),
        "--json".to_string(),
    ];

    let config = Config::from_args(&args, &no_env()).unwrap();
    assert_eq!(config.target, "127.0.0.1");
    assert!(config.json_mode);
    assert_eq!(config.port_limit, 5000);
}

#[test]
fn test_config_from_args_with_timeouts() {
    let args = vec![
        "oxidescanner".to_string(),
        "example.com".to_string(),
        "-5k".to_string(),
        "--scan-timeout".to_string(),
        "50".to_string(),
        "--exploit-timeout".to_string(),
        "15000".to_string(),
    ];

    let config = Config::from_args(&args, &no_env()).unwrap();
    assert_eq!(config.target, "example.com");
    assert_eq!(config.scan_timeout.as_millis(), 50);
    assert_eq!(config.exploit_timeout.as_millis(), 15000);
}

#[test]
fn test_config_invalid_target() {
    let args = vec!["oxidescanner".to_string(), String::new()];

    let result = Config::from_args(&args, &no_env());
    assert!(result.is_err());
}

#[test]
fn test_print_usage_doesnt_panic() {
    let lines = usage::usage();
    assert_eq!(lines.len(), 27);
    assert_eq!(lines[0][0].style, Style::BoldRed);
    assert!(lines[0][0].text.starts_with("usage: oxscan <target>"));
    assert_eq!(lines[1][0].text, "Port Options:");
    assert_eq!(
        lines[26][0].text,
        "  oxscan scanme.nmap.org --script vuln  # Run NSE vulnerability scripts"
    );
}

#[test]
fn test_print_scan_start() {
    let config = Config::from_args(
        &["oxscan".to_string(), "127.0.0.1".to_string(), "-5k".to_string()],
        &no_env(),
    )
    .unwrap();

    let line = scan_announcement(&config.target, config.port_limit, "");
    assert_eq!(line.len(), 3);
    assert_eq!(line[0].text, "  ");
    assert_eq!(line[1].text, "127.0.0.1");
    assert_eq!(line[1].style, Style::BoldBrightCyan);
    assert_eq!(line[2].text, "  scanning top 5000 ports");
}

#[test]
fn usage_is_shown_without_a_target() {
    assert!(usage::wants_usage(&words(&["oxscan"])));
    assert!(usage::wants_usage(&words(&["oxscan", "--help"])));
    assert!(usage::wants_usage(&words(&["oxscan", "-h"])));
    assert!(!usage::wants_usage(&words(&["oxscan", "host", "--help"])));
}

#[test]
fn errors_are_marked() {
    let e = OxideScannerError::config("no");
    let line = usage::config_error(&e);
    assert_eq!(line[0].text, "ERROR");
    assert_eq!(line[0].style, Style::BoldRed);
    assert_eq!(line[1].text, " Configuration error: no");
    let line = usage::run_error(&e);
    assert_eq!(line[0].text, "✗");
}

#[test]
fn defaults_of_a_plain_scan() {
    let config = configured(&["oxscan", "example.com"]);
    assert!(!config.json_mode);
    assert_eq!(config.scan_mode, ScanMode::Tcp);
    assert_eq!(config.port_limit, 1000);
    assert_eq!(config.scan_timeout, Duration::from_millis(1000));
    assert_eq!(config.exploit_timeout, Duration::from_secs(10));
    assert_eq!(config.threads, 200);
    assert_eq!(config.shutdown_timeout, Duration::from_secs(30));
    assert!(config.enable_rate_limiting);
    assert_eq!(config.scanner_rate_limit.max_operations, 50);
    assert_eq!(config.external_tools_rate_limit.max_operations, 5);
    assert_eq!(config.exploit_queries_rate_limit.max_operations, 2);
    assert_eq!(config.scanner_rate_limit.period, Duration::from_secs(1));
    assert!(config.scanner_rate_limit.burst_capacity.is_none());
    assert!(config.nse_script.is_none());
}

#[test]
fn port_options() {
    assert_eq!(configured(&["oxscan", "h", "-1k"]).port_limit, 1000);
    assert_eq!(configured(&["oxscan", "h", "-30k"]).port_limit, 30000);
    assert_eq!(configured(&["oxscan", "h", "-500"]).port_limit, 500);
    assert_eq!(configured(&["oxscan", "h", "-65535"]).port_limit, 65535);
    assert_eq!(configured(&["oxscan", "h", "--ports", "1000"]).port_limit, 1000);
    assert_eq!(configured(&["oxscan", "h", "-7", "--ports", "9"]).port_limit, 9);
    assert_eq!(configured(&["oxscan", "h", "-7", "-2k"]).port_limit, 2000);
    assert_eq!(configured(&["oxscan", "h", "-0"]).port_limit, 1000);
    assert_eq!(configured(&["oxscan", "h", "-65536"]).port_limit, 1000);
}

#[test]
fn port_options_that_are_refused() {
    assert_eq!(
        refused(&["oxscan", "h", "-31k"]),
        "Configuration error: Port limit must be between 1k and 30k"
    );
    assert_eq!(
        refused(&["oxscan", "h", "-0k"]),
        "Configuration error: Port limit must be between 1k and 30k"
    );
    assert_eq!(
        refused(&["oxscan", "h", "-k"]),
        "Configuration error: Invalid port limit format: -k"
    );
    assert_eq!(
        refused(&["oxscan", "h", "--ports"]),
        "Configuration error: Missing port count value for --ports flag"
    );
    assert_eq!(
        refused(&["oxscan", "h", "--ports", "many"]),
        "Configuration error: Invalid port count: many"
    );
    assert_eq!(
        refused(&["oxscan", "h", "--ports", "0"]),
        "Configuration error: Port count must be at least 1"
    );
}

#[test]
fn other_options() {
    let config = configured(&[
        "oxscan",
        "h",
        "--both",
        "--threads",
        "0",
        "--script",
        " vuln ",
        "--shutdown-timeout",
        "1500",
        "--no-rate-limit",
    ]);
    assert_eq!(config.scan_mode, ScanMode::Both);
    assert_eq!(config.threads, 200);
    assert_eq!(config.nse_script, Some("vuln".to_string()));
    assert_eq!(config.shutdown_timeout.as_millis(), 1500);
    assert!(!config.enable_rate_limiting);
    assert_eq!(configured(&["oxscan", "h", "--udp", "--both"]).scan_mode, ScanMode::Udp);
    assert_eq!(configured(&["oxscan", "h", "--threads", "7"]).threads, 7);
    assert!(configured(&["oxscan", "h", "--script", "--json"]).nse_script.is_none());
    assert!(configured(&["oxscan", "h", "--script"]).nse_script.is_none());
}

#[test]
fn other_options_that_are_refused() {
    assert_eq!(refused(&["oxscan"]), "Configuration error: Target argument required");
    assert_eq!(
        refused(&["oxscan", "h", "--scan-timeout"]),
        "Configuration error: Missing timeout value for --scan-timeout"
    );
    assert_eq!(
        refused(&["oxscan", "h", "--exploit-timeout", "-3"]),
        "Configuration error: Invalid timeout value for --exploit-timeout: -3"
    );
    assert_eq!(
        refused(&["oxscan", "h", "--threads"]),
        "Configuration error: Missing connection count value"
    );
    assert_eq!(
        refused(&["oxscan", "h", "--threads", "x"]),
        "Configuration error: Invalid connection count: x"
    );
    assert_eq!(refused(&["oxscan", ""]), "Validation error: Target cannot be empty");
    let long = "a".repeat(254);
    assert_eq!(refused(&["oxscan", &long]), "Validation error: Target is too long");
    let most = "a".repeat(253);
    assert_eq!(configured(&["oxscan", &most]).target, most);
}

#[test]
fn the_environment() {
    let mut env = no_env();
    env.threads = Some("8".to_string());
    env.shutdown_timeout = Some("5".to_string());
    env.enable_rate_limit = Some("false".to_string());
    env.scanner_rate_limit = Some("7".to_string());
    let config = Config::from_args(&words(&["oxscan", "h"]), &env).unwrap();
    assert_eq!(config.threads, 8);
    assert_eq!(config.shutdown_timeout.as_secs(), 5);
    assert!(!config.enable_rate_limiting);
    assert_eq!(config.scanner_rate_limit.max_operations, 7);

    let base = Config::from_env(&env).unwrap();
    assert_eq!(base.target, "");
    assert_eq!(base.threads, 8);

    env.threads = Some("many".to_string());
    let e = Config::from_env(&env).unwrap_err();
    assert_eq!(e.describe(), "Configuration error: Invalid OXIDE_THREADS value");
    let mut env = no_env();
    env.shutdown_timeout = Some("-1".to_string());
    let e = Config::from_env(&env).unwrap_err();
    assert_eq!(e.describe(), "Configuration error: Invalid OXIDE_SHUTDOWN_TIMEOUT value");
    let mut env = no_env();
    env.enable_rate_limit = Some("yes".to_string());
    let e = Config::from_env(&env).unwrap_err();
    assert_eq!(e.describe(), "Configuration error: Invalid OXIDE_ENABLE_RATE_LIMIT value");
    let mut env = no_env();
    env.scanner_rate_limit = Some("4294967296".to_string());
    let e = Config::from_env(&env).unwrap_err();
    assert_eq!(e.describe(), "Configuration error: Invalid OXIDE_SCANNER_RATE_LIMIT value");
    let mut env = no_env();
    env.external_tools_rate_limit = Some(String::new());
    let e = Config::from_env(&env).unwrap_err();
    assert_eq!(e.describe(), "Configuration error: Invalid OXIDE_EXTERNAL_TOOLS_RATE_LIMIT value");
    let mut env = no_env();
    env.exploit_queries_rate_limit = Some("+".to_string());
    let e = Config::from_env(&env).unwrap_err();
    assert_eq!(
        e.describe(),
        "Configuration error: Invalid OXIDE_EXPLOIT_QUERIES_RATE_LIMIT value"
    );
}

#[test]
fn the_dialogue_at_a_terminal() {
    let args = words(&["oxscan", "h"]);
    let step = Config::from_args_at_terminal(&args, true, no_answers(), &no_env());
    assert!(matches!(step, ConfigStep::Ask(Prompt::ScanMode)));
    let answers = Answers { scan_mode: Some(Ok(ScanMode::Both)), port_limit: None, nse_script: None };
    let step = Config::from_args_at_terminal(&args, true, answers, &no_env());
    assert!(matches!(step, ConfigStep::Ask(Prompt::PortLimit)));
    let answers = Answers {
        scan_mode: Some(Ok(ScanMode::Both)),
        port_limit: Some(Ok(42)),
        nse_script: None,
    };
    let step = Config::from_args_at_terminal(&args, true, answers, &no_env());
    assert!(matches!(step, ConfigStep::Ask(Prompt::NseScript)));
    let answers = Answers {
        scan_mode: Some(Ok(ScanMode::Both)),
        port_limit: Some(Ok(42)),
        nse_script: Some(Ok(Some("safe".to_string()))),
    };
    match Config::from_args_at_terminal(&args, true, answers, &no_env()) {
        ConfigStep::Done(Ok(config)) => {
            assert_eq!(config.scan_mode, ScanMode::Both);
            assert_eq!(config.port_limit, 42);
            assert_eq!(config.nse_script, Some("safe".to_string()));
        }
        _ => unreachable!(),
    }
}

#[test]
fn the_dialogue_is_left_out_with_json_and_cut_short_by_options() {
    let args = words(&["oxscan", "h", "--json"]);
    let step = Config::from_args_at_terminal(&args, true, no_answers(), &no_env());
    assert!(matches!(step, ConfigStep::Done(Ok(_))));
    let args = words(&["oxscan", "h", "--udp"]);
    let step = Config::from_args_at_terminal(&args, true, no_answers(), &no_env());
    assert!(matches!(step, ConfigStep::Ask(Prompt::PortLimit)));
    let args = words(&["oxscan", "h", "-9"]);
    let step = Config::from_args_at_terminal(&args, true, no_answers(), &no_env());
    assert!(matches!(step, ConfigStep::Done(Ok(_))));
}

#[test]
fn a_failed_prompt_ends_the_dialogue() {
    let args = words(&["oxscan", "h"]);
    let answers = Answers {
        scan_mode: Some(prompts::scan_mode_answer(Err("gone".to_string()))),
        port_limit: None,
        nse_script: None,
    };
    match Config::from_args_at_terminal(&args, true, answers, &no_env()) {
        ConfigStep::Done(Err(e)) => {
            assert_eq!(e.describe(), "Configuration error: Scan mode prompt failed: gone");
        }
        _ => unreachable!(),
    }
}

#[test]
fn scan_mode_prompt() {
    let options = prompts::scan_mode_options();
    let modes: Vec<ScanMode> = options
        .iter()
        .map(|o| prompts::scan_mode_answer(Ok(o.to_string())).unwrap())
        .collect();
    assert_eq!(modes, vec![ScanMode::Tcp, ScanMode::Udp, ScanMode::Both]);
    let labels: Vec<&str> = modes.iter().map(|m| m.label()).collect();
    assert_eq!(labels, options);
}

#[test]
fn port_limit_prompt() {
    let choices: Vec<PortLimitChoice> = prompts::port_limit_options()
        .iter()
        .map(|o| prompts::port_limit_answer(Ok(o.to_string())).unwrap())
        .collect();
    assert_eq!(
        choices,
        vec![
            PortLimitChoice::Limit(1000),
            PortLimitChoice::Limit(5000),
            PortLimitChoice::Limit(10000),
            PortLimitChoice::Limit(65535),
            PortLimitChoice::Entry,
        ]
    );
    let e = prompts::port_limit_answer(Err("x".to_string())).unwrap_err();
    assert_eq!(e.describe(), "Configuration error: Port prompt failed: x");
}

#[test]
fn entered_port_counts() {
    let entered = |s: &str| prompts::port_count_answer(Ok(s.to_string()));
    assert_eq!(entered(" ALL \n").unwrap(), 65535);
    assert_eq!(entered("2300").unwrap(), 2300);
    assert_eq!(entered("1-2300").unwrap(), 2300);
    assert_eq!(entered("0-10").unwrap(), 10);
    assert_eq!(
        entered("0").unwrap_err().describe(),
        "Validation error: Port limit must be at least 1"
    );
    assert_eq!(
        entered("1-X").unwrap_err().describe(),
        "Configuration error: Invalid port range: 1-x. Use a number like 2300"
    );
    assert_eq!(
        entered("2-5").unwrap_err().describe(),
        "Configuration error: Invalid port number: 2-5. Use e.g. 2300 or 1-2300"
    );
    assert_eq!(
        entered("ΑΣ").unwrap_err().describe(),
        "Configuration error: Invalid port number: ας. Use e.g. 2300 or 1-2300"
    );
    let e = prompts::port_count_answer(Err("x".to_string())).unwrap_err();
    assert_eq!(e.describe(), "Configuration error: Port input failed: x");
}

#[test]
fn script_prompt() {
    let names: Vec<String> = prompts::script_options()
        .iter()
        .map(|o| match prompts::script_answer(Ok(o.to_string())).unwrap() {
            ScriptChoice::Category(c) => c,
            ScriptChoice::Entry => String::new(),
        })
        .collect();
    assert_eq!(names.len(), 16);
    assert_eq!(names[0], "vuln");
    assert_eq!(names[2], "default");
    assert_eq!(names[14], "version");
    assert_eq!(names[15], "");
    assert_eq!(names.iter().filter(|n| n.is_empty()).count(), 1);
    assert!(matches!(
        prompts::script_answer(Ok("Custom      Type your own".to_string())),
        Ok(ScriptChoice::Entry)
    ));
    assert!(matches!(
        prompts::script_answer(Ok("  ".to_string())),
        Ok(ScriptChoice::Category(c)) if c == "vuln"
    ));
    assert!(prompts::script_confirmation(Ok(true)).unwrap());
    assert_eq!(
        prompts::script_confirmation(Err("x".to_string())).unwrap_err().describe(),
        "Configuration error: NSE prompt failed: x"
    );
    assert_eq!(prompts::script_entry_answer(Ok("http-*".to_string())).unwrap(), "http-*");
}

#[test]
fn the_dialogue_about_port_counts() {
    let reply = |s: &str| Some(Ok(s.to_string()));
    assert!(matches!(prompts::prompt_port_limit(None, None), PortLimitStep::Select));
    assert!(matches!(
        prompts::prompt_port_limit(reply("5000"), None),
        PortLimitStep::Done(Ok(5000))
    ));
    assert!(matches!(prompts::prompt_port_limit(reply("Custom"), None), PortLimitStep::Enter));
    assert!(matches!(
        prompts::prompt_port_limit(reply("Custom"), reply(" 1-77")),
        PortLimitStep::Done(Ok(77))
    ));
    assert!(matches!(
        prompts::prompt_port_limit(reply("Custom"), reply("All")),
        PortLimitStep::Done(Ok(65535))
    ));
    match prompts::prompt_port_limit(reply("Custom"), Some(Err("e".to_string()))) {
        PortLimitStep::Done(Err(e)) => {
            assert_eq!(e.describe(), "Configuration error: Port input failed: e");
        }
        _ => unreachable!(),
    }
    match prompts::prompt_port_limit(Some(Err("e".to_string())), None) {
        PortLimitStep::Done(Err(e)) => {
            assert_eq!(e.describe(), "Configuration error: Port prompt failed: e");
        }
        _ => unreachable!(),
    }
}

#[test]
fn the_dialogue_about_scripts() {
    let reply = |s: &str| Some(Ok(s.to_string()));
    let own = prompts::script_options()[15];
    assert_eq!(own, "Custom      Type your own");
    assert!(matches!(prompts::prompt_nse_script(None, None, None), ScriptStep::Confirm));
    assert!(matches!(
        prompts::prompt_nse_script(Some(Ok(false)), None, None),
        ScriptStep::Done(Ok(None))
    ));
    assert!(matches!(
        prompts::prompt_nse_script(Some(Ok(true)), None, None),
        ScriptStep::Select
    ));
    assert!(matches!(
        prompts::prompt_nse_script(Some(Ok(true)), reply("safe   Not"), None),
        ScriptStep::Done(Ok(Some(c))) if c == "safe"
    ));
    assert!(matches!(
        prompts::prompt_nse_script(Some(Ok(true)), reply(own), None),
        ScriptStep::Enter
    ));
    assert!(matches!(
        prompts::prompt_nse_script(Some(Ok(true)), reply(own), reply("http-*")),
        ScriptStep::Done(Ok(Some(c))) if c == "http-*"
    ));
    for step in vec![
        prompts::prompt_nse_script(Some(Err("e".to_string())), None, None),
        prompts::prompt_nse_script(Some(Ok(true)), Some(Err("e".to_string())), None),
        prompts::prompt_nse_script(Some(Ok(true)), reply(own), Some(Err("e".to_string()))),
    ] {
        match step {
            ScriptStep::Done(Err(e)) => {
                assert_eq!(e.describe(), "Configuration error: NSE prompt failed: e");
            }
            _ => unreachable!(),
        }
    }
}

#[test]
fn flags_and_their_values() {
    let args = words(&["a", "--x", "1", "--x", "2", "-5", "-k"]);
    assert!(arguments::has(&args, "--x"));
    assert!(!arguments::has(&args, "--y"));
    assert_eq!(arguments::find_value(&args, "--x"), Some(Some(&"1".to_string())));
    assert_eq!(arguments::find_value(&args, "-k"), Some(None));
    assert_eq!(arguments::find_value(&args, "--y"), None);
    assert_eq!(arguments::find_word(&args, "--x"), Some("1".to_string()));
    assert_eq!(arguments::find_word(&words(&["--x", "-y", "--x", " z "]), "--x"), Some("z".to_string()));
    assert_eq!(arguments::find_dashed_number(&args), Some(5));
    assert_eq!(arguments::find_k_flag(&args), Some(&"-k".to_string()));
    assert_eq!(arguments::read_thousands("-12k"), Some(12));
    assert_eq!(arguments::read_thousands("-k"), None);
}

#[test]
fn rate_limits_and_quotas() {
    let second = Duration::from_secs(1);
    let quota = RateLimitPolicy::new(5, second).to_quota().unwrap();
    assert_eq!(quota.burst_size().get(), 5);
    assert_eq!(quota.replenish_interval(), std::time::Duration::from_secs(1));
    let quota = RateLimitPolicy::with_burst(5, Duration::from_millis(20), 9).to_quota().unwrap();
    assert_eq!(quota.burst_size().get(), 9);
    assert_eq!(quota.replenish_interval(), std::time::Duration::from_millis(20));
    let e = RateLimitPolicy::new(0, second).to_quota().unwrap_err();
    assert_eq!(
        e.describe(),
        "Configuration error: Rate limit max_operations must be greater than 0"
    );
    let e = RateLimitPolicy::with_burst(1, second, 0).to_quota().unwrap_err();
    assert_eq!(
        e.describe(),
        "Configuration error: Rate limit burst_capacity must be greater than 0"
    );
}

#[test]
fn spans_of_time() {
    let d = Duration::from_millis(12345);
    assert_eq!(d.as_secs(), 12);
    assert_eq!(d.subsec_nanos(), 345_000_000);
    assert_eq!(d.as_millis(), 12345);
    assert_eq!(Duration::from_secs(u64::MAX).as_millis(), u64::MAX as u128 * 1000);
    assert_eq!(
        Duration::from_secs(u64::MAX).as_millis_u64(),
        std::time::Duration::from_secs(u64::MAX).as_millis() as u64
    );
}
