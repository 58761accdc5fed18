use oxidescanner::config::{Config, EnvVars};
use oxidescanner::detection::{Detection, OsResult, ScriptRun};
use oxidescanner::duration::Duration;
use oxidescanner::error::OxideScannerError;
use oxidescanner::external::nmap::NmapService;
use oxidescanner::external::nmap_nse::NseResult;
use oxidescanner::report::Line;
use oxidescanner::run::{next_step, Action, Findings, OsFinding};
use oxidescanner::scanner::PortStatus;

fn shown(lines: &[Line]) -> Vec<String> {
    lines
        .iter()
        .map(|line| line.iter().map(|span| span.text.clone()).collect::<String>())
        .collect()
}

fn config(list: &[&str]) -> Config {
    let args: Vec<String> = list.iter().map(|s| s.to_string()).collect();
    let env = EnvVars {
        threads: None,
        shutdown_timeout: None,
        enable_rate_limit: None,
        scanner_rate_limit: None,
        external_tools_rate_limit: None,
        exploit_queries_rate_limit: None,
    };
    Config::from_args(&args, &env).unwrap()
}

fn nothing() -> Findings {
    Findings {
        tools: None,
        addresses: None,
        tcp_probes: None,
        udp_probes: None,
        tcp_detections: None,
        udp_detections: None,
        os: None,
        scripts: None,
        exploits: None,
        json: None,
    }
}

fn ready() -> Findings {
    let mut f = nothing();
    f.tools = Some((true, true));
    f.addresses = Some(Ok(()));
    f
}

fn found(port: u16, name: &str) -> (u16, Detection) {
    let service = NmapService {
        port,
        service: name.to_string(),
        product: String::new(),
        version: String::new(),
    };
    (port, Detection::Found(vec![service]))
}

#[test]
fn a_whole_run_over_both_protocols() {
    let config = config(&["oxscan", "host", "-2", "--both", "--script", "vuln"]);
    let mut f = nothing();

    let step = next_step(&config, &f);
    assert!(matches!(step.action, Action::CheckTools));
    f.tools = Some((true, true));

    match next_step(&config, &f).action {
        Action::ResolveTarget { name } => assert_eq!(name, "host:0"),
        _ => unreachable!(),
    }
    f.addresses = Some(Ok(()));

    let step = next_step(&config, &f);
    assert_eq!(shown(&step.lines), vec!["  host  scanning top 2 TCP ports"]);
    match step.action {
        Action::ScanTcp { ports } => assert_eq!(ports, vec![1, 2]),
        _ => unreachable!(),
    }
    f.tcp_probes = Some(vec![Some((2, PortStatus::Open)), Some((1, PortStatus::Closed))]);

    let step = next_step(&config, &f);
    assert_eq!(
        shown(&step.lines),
        vec![
            "",
            "  1 open tcp port  0 filtered ports  1 closed",
            "",
            "  open",
            "    2/tcp",
            "",
            "  host  scanning top 2 UDP ports",
        ]
    );
    match step.action {
        Action::ScanUdp { ports } => assert_eq!(ports, vec![1, 2]),
        _ => unreachable!(),
    }
    f.udp_probes = Some(vec![Some((1, PortStatus::Open)), Some((2, PortStatus::Filtered))]);

    let step = next_step(&config, &f);
    assert_eq!(shown(&step.lines)[1], "  1 open udp port  1 filtered port  0 closed");
    match step.action {
        Action::DetectServices { ports, is_udp, timeout } => {
            assert_eq!(ports, vec![2]);
            assert!(!is_udp);
            assert_eq!(timeout, Duration::from_secs(30));
        }
        _ => unreachable!(),
    }
    f.tcp_detections = Some(Ok(vec![found(2, "two"), (9, Detection::Panicked("p".to_string()))]));

    let step = next_step(&config, &f);
    assert!(step.lines.is_empty());
    assert_eq!(
        shown(&step.warnings),
        vec!["  WARNING Service detection task for port 9 panicked: p"]
    );
    match step.action {
        Action::DetectServices { ports, is_udp, .. } => {
            assert_eq!(ports, vec![1]);
            assert!(is_udp);
        }
        _ => unreachable!(),
    }
    f.udp_detections = Some(Ok(vec![found(1, "one")]));

    let step = next_step(&config, &f);
    assert!(step.warnings.is_empty());
    assert_eq!(shown(&step.lines), vec!["  svc", "    1/udp  one", "    2/tcp  two", ""]);
    match step.action {
        Action::DetectOs { services, timeout } => {
            assert_eq!(services.len(), 2);
            assert_eq!(services[0].port, 1);
            assert_eq!(timeout, Duration::from_secs(30));
        }
        _ => unreachable!(),
    }
    f.os = Some(OsFinding {
        os: Some(OsResult {
            name: "BeOS".to_string(),
            distro: String::new(),
            confidence_percent: 53,
            source: "nmap_os_detection".to_string(),
        }),
        shown_percent: 52,
    });

    let step = next_step(&config, &f);
    assert_eq!(shown(&step.lines), vec!["  os", "    BeOS  (52%)", ""]);
    match step.action {
        Action::RunScripts { script, ports, timeout } => {
            assert_eq!(script, "vuln");
            assert_eq!(ports, vec![2, 1]);
            assert_eq!(timeout, Duration::from_secs(60));
        }
        _ => unreachable!(),
    }
    f.scripts = Some(ScriptRun::Done(vec![NseResult {
        port: 2,
        script_id: "s".to_string(),
        output: "o".to_string(),
    }]));

    let step = next_step(&config, &f);
    assert_eq!(shown(&step.lines), vec!["  nse", "    2/tcp  s", "      o", ""]);
    assert!(matches!(step.action, Action::SearchExploits { .. }));
    f.exploits = Some(Ok(()));

    let step = next_step(&config, &f);
    assert!(step.lines.is_empty());
    match step.action {
        Action::ShowExploits { services } => assert_eq!(services.len(), 2),
        _ => unreachable!(),
    }
}

#[test]
fn a_json_run_shows_only_the_results() {
    let config = config(&["oxscan", "host", "-1", "--json", "--script", "vuln"]);
    let mut f = ready();
    let mut asked = 0;
    loop {
        let step = next_step(&config, &f);
        match step.action {
            Action::ScanTcp { .. } => {
                f.tcp_probes = Some(vec![Some((1, PortStatus::Open))]);
            }
            Action::DetectServices { .. } => f.tcp_detections = Some(Ok(vec![found(1, "one")])),
            Action::DetectOs { .. } => f.os = Some(OsFinding { os: None, shown_percent: 0 }),
            Action::RunScripts { .. } => {
                f.scripts = Some(ScriptRun::Failed(OxideScannerError::parse("p")));
            }
            Action::SearchExploits { .. } => {
                assert_eq!(
                    shown(&step.warnings),
                    vec!["WARNING NSE execution failed: Parsing error: p"]
                );
                f.exploits = Some(Ok(()));
            }
            Action::Serialize { services, os } => {
                assert_eq!(services[0].service, "one");
                assert!(os.is_none());
                f.json = Some(Ok("{}".to_string()));
            }
            Action::Stop => {
                assert_eq!(shown(&step.lines), vec!["{}"]);
                break;
            }
            _ => unreachable!(),
        }
        assert!(step.lines.is_empty());
        asked += 1;
    }
    assert_eq!(asked, 6);
}

#[test]
fn no_open_ports() {
    let tcp = config(&["oxscan", "host", "-1"]);
    let mut f = ready();
    assert_eq!(shown(&next_step(&tcp, &f).lines), vec!["  host  scanning top 1 ports"]);
    f.tcp_probes = Some(vec![Some((1, PortStatus::Filtered))]);
    let step = next_step(&tcp, &f);
    assert!(matches!(step.action, Action::Stop));
    assert_eq!(
        shown(&step.lines),
        vec![
            "",
            "  0 open tcp ports  1 filtered port  0 closed",
            "",
            "  filtered",
            "    1/tcp",
            "WARNING No open ports found",
        ]
    );
    let json = config(&["oxscan", "host", "-1", "--json"]);
    let step = next_step(&json, &f);
    assert!(matches!(step.action, Action::Stop));
    assert!(step.lines.is_empty());
}

#[test]
fn udp_alone() {
    let config = config(&["oxscan", "host", "-1", "--udp"]);
    let mut f = ready();
    let step = next_step(&config, &f);
    assert_eq!(shown(&step.lines), vec!["  host  scanning top 1 UDP ports"]);
    assert!(matches!(step.action, Action::ScanUdp { .. }));
    f.udp_probes = Some(vec![Some((1, PortStatus::Open))]);
    f.tcp_probes = Some(vec![Some((1, PortStatus::Open))]);
    match next_step(&config, &f).action {
        Action::DetectServices { is_udp, .. } => assert!(is_udp),
        _ => unreachable!(),
    }
    f.udp_detections =
        Some(Ok(vec![(1, Detection::Failed(OxideScannerError::validation("v")))]));
    let step = next_step(&config, &f);
    assert!(matches!(step.action, Action::Stop));
    assert_eq!(shown(&step.lines), vec!["WARNING No services detected"]);
    assert_eq!(
        shown(&step.warnings),
        vec!["  WARNING Service detection on port 1 failed: Validation error: v"]
    );
}

#[test]
fn runs_that_fail() {
    let failure = |f: &Findings| match next_step(&config(&["oxscan", "host", "-1", "--json"]), f).action
    {
        Action::Fail(e) => e.describe(),
        _ => unreachable!(),
    };
    let mut f = nothing();
    f.tools = Some((true, false));
    assert!(failure(&f).starts_with("External tool error: dependency_check failed with Missing"));
    let mut f = ready();
    f.addresses = Some(Err(OxideScannerError::target_resolution("t")));
    assert_eq!(failure(&f), "Target resolution failed: t");
    let mut f = ready();
    f.tcp_probes = Some(vec![Some((1, PortStatus::Open))]);
    f.tcp_detections = Some(Err(OxideScannerError::service_detection("d")));
    assert_eq!(failure(&f), "Service detection failed: d");
    f.tcp_detections = Some(Ok(vec![found(1, "one")]));
    f.os = Some(OsFinding { os: None, shown_percent: 0 });
    f.exploits = Some(Err(OxideScannerError::timeout(1)));
    assert_eq!(failure(&f), "Timeout error: operation timed out after 1ms");
    f.exploits = Some(Ok(()));
    f.json = Some(Err("j".to_string()));
    assert_eq!(failure(&f), "Parsing error: Failed to serialize JSON: j");
}

#[test]
fn a_target_that_is_refused() {
    let mut c = config(&["oxscan", "host"]);
    c.target = String::new();
    let mut f = nothing();
    f.tools = Some((true, true));
    match next_step(&c, &f).action {
        Action::Fail(e) => assert_eq!(e.describe(), "Validation error: Target cannot be empty"),
        _ => unreachable!(),
    }
}

#[test]
fn a_scan_of_no_ports_is_passed_over() {
    let mut c = config(&["oxscan", "host"]);
    c.port_limit = 0;
    let mut f = ready();
    match next_step(&c, &f).action {
        Action::ScanTcp { ports } => assert!(ports.is_empty()),
        _ => unreachable!(),
    }
    f.tcp_probes = Some(vec![]);
    let step = next_step(&c, &f);
    assert_eq!(shown(&step.lines), vec!["WARNING No open ports found"]);
}

#[test]
fn tcp_comes_first_on_a_port_with_both_protocols() {
    let config = config(&["oxscan", "host", "-2", "--both"]);
    let mut f = ready();
    f.tcp_probes = Some(vec![Some((2, PortStatus::Open))]);
    f.udp_probes = Some(vec![Some((2, PortStatus::Open)), Some((1, PortStatus::Open))]);
    f.tcp_detections = Some(Ok(vec![found(2, "b")]));
    f.udp_detections = Some(Ok(vec![found(2, "c"), found(1, "a")]));
    match next_step(&config, &f).action {
        Action::DetectOs { services, .. } => {
            let found: Vec<(u16, &str, &str)> = services
                .iter()
                .map(|p| (p.port, p.protocol.as_str(), p.service.as_str()))
                .collect();
            assert_eq!(found, vec![(1, "udp", "a"), (2, "tcp", "b"), (2, "udp", "c")]);
        }
        _ => unreachable!(),
    }
}
