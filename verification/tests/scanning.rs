use oxidescanner::detection::{
    detect_os, detect_services, infer_os_from_services, run_nse_scripts, warn_about_detections,
    Detection, OsResult, ScriptRun,
};
use oxidescanner::error::OxideScannerError;
use oxidescanner::external::nmap::NmapService;
use oxidescanner::external::CommandOutput;
use oxidescanner::external::nmap_nse::NseResult;
use oxidescanner::report;
use oxidescanner::report::{Line, Style};
use oxidescanner::scanner::{
    collect_results, port_numbers, tcp_probe_step, udp_probe_step, Port, PortStatus, ProbeStep,
    ScanResults, TcpAttempt, UdpAttempt,
};
use oxidescanner::sorting::sort_by_port;
use oxidescanner::utils;

fn shown(lines: &[Line]) -> Vec<String> {
    lines
        .iter()
        .map(|line| line.iter().map(|span| span.text.clone()).collect::<String>())
        .collect()
}

fn service(port: u16, name: &str) -> NmapService {
    NmapService {
        port,
        service: name.to_string(),
        product: String::new(),
        version: String::new(),
    }
}

fn banner(port: u16, service: &str, product: &str, version: &str) -> Port {
    Port::with_service(port, service.to_string(), product.to_string(), version.to_string())
}

#[test]
fn test_port_new() {
    let port = Port::new(80);
    assert_eq!(port.port, 80);
    assert!(port.service.is_empty());
    assert!(port.product.is_empty());
    assert!(port.version.is_empty());
}

#[test]
fn test_port_with_service() {
    let port = Port::with_service(
        80,
        "http".to_string(),
        "Apache".to_string(),
        "2.4.41".to_string(),
    );
    assert_eq!(port.port, 80);
    assert_eq!(port.service, "http");
    assert_eq!(port.product, "Apache");
    assert_eq!(port.version, "2.4.41");
    assert!(!port.service.is_empty() || !port.product.is_empty());
}

#[test]
fn test_progress_bar() {
    let bar = utils::progress_bar(50, 40);
    let filled_count = bar.chars().filter(|&c| c == '█').count();
    let empty_count = bar.chars().filter(|&c| c == '░').count();
    assert_eq!(filled_count, 20);
    assert_eq!(empty_count, 20);
    assert_eq!(filled_count + empty_count, 40);
}

#[test]
fn progress_bars_at_the_ends() {
    assert_eq!(utils::progress_bar(0, 3), "░░░");
    assert_eq!(utils::progress_bar(100, 3), "███");
    assert_eq!(utils::progress_bar(33, 3), "░░░");
    assert_eq!(utils::progress_bar(34, 3), "█░░");
    assert_eq!(utils::progress_bar(250, 2), "██");
    assert_eq!(utils::progress_bar(50, 0), "");
    assert_eq!(utils::progress_percent(1, 3), 33);
    assert_eq!(utils::progress_percent(3, 3), 100);
    assert_eq!(utils::progress_percent(0, 0), 100);
}

#[test]
fn the_progress_display() {
    let (line, last) = utils::progress_tick(5, 100);
    let bar = format!("{}{}", "█".repeat(2), "░".repeat(38));
    assert_eq!(line, format!("\r[{}] {:3}% | 5/100 scanned | ", bar, 5));
    assert!(!last);
    let (line, last) = utils::progress_tick(100, 100);
    assert_eq!(line, format!("\r[{}] 100% | 100/100 scanned | ", "█".repeat(40)));
    assert!(last);
    assert!(utils::shows_progress(false, true));
    assert!(!utils::shows_progress(true, true));
    assert!(!utils::shows_progress(false, false));
}

#[test]
fn programs_that_are_there() {
    let there = CommandOutput { success: true, stdout: vec![], stderr: vec![] };
    let missing = CommandOutput { success: false, stdout: vec![], stderr: vec![] };
    assert!(utils::check_binary_in_path(&Ok(there)));
    assert!(!utils::check_binary_in_path(&Ok(missing)));
    assert!(!utils::check_binary_in_path(&Err("x".to_string())));
}

#[test]
fn protocols_of_ports() {
    assert_eq!(Port::new(1).protocol, "tcp");
    assert_eq!(Port::new_udp(1).protocol, "udp");
    assert_eq!(banner(1, "a", "b", "c").protocol, "tcp");
    let udp = Port::with_service_udp(53, "domain".to_string(), String::new(), String::new());
    assert_eq!(udp.protocol, "udp");
    assert_eq!(udp.clone().service, "domain");
    assert_eq!(port_numbers(&[Port::new(7), Port::new(3)]), vec![7, 3]);
}

#[test]
fn port_lists() {
    assert_eq!(utils::get_port_list(3), vec![1, 2, 3]);
    assert!(utils::get_port_list(0).is_empty());
    let all = utils::get_port_list(65535);
    assert_eq!(all.len(), 65535);
    assert_eq!(all[65534], 65535);
}

#[test]
fn missing_tools_are_named() {
    assert!(utils::check_dependencies(true, true).is_ok());
    match utils::check_dependencies(false, false).unwrap_err() {
        OxideScannerError::ExternalTool { tool, message } => {
            assert_eq!(tool, "dependency_check");
            assert!(message.starts_with(
                "Missing required tools:\n  searchsploit (Exploit database search tool)\n  nmap (Network scanning and service detection)\n\nInstall with:\n  sudo apt install nmap  # Debian/Ubuntu\n"
            ));
            assert!(message.ends_with("sudo cp -r exploitdb/exploits /opt/"));
        }
        _ => unreachable!(),
    }
    match utils::check_dependencies(true, false).unwrap_err() {
        OxideScannerError::ExternalTool { message, .. } => {
            assert!(message.starts_with("Missing required tools:\n  nmap ("));
        }
        _ => unreachable!(),
    }
}

#[test]
fn targets_and_their_addresses() {
    assert_eq!(utils::target_lookup_name("host").unwrap(), "host:0");
    assert!(utils::target_lookup_name("").is_err());
    assert_eq!(utils::resolve_target("host", Ok(vec![1, 2])).unwrap(), vec![1, 2]);
    let none: Result<Vec<u8>, String> = Ok(vec![]);
    assert_eq!(
        utils::resolve_target("host", none).unwrap_err().describe(),
        "Target resolution failed: could not resolve target: host"
    );
    let failed: Result<Vec<u8>, String> = Err("x".to_string());
    assert_eq!(
        utils::resolve_target("host", failed).unwrap_err().describe(),
        "Target resolution failed: resolve error: x"
    );
    assert_eq!(
        utils::resolve_target("", Ok(vec![1])).unwrap_err().describe(),
        "Validation error: Target cannot be empty"
    );
}

#[test]
fn attempts_to_connect() {
    let step = |attempts: &[TcpAttempt]| tcp_probe_step(attempts, 2);
    assert_eq!(tcp_probe_step(&[], 0), ProbeStep::Decided(PortStatus::Filtered));
    assert_eq!(step(&[]), ProbeStep::Try(0));
    assert_eq!(step(&[TcpAttempt::TimedOut]), ProbeStep::Try(1));
    assert_eq!(
        step(&[TcpAttempt::TimedOut, TcpAttempt::Failed]),
        ProbeStep::Decided(PortStatus::Filtered)
    );
    assert_eq!(step(&[TcpAttempt::Connected]), ProbeStep::Decided(PortStatus::Open));
    assert_eq!(step(&[TcpAttempt::Refused]), ProbeStep::Decided(PortStatus::Closed));
    assert_eq!(
        step(&[TcpAttempt::Failed, TcpAttempt::Reset]),
        ProbeStep::Decided(PortStatus::Closed)
    );
    assert_eq!(
        step(&[TcpAttempt::Refused, TcpAttempt::Connected]),
        ProbeStep::Decided(PortStatus::Closed)
    );
    assert_eq!(TcpAttempt::TimedOut.verdict(), None);
}

#[test]
fn attempts_to_get_a_datagram() {
    let silent = vec![
        UdpAttempt::BindFailed,
        UdpAttempt::ConnectFailed,
        UdpAttempt::SendFailed,
        UdpAttempt::NoReply,
    ];
    assert_eq!(udp_probe_step(&silent, 5), ProbeStep::Try(4));
    assert_eq!(udp_probe_step(&silent, 4), ProbeStep::Decided(PortStatus::Filtered));
    assert_eq!(
        udp_probe_step(&[UdpAttempt::NoReply, UdpAttempt::Reply], 5),
        ProbeStep::Decided(PortStatus::Open)
    );
    assert_eq!(UdpAttempt::Reply.verdict(), Some(PortStatus::Open));
}

#[test]
fn results_of_a_scan() {
    let ended = vec![
        Some((90, PortStatus::Open)),
        Some((7, PortStatus::Filtered)),
        None,
        Some((80, PortStatus::Open)),
        Some((5, PortStatus::Closed)),
        Some((6, PortStatus::Closed)),
    ];
    let results = collect_results(&ended, false);
    assert_eq!(port_numbers(&results.open), vec![80, 90]);
    assert_eq!(results.open[0].protocol, "tcp");
    assert_eq!(results.filtered, vec![0, 7]);
    assert_eq!(results.closed, 2);
    assert_eq!(results.open.len() + results.filtered.len() + results.closed, ended.len());
    assert_eq!(collect_results(&ended, true).open[0].protocol, "udp");
}

#[test]
fn sorting_is_stable() {
    let mut sorted = Vec::new();
    for p in sort_by_port(vec![
        banner(5, "a", "", ""),
        banner(3, "b", "", ""),
        banner(5, "c", "", ""),
        banner(3, "d", "", ""),
    ]) {
        sorted.push((p.port, p.service));
    }
    let names: Vec<&str> = sorted.iter().map(|p| p.1.as_str()).collect();
    assert_eq!(names, vec!["b", "d", "a", "c"]);
}

#[test]
fn detections_on_several_ports() {
    let detections = vec![
        (443, Detection::Found(vec![service(443, "https")])),
        (22, Detection::Failed(OxideScannerError::timeout(30000))),
        (80, Detection::Found(vec![service(80, "http"), service(8080, "proxy")])),
        (25, Detection::Panicked("task 7".to_string())),
        (21, Detection::Found(vec![])),
    ];
    let ports = detect_services(&detections, true);
    let found: Vec<(u16, &str, &str)> = ports
        .iter()
        .map(|p| (p.port, p.protocol.as_str(), p.service.as_str()))
        .collect();
    assert_eq!(
        found,
        vec![(80, "udp", "http"), (443, "udp", "https"), (8080, "udp", "proxy")]
    );
    let warnings = warn_about_detections(&detections);
    assert_eq!(
        shown(&warnings),
        vec![
            "  WARNING Service detection on port 22 failed: Timeout error: operation timed out after 30000ms",
            "  WARNING Service detection task for port 25 panicked: task 7",
        ]
    );
    assert_eq!(warnings[0][1].style, Style::Yellow);
    assert_eq!(detect_services(&detections, false)[0].protocol, "tcp");
}

#[test]
fn banners_give_systems_away() {
    let os = |product: &str| {
        infer_os_from_services(&[banner(1, "x", "", ""), banner(2, "s", product, "v")])
            .map(|os| (os.name, os.distro))
    };
    let pair = |a: &str, b: &str| Some((a.to_string(), b.to_string()));
    assert_eq!(os("OpenSSH Ubuntu"), pair("Linux", "Ubuntu"));
    assert_eq!(os("Debian"), pair("Linux", "Debian"));
    assert_eq!(os("CentOS"), pair("Linux", "CentOS"));
    assert_eq!(os("Red Hat"), pair("Linux", "RHEL"));
    assert_eq!(os("FreeBSD"), pair("FreeBSD", ""));
    assert_eq!(os("Windows"), pair("Windows", "Windows"));
    assert_eq!(os("Microsoft IIS"), pair("Windows", "Windows"));
    assert_eq!(os("macOS"), pair("macOS", ""));
    assert_eq!(os("Darwin"), pair("macOS", ""));
    assert_eq!(os("SUSE"), pair("Linux", "SUSE"));
    assert_eq!(os("Fedora"), pair("Linux", "Fedora"));
    assert_eq!(os("Arch"), pair("Linux", "Arch"));
    assert_eq!(os("Alpine"), pair("Linux", "Alpine"));
    assert_eq!(os("ubuntu"), None);
    assert_eq!(os("Alpine Debian"), pair("Linux", "Debian"));
    let os = infer_os_from_services(&[banner(1, "Red", "Hat", "")]).unwrap();
    assert_eq!(os.distro, "RHEL");
    assert_eq!(os.confidence_percent, 85);
    assert_eq!(os.source, "service_banner");
    let first = infer_os_from_services(&[banner(1, "", "Arch", ""), banner(2, "", "Ubuntu", "")]);
    assert_eq!(first.unwrap().distro, "Arch");
    assert!(infer_os_from_services(&[]).is_none());
}

#[test]
fn what_nmap_recognised_comes_first() {
    let nmap = || {
        Some(OsResult {
            name: "BeOS".to_string(),
            distro: String::new(),
            confidence_percent: 90,
            source: "nmap_os_detection".to_string(),
        })
    };
    let services = [banner(1, "", "Ubuntu", "")];
    assert_eq!(detect_os(&services, nmap()).unwrap().name, "BeOS");
    assert_eq!(detect_os(&services, None).unwrap().name, "Linux");
    assert!(detect_os(&[], nmap()).is_none());
    assert_eq!(nmap().unwrap().clone().distro_label(), "BeOS");
}

#[test]
fn script_runs() {
    let result = NseResult { port: 22, script_id: "s".to_string(), output: "o".to_string() };
    let run = ScriptRun::Done(vec![result]);
    let (results, warnings) = run_nse_scripts(&run);
    assert_eq!(results.len(), 1);
    assert!(warnings.is_empty());
    let run = ScriptRun::NoRunner(OxideScannerError::validation("v"));
    let (results, warnings) = run_nse_scripts(&run);
    assert!(results.is_empty());
    assert_eq!(shown(&warnings), vec!["WARNING NSE runner init failed: Validation error: v"]);
    let run = ScriptRun::Failed(OxideScannerError::parse("p"));
    let (results, warnings) = run_nse_scripts(&run);
    assert!(results.is_empty());
    assert_eq!(shown(&warnings), vec!["WARNING NSE execution failed: Parsing error: p"]);
}

#[test]
fn summary_of_a_scan() {
    let results = ScanResults { open: vec![Port::new(80)], filtered: vec![1, 2], closed: 7 };
    let lines = report::scan_summary(&results, false);
    assert_eq!(
        shown(&lines),
        vec![
            "",
            "  1 open tcp port  2 filtered ports  7 closed",
            "",
            "  open",
            "    80/tcp",
            "",
            "  filtered",
            "    1/tcp",
            "    2/tcp",
            "",
        ]
    );
    assert_eq!(lines[1][1].style, Style::BoldBrightGreen);
    assert_eq!(lines[1][3].style, Style::BoldBrightYellow);
    assert_eq!(lines[1][5].style, Style::Dimmed);
    assert_eq!(lines[4][1].style, Style::BrightCyan);
    assert_eq!(lines[7][1].style, Style::BrightYellow);
}

#[test]
fn many_filtered_ports_are_only_counted() {
    let results = ScanResults { open: vec![], filtered: (1..=11).collect(), closed: 0 };
    assert_eq!(
        shown(&report::scan_summary(&results, true)),
        vec!["", "  0 open udp ports  11 filtered ports  0 closed"]
    );
    let results = ScanResults { open: vec![], filtered: (1..=10).collect(), closed: 0 };
    assert_eq!(report::scan_summary(&results, true).len(), 14);
    let results = ScanResults { open: vec![], filtered: vec![9], closed: 0 };
    assert_eq!(
        shown(&report::scan_summary(&results, true)),
        vec!["", "  0 open udp ports  1 filtered port  0 closed", "", "  filtered", "    9/udp"]
    );
}

#[test]
fn lines_about_services() {
    assert!(report::service_report(&[]).is_empty());
    let lines = report::service_report(&[
        banner(22, "ssh", "OpenSSH", "8.2"),
        banner(80, "http", "", "ignored"),
    ]);
    assert_eq!(
        shown(&lines),
        vec!["  svc", "    22/tcp  ssh OpenSSH 8.2", "    80/tcp  http", ""]
    );
    assert_eq!(lines[0][1].style, Style::BoldBrightCyan);
}

#[test]
fn lines_about_the_operating_system() {
    assert!(report::os_report(&None, 3).is_empty());
    let os = infer_os_from_services(&[banner(1, "", "Ubuntu", "")]);
    let lines = report::os_report(&os, 85);
    assert_eq!(shown(&lines), vec!["  os", "    Linux, Ubuntu  (85%)", ""]);
    assert_eq!(lines[0][1].style, Style::BoldBrightMagenta);
}

#[test]
fn lines_about_scripts() {
    assert!(report::nse_report(&[]).is_empty());
    let results = vec![
        NseResult {
            port: 22,
            script_id: "ssh-x".to_string(),
            output: "1\n2\r\n3\n4\n5\n6".to_string(),
        },
        NseResult { port: 80, script_id: "http-y".to_string(), output: String::new() },
    ];
    let lines = report::nse_report(&results);
    assert_eq!(
        shown(&lines),
        vec![
            "  nse",
            "    22/tcp  ssh-x",
            "      1",
            "      2",
            "      3",
            "      4",
            "      5",
            "    80/tcp  http-y",
            "",
        ]
    );
    assert_eq!(lines[1][3].style, Style::BrightWhite);
    assert_eq!(lines[2][1].style, Style::Dimmed);
}

#[test]
fn announcements() {
    let line = report::scan_announcement("h", 65535, " UDP");
    assert_eq!(shown(&[line]), vec!["  h  scanning top all UDP ports"]);
    let line = report::warning("No open ports found");
    assert_eq!(shown(&[line]), vec!["WARNING No open ports found"]);
    assert_eq!(report::plain("x").style, Style::Plain);
    assert_eq!(report::styled("x", Style::Yellow).style, Style::Yellow);
}
