use oxidescanner::detection::{os_detection_args, os_from_output, os_from_text, service_detector};
use oxidescanner::duration::Duration;
use oxidescanner::error::OxideScannerError;
use oxidescanner::external::nmap::NmapDetector;
use oxidescanner::external::nmap_nse::NseRunner;
use oxidescanner::external::{BaseTool, CommandOutcome, CommandOutput};
use oxidescanner::validation;
use oxidescanner::xml::{XmlAttribute, XmlDocument, XmlNode};

fn printed(stdout: &str) -> CommandOutput {
    CommandOutput { success: true, stdout: stdout.as_bytes().to_vec(), stderr: Vec::new() }
}

fn detector() -> NmapDetector {
    NmapDetector::new(&Ok(printed("/usr/bin/nmap\n"))).unwrap()
}

fn runner() -> NseRunner {
    NseRunner::new(&Ok(printed("/usr/bin/nmap\n"))).unwrap()
}

const REPORT: &str = r#"<?xml version="1.0"?>
  <!DOCTYPE nmaprun>
<nmaprun xmlns:x="urn:x">
  <!-- two hosts -->
  <host>
    <ports>
      <port protocol="tcp" portid="443"><service name="https" product="nginx" version="1.2"/></port>
      <port protocol="tcp" portid="80"><service product="Apache &amp; co"/><service name="second"/></port>
      <port protocol="tcp" portid="0"><service name="zero"/></port>
      <port protocol="tcp" portid="65536"/>
      <port protocol="tcp"/>
      <port x:portid="7"/>
    </ports>
  </host>
  <host>
    <ports><port portid="+22"><script id="ssh-x" output="a&#10;b"/><script/></port></ports>
    <ports><port portid="80"><script id="late"/></port></ports>
    <osmatch name="Windows 10" accuracy="96">
      <osclass vendor="Microsoft" osfamily="Windows" osgen="10"/>
      <osclass vendor="Other" osfamily="Other"/>
    </osmatch>
    <osmatch name="Linux" accuracy="90"/>
  </host>
</nmaprun>
"#;

#[test]
fn test_format_port_list() {
    let detector = detector();
    let ports = vec![22, 80, 443];
    let result = detector.format_port_list(&ports).unwrap();
    assert_eq!(result, "22,80,443");
}

#[test]
fn test_format_empty_port_list() {
    let detector = detector();
    let ports = vec![];
    let result = detector.format_port_list(&ports);
    assert!(result.is_err());
}

#[test]
fn test_build_nmap_args_tcp() {
    let detector = detector();
    let args = detector.build_nmap_args("127.0.0.1", "80,443", false);
    assert!(args.contains(&"-sV".to_string()));
    assert!(!args.contains(&"-sUV".to_string()));
}

#[test]
fn test_build_nmap_args_udp() {
    let detector = detector();
    let args = detector.build_nmap_args("127.0.0.1", "53,161", true);
    assert!(args.contains(&"-sUV".to_string()));
    assert!(!args.contains(&"-sV".to_string()));
}

#[test]
fn a_tool_is_where_which_says() {
    let tool = BaseTool::new("nmap", &Ok(printed(" /opt/nmap \n"))).unwrap();
    assert_eq!(tool.name, "nmap");
    assert_eq!(tool.binary_path, "/opt/nmap");
    let e = BaseTool::new("nmap", &Ok(printed(" \n"))).unwrap_err();
    assert_eq!(e.describe(), "External tool error: nmap failed with Tool path is empty");
    let missing = CommandOutput { success: false, stdout: Vec::new(), stderr: Vec::new() };
    let e = BaseTool::find_binary("nmap", &Ok(missing)).unwrap_err();
    assert_eq!(e.describe(), "External tool error: nmap failed with Tool not found in PATH");
    let e = BaseTool::find_binary("nmap", &Err("no which".to_string())).unwrap_err();
    assert_eq!(e.describe(), "External tool error: which failed with no which");
    let odd = CommandOutput { success: true, stdout: vec![0x2f, 0xff], stderr: Vec::new() };
    assert_eq!(BaseTool::find_binary("nmap", &Ok(odd)).unwrap(), "/\u{fffd}");
    assert_eq!(BaseTool::path_from("nmap", "/x").unwrap(), "/x");
}

#[test]
fn a_command_that_ended() {
    let tool = BaseTool::new("nmap", &Ok(printed("/n"))).unwrap();
    let timeout = Duration::from_secs(30);
    let e = tool.command_result(CommandOutcome::TimedOut, timeout).unwrap_err();
    assert_eq!(e.describe(), "Timeout error: operation timed out after 30000ms");
    let e = tool.command_result(CommandOutcome::Failed("x".to_string()), timeout).unwrap_err();
    assert_eq!(e.describe(), "External tool error: nmap failed with x");
    let output = tool.command_result(CommandOutcome::Finished(printed("out")), timeout).unwrap();
    assert_eq!(output.stdout, b"out");
}

#[test]
fn arguments_of_a_detection() {
    let args = detector().detection_args("host", &[53], true).unwrap();
    assert_eq!(
        args,
        vec![
            "-sUV", "--version-intensity", "1", "-p", "53", "-oX", "-", "--open",
            "--disable-arp-ping", "-Pn", "host",
        ]
    );
    let e = detector().detection_args("", &[53], true).unwrap_err();
    assert_eq!(e.describe(), "Validation error: Target cannot be empty");
    let e = detector().detection_args("host", &[], true).unwrap_err();
    assert_eq!(e.describe(), "Validation error: Port list cannot be empty");
    let e = detector().detection_args("host", &[1, 0], true).unwrap_err();
    assert_eq!(e.describe(), "Validation error: Invalid port list");
}

#[test]
fn formatted_port_lists_are_accepted() {
    let ports: Vec<u16> = vec![1, 65535, 80, 80];
    let list = detector().format_port_list(&ports).unwrap();
    assert_eq!(validation::validate_port_list(&list).unwrap(), "1,65535,80,80");
    assert!(validation::validate_port_list("1,,2").is_err());
    assert!(validation::validate_port_list("").is_err());
    assert!(validation::validate_port_list("65536").is_err());
    assert_eq!(validation::validate_port_limit(1).unwrap(), 1);
    assert!(validation::validate_port_limit(0).is_err());
}

#[test]
fn services_of_a_report() {
    let services = detector().parse_nmap_output(&printed(REPORT)).unwrap();
    let found: Vec<(u16, &str, &str, &str)> = services
        .iter()
        .map(|s| (s.port, s.service.as_str(), s.product.as_str(), s.version.as_str()))
        .collect();
    assert_eq!(
        found,
        vec![
            (7, "unknown", "", ""),
            (22, "unknown", "", ""),
            (80, "unknown", "Apache & co", ""),
            (80, "unknown", "", ""),
            (443, "https", "nginx", "1.2"),
        ]
    );
}

#[test]
fn output_that_is_no_report() {
    let failed =
        CommandOutput { success: false, stdout: Vec::new(), stderr: b"no \xffroot".to_vec() };
    let e = detector().parse_nmap_output(&failed).unwrap_err();
    assert_eq!(e.describe(), "External tool error: nmap failed with Command failed: no \u{fffd}root");
    let e = detector().parse_nmap_output(&printed("<a/>")).unwrap_err();
    assert_eq!(e.describe(), "Parsing error: Invalid nmap XML format");
    match detector().parse_nmap_output(&printed("<nmaprun>")).unwrap_err() {
        OxideScannerError::Parse(m) => assert!(m.starts_with("Failed to parse nmap XML: ")),
        _ => unreachable!(),
    }
    let e = runner().parse_nse_output(&failed).unwrap_err();
    assert_eq!(
        e.describe(),
        "External tool error: nmap_nse failed with Command failed: no \u{fffd}root"
    );
    let e = runner().parse_nse_output(&printed("<a/>")).unwrap_err();
    assert_eq!(e.describe(), "Parsing error: Invalid nmap XML format");
    match runner().parse_nse_output(&printed("")).unwrap_err() {
        OxideScannerError::Parse(m) => assert!(m.starts_with("Failed to parse NSE XML: ")),
        _ => unreachable!(),
    }
}

#[test]
fn document_type_lines_are_dropped() {
    let clean = detector().clean_xml_content("a\r\n \t<!DOCTYPE x>\nb<!DOCTYPE\n\nc");
    assert_eq!(clean, "a\nb<!DOCTYPE\n\nc");
    assert_eq!(detector().clean_xml_content("<!DOCTYPE a>"), "");
}

#[test]
fn scripts_of_a_report() {
    let results = runner().parse_nse_output(&printed(REPORT)).unwrap();
    let found: Vec<(u16, &str, &str)> = results
        .iter()
        .map(|r| (r.port, r.script_id.as_str(), r.output.as_str()))
        .collect();
    assert_eq!(found, vec![(22, "ssh-x", "a\nb"), (22, "unknown", ""), (80, "late", "")]);
    let odd = "<nmaprun><host><ports><port><script id='s'/></port></ports></host></nmaprun>";
    assert_eq!(runner().parse_nse_xml(odd).unwrap()[0].port, 0);
}

#[test]
fn arguments_of_a_script_run() {
    let args = runner().script_args("host", &[22, 80], "vuln").unwrap();
    assert_eq!(
        args,
        vec![
            "--script", "vuln", "-sV", "-p", "22,80", "-oX", "-", "--open", "--disable-arp-ping",
            "-Pn", "host",
        ]
    );
    assert!(runner().script_args("", &[22], "vuln").is_err());
}

#[test]
fn the_operating_system_of_a_report() {
    let os = detector().parse_os_xml(REPORT).unwrap();
    assert_eq!(os.name, "Windows 10");
    assert_eq!(os.accuracy, 96);
    assert_eq!(os.osclass, Some("Microsoft Windows 10".to_string()));
    let os = os_from_output(&printed(REPORT)).unwrap();
    assert_eq!(os.name, "Windows");
    assert_eq!(os.distro, "Microsoft Windows 10");
    assert_eq!(os.confidence_percent, 96);
    assert_eq!(os.source, "nmap_os_detection");
    assert_eq!(os.distro_label(), "Windows, Microsoft Windows 10");
}

#[test]
fn operating_systems_that_are_not_windows_or_not_there() {
    let linux = "<nmaprun><host><osmatch name='Linux 5.4' accuracy='100'>\
                 <osclass vendor='Linux' osgen='5.X'/></osmatch></host></nmaprun>";
    let os = os_from_text(linux).unwrap();
    assert_eq!(os.name, "Linux 5.4");
    assert_eq!(os.distro, "");
    assert_eq!(os.distro_label(), "Linux 5.4");
    assert_eq!(detector().parse_os_xml(linux).unwrap().osclass, None);
    let trimmed = "<r><host><osmatch name='n' accuracy='1'>\
                   <osclass vendor='V' osfamily='F'/></osmatch></host></r>";
    assert_eq!(detector().parse_os_xml(trimmed).unwrap().osclass, Some("V F".to_string()));
    assert!(os_from_text("<r><host><osmatch accuracy='1'/></host></r>").is_none());
    assert!(os_from_text("<r><host><osmatch name='n' accuracy='256'/></host></r>").is_none());
    assert!(os_from_text("<r><host/></r>").is_none());
    assert!(os_from_text("no xml").is_none());
    let failed = CommandOutput { success: false, stdout: linux.as_bytes().to_vec(), stderr: Vec::new() };
    assert!(os_from_output(&failed).is_none());
}

#[test]
fn arguments_of_an_operating_system_detection() {
    assert_eq!(
        os_detection_args("host", &[22, 80]),
        vec![
            "-O", "-sV", "--version-intensity", "1", "-p", "22,80", "-oX", "-", "--open",
            "--disable-arp-ping", "-Pn", "host",
        ]
    );
}

#[test]
fn a_detector_needs_nmap() {
    assert_eq!(
        service_detector(&Ok(printed("/n"))).unwrap().base_tool.binary_path,
        "/n"
    );
    let e = service_detector(&Err("x".to_string())).unwrap_err();
    assert_eq!(
        e.describe(),
        "Service detection failed: Failed to initialize nmap: External tool error: which failed with x"
    );
}

#[test]
fn documents_as_data() {
    let attribute = |name: &str, value: &str| XmlAttribute {
        name: name.to_string(),
        value: value.to_string(),
    };
    let doc = XmlDocument {
        root: 0,
        nodes: vec![
            XmlNode { name: "nmaprun".to_string(), attributes: vec![], children: vec![1] },
            XmlNode { name: "host".to_string(), attributes: vec![], children: vec![2, 4] },
            XmlNode { name: "ports".to_string(), attributes: vec![], children: vec![3] },
            XmlNode {
                name: "port".to_string(),
                attributes: vec![
                    attribute("protocol", "tcp"),
                    attribute("portid", "8"),
                    attribute("portid", "9"),
                ],
                children: vec![],
            },
            XmlNode {
                name: "osmatch".to_string(),
                attributes: vec![attribute("name", "n"), attribute("accuracy", "7")],
                children: vec![],
            },
        ],
    };
    assert_eq!(doc.attribute(3, "portid"), Some(&"8".to_string()));
    assert_eq!(doc.children_named(1, "ports"), vec![2]);
    let services = detector().services_from(&doc).unwrap();
    assert_eq!(services.len(), 1);
    assert_eq!(services[0].port, 8);
    assert_eq!(detector().os_from(&doc).unwrap().accuracy, 7);
}

#[test]
fn every_error_is_described() {
    let described: Vec<String> = vec![
        OxideScannerError::config("a"),
        OxideScannerError::external_tool("t", "m"),
        OxideScannerError::validation("a"),
        OxideScannerError::parse("a"),
        OxideScannerError::Io("a".to_string()),
        OxideScannerError::timeout(18446744073709551615),
        OxideScannerError::service_detection("a"),
        OxideScannerError::target_resolution("a"),
    ]
    .iter()
    .map(|e| e.clone().describe())
    .collect();
    assert_eq!(
        described,
        vec![
            "Configuration error: a",
            "External tool error: t failed with m",
            "Validation error: a",
            "Parsing error: a",
            "IO error: a",
            "Timeout error: operation timed out after 18446744073709551615ms",
            "Service detection failed: a",
            "Target resolution failed: a",
        ]
    );
}
