use rusty_blue::configs::ConfigReader;
use rusty_blue::event::{EventData, Evtx, Provider, SystemFields, TimeCreated};
use rusty_blue::report::Report;
use rusty_blue::system;

const RULES: &str = "Type,regex,string\n\
0,mimikatz,Mimikatz\n\
1,^[a-zA-Z]{16}$,Metasploit-style service name: 16 characters\n";

fn config() -> ConfigReader {
    ConfigReader::new(RULES, "regex\n^whitelisted")
}

fn event(provider: &str, event_id: &str, time: &str, data: &[(&str, &str)]) -> Evtx {
    let mut event_data = EventData::new();
    for (name, value) in data {
        event_data.insert(name.to_string(), value.to_string());
    }
    Evtx {
        system: SystemFields {
            provider: Provider { name: Some(provider.to_string()) },
            event_id: event_id.to_string(),
            channel: "System".to_string(),
            time_created: TimeCreated { system_time: time.to_string() },
            message: None,
        },
        event_data,
        user_data: None,
    }
}

fn get_system_log_clear(event_id: &str) -> Evtx {
    event("Microsoft-Windows-Eventlog", event_id, "2019-04-27 21:04:25.733401 UTC", &[])
}

fn get_system_service_created(event_id: &str) -> Evtx {
    event(
        "Service Control Manager",
        event_id,
        "2017-07-12 17:16:29.401630 UTC",
        &[
            ("ServiceName", "ijklmnopIJKLMNOP"),
            ("ImagePath", "\\SystemRoot\\System32\\drivers\\WUDFRd.sys"),
            ("ServiceType", "kernel mode driver"),
            ("StartType", "demand start"),
            ("AccountName", ""),
        ],
    )
}

fn get_interactive_service_warning(event_id: &str) -> Evtx {
    event(
        "Service Control Manager",
        event_id,
        "2017-07-12 07:19:24.066431 UTC",
        &[("param1", "Printer Extensions and Notifications")],
    )
}

fn get_suspicious_service_name(event_id: &str) -> Evtx {
    event(
        "Service Control Manager",
        event_id,
        "2017-07-12 07:19:24.066431 UTC",
        &[("param1", "abcdefghABCDEFGH")],
    )
}

fn get_windows_event_log(event_id: &str, param2: &str) -> Evtx {
    event(
        "Service Control Manager",
        event_id,
        "2017-07-12 07:20:03.875567 UTC",
        &[
            ("param1", "Windows Event Log"),
            ("param2", param2),
            ("param3", "auto start"),
            ("param4", "BITS"),
        ],
    )
}

#[test]
fn test_system_log_clear() {
    let event = get_system_log_clear("104");

    let mut sys = system::System::new();
    let option_v = sys.system_log_clear(
        &event.system.event_id.to_string(),
        &event.system.time_created.system_time,
    );

    let v = option_v.unwrap();
    let mut ite = v.iter();
    assert_eq!(
        &"Date : 2019-04-27 21:04:25.733401 UTC".to_string(),
        ite.next().unwrap_or(&"".to_string())
    );
    assert_eq!(
        &"Message : System Log Clear".to_string(),
        ite.next().unwrap_or(&"".to_string())
    );
    assert_eq!(
        &"Results : The System log was cleared.".to_string(),
        ite.next().unwrap_or(&"".to_string())
    );
    assert_eq!(Option::None, ite.next());
}

#[test]
fn test_system_log_clear_noteq_eventid() {
    let event = get_system_log_clear("105");

    let mut sys = system::System::new();
    let option_v = sys.system_log_clear(
        &event.system.event_id.to_string(),
        &event.system.time_created.system_time,
    );
    assert_eq!(Option::None, option_v);
}

#[test]
fn test_new_service_created() {
    let event = get_system_service_created("7045");

    let mut sys = system::System::new();
    let option_v = sys.new_service_created(
        &config(),
        &event.system.event_id.to_string(),
        &event.event_data,
        &event.system.time_created.system_time,
    );
    let v = option_v.unwrap();
    let mut ite = v.iter();
    assert_eq!(
        &"Date : 2017-07-12 17:16:29.401630 UTC".to_string(),
        ite.next().unwrap_or(&"".to_string())
    );
    assert_eq!(
        &"Message : New Service Created".to_string(),
        ite.next().unwrap_or(&"".to_string())
    );
    assert_eq!(
        &"Command : \\SystemRoot\\System32\\drivers\\WUDFRd.sys".to_string(),
        ite.next().unwrap_or(&"".to_string())
    );
    assert_eq!(
        &"Results : Service name: ijklmnopIJKLMNOP".to_string(),
        ite.next().unwrap_or(&"".to_string())
    );
    assert_eq!(
        &"Results : Metasploit-style service name: 16 characters\n".to_string(),
        ite.next().unwrap_or(&"".to_string())
    );
    assert_eq!(Option::None, ite.next());
}

#[test]
fn test_new_service_created_noteq_eventid() {
    let event = get_system_service_created("7046");

    let mut sys = system::System::new();
    let option_v = sys.new_service_created(
        &config(),
        &event.system.event_id.to_string(),
        &event.event_data,
        &event.system.time_created.system_time,
    );
    assert_eq!(Option::None, option_v);
}

#[test]
fn test_new_service_created_cmdline_notset() {
    let event = event(
        "Service Control Manager",
        "7045",
        "2017-07-12 17:16:29.401630 UTC",
        &[
            ("ServiceName", "ijklmnopIJKLMNOP"),
            ("ServiceType", "kernel mode driver"),
            ("StartType", "demand start"),
            ("AccountName", ""),
        ],
    );

    let mut sys = system::System::new();
    let option_v = sys.new_service_created(
        &config(),
        &event.system.event_id.to_string(),
        &event.event_data,
        &event.system.time_created.system_time,
    );
    let v = option_v.unwrap();
    let mut ite = v.iter();
    assert_eq!(
        &"Date : 2017-07-12 17:16:29.401630 UTC".to_string(),
        ite.next().unwrap_or(&"".to_string())
    );
    assert_eq!(
        &"Message : New Service Created".to_string(),
        ite.next().unwrap_or(&"".to_string())
    );
    assert_eq!(
        &"Command : ".to_string(),
        ite.next().unwrap_or(&"".to_string())
    );
    assert_eq!(
        &"Results : Service name: ijklmnopIJKLMNOP".to_string(),
        ite.next().unwrap_or(&"".to_string())
    );
    assert_eq!(
        &"Results : Metasploit-style service name: 16 characters\n".to_string(),
        ite.next().unwrap_or(&"".to_string())
    );
    assert_eq!(Option::None, ite.next());
}

#[test]
fn test_interactive_service_warning() {
    let event = get_interactive_service_warning("7030");
    let mut sys = system::System::new();
    let option_v = sys.interactive_service_warning(
        &config(),
        &event.system.event_id.to_string(),
        &event.event_data,
        &event.system.time_created.system_time,
    );
    let v = option_v.unwrap();
    let mut ite = v.iter();
    assert_eq!(
        &"Date    : 2017-07-12 07:19:24.066431 UTC".to_string(),
        ite.next().unwrap_or(&"".to_string())
    );
    assert_eq!(
        &"Message : Interactive service warning".to_string(),
        ite.next().unwrap_or(&"".to_string())
    );
    assert_eq!(
        &"Results : Service name: Printer Extensions and Notifications".to_string(),
        ite.next().unwrap_or(&"".to_string())
    );
    assert_eq!(
        &"Results : Malware (and some third party software) trigger this warning".to_string(),
        ite.next().unwrap_or(&"".to_string())
    );
    assert_eq!(&"".to_string(), ite.next().unwrap_or(&"".to_string()));
    assert_eq!(Option::None, ite.next());
}

#[test]
fn test_interactive_service_warning_noteq_eventid() {
    let event = get_interactive_service_warning("7031");

    let mut sys = system::System::new();
    let option_v = sys.interactive_service_warning(
        &config(),
        &event.system.event_id.to_string(),
        &event.event_data,
        &event.system.time_created.system_time,
    );
    assert_eq!(Option::None, option_v);
}

#[test]
fn test_suspicious_service_name() {
    let event = get_suspicious_service_name("7036");
    let mut sys = system::System::new();
    let option_v = sys.suspicious_service_name(
        &config(),
        &event.system.event_id.to_string(),
        &event.event_data,
        &event.system.time_created.system_time,
    );
    let v = option_v.unwrap();
    let mut ite = v.iter();
    assert_eq!(
        &"Date    : 2017-07-12 07:19:24.066431 UTC".to_string(),
        ite.next().unwrap_or(&"".to_string())
    );
    assert_eq!(
        &"Message : Suspicious Service Name".to_string(),
        ite.next().unwrap_or(&"".to_string())
    );
    assert_eq!(
        &"Results : Service name: abcdefghABCDEFGH".to_string(),
        ite.next().unwrap_or(&"".to_string())
    );
    assert_eq!(
        &"Results : Metasploit-style service name: 16 characters\n".to_string(),
        ite.next().unwrap_or(&"".to_string())
    );
    assert_eq!(Option::None, ite.next());
}

#[test]
fn test_suspicious_service_name_noteq_eventid() {
    let event = get_suspicious_service_name("7037");

    let mut sys = system::System::new();
    let option_v = sys.suspicious_service_name(
        &config(),
        &event.system.event_id.to_string(),
        &event.event_data,
        &event.system.time_created.system_time,
    );
    assert_eq!(Option::None, option_v);
}

#[test]
fn test_windows_event_log() {
    let event = get_windows_event_log("7040", "disabled");
    let mut sys = system::System::new();
    let option_v = sys.windows_event_log(
        &event.system.event_id.to_string(),
        &event.event_data,
        &event.system.time_created.system_time,
    );
    let v = option_v.unwrap();
    let mut ite = v.iter();
    assert_eq!(
        &"Date    : 2017-07-12 07:20:03.875567 UTC".to_string(),
        ite.next().unwrap_or(&"".to_string())
    );
    assert_eq!(
        &"Service name : Windows Event Log".to_string(),
        ite.next().unwrap_or(&"".to_string())
    );
    assert_eq!(
        &"Message : Event Log Service Stopped".to_string(),
        ite.next().unwrap_or(&"".to_string())
    );
    assert_eq!(
        &"Results : Selective event log manipulation may follow this event.".to_string(),
        ite.next().unwrap_or(&"".to_string())
    );
    assert_eq!(Option::None, ite.next());
}

#[test]
fn test_windows_event_log_auto_start() {
    let event = get_windows_event_log("7040", "auto start");
    let mut sys = system::System::new();
    let option_v = sys.windows_event_log(
        &event.system.event_id.to_string(),
        &event.event_data,
        &event.system.time_created.system_time,
    );
    let v = option_v.unwrap();
    let mut ite = v.iter();
    assert_eq!(
        &"Date    : 2017-07-12 07:20:03.875567 UTC".to_string(),
        ite.next().unwrap_or(&"".to_string())
    );
    assert_eq!(
        &"Service name : Windows Event Log".to_string(),
        ite.next().unwrap_or(&"".to_string())
    );
    assert_eq!(
        &"Message : Event Log Service Started".to_string(),
        ite.next().unwrap_or(&"".to_string())
    );
    assert_eq!(
        &"Results : Selective event log manipulation may precede this event.".to_string(),
        ite.next().unwrap_or(&"".to_string())
    );
    assert_eq!(Option::None, ite.next());
}

#[test]
fn test_windows_event_log_noteq_eventid() {
    let event = get_windows_event_log("7041", "disabled");

    let mut sys = system::System::new();
    let option_v = sys.windows_event_log(
        &event.system.event_id.to_string(),
        &event.event_data,
        &event.system.time_created.system_time,
    );
    assert_eq!(Option::None, option_v);
}

#[test]
fn event_log_with_another_setting_is_no_finding() {
    let mut sys = system::System::new();
    let event = get_windows_event_log("7040", "demand start");
    let lines = sys.windows_event_log(
        &event.system.event_id,
        &event.event_data,
        &event.system.time_created.system_time,
    );
    assert_eq!(lines, Some(Vec::new()));
    let other = event_for_service("7040", "BITS", "disabled");
    let lines = sys.windows_event_log(
        &other.system.event_id,
        &other.event_data,
        &other.system.time_created.system_time,
    );
    assert_eq!(lines, Some(Vec::new()));
    assert!(sys.detection(&config(), "7040".to_string(), &event.system, &event.event_data).is_empty());
}

fn event_for_service(event_id: &str, param1: &str, param2: &str) -> Evtx {
    event("Service Control Manager", event_id, "t", &[("param1", param1), ("param2", param2)])
}

#[test]
fn service_without_matching_name_is_no_finding() {
    let mut sys = system::System::new();
    let event = event("Service Control Manager", "7036", "t", &[("param1", "Spooler")]);
    let lines = sys.suspicious_service_name(
        &config(),
        &event.system.event_id,
        &event.event_data,
        &event.system.time_created.system_time,
    );
    assert_eq!(lines, Some(Vec::new()));
    assert!(sys.detection(&config(), "7036".to_string(), &event.system, &event.event_data).is_empty());
}

#[test]
fn log_clear_does_not_depend_on_the_fields() {
    let mut sys = system::System::new();
    let event = event("any", "104", "now", &[("param1", "Windows Event Log"), ("param2", "disabled")]);
    let reports = sys.detection(&config(), "104".to_string(), &event.system, &event.event_data);
    assert_eq!(reports.len(), 1);
    match &reports[0] {
        Report::Lines(lines) => assert_eq!(
            lines,
            &vec![
                "Date : now".to_string(),
                "Message : System Log Clear".to_string(),
                "Results : The System log was cleared.".to_string(),
            ]
        ),
        _ => panic!("a block of lines was expected"),
    }
}

#[test]
fn event_log_service_is_reported_by_the_detector() {
    let mut sys = system::System::new();
    let event = get_windows_event_log("7040", "disabled");
    let reports = sys.detection(&config(), "7040".to_string(), &event.system, &event.event_data);
    assert_eq!(reports.len(), 1);
    match &reports[0] {
        Report::Lines(lines) => assert_eq!(lines[2], "Message : Event Log Service Stopped"),
        _ => panic!("a block of lines was expected"),
    }
}

#[test]
fn image_path_is_analysed_whether_or_not_the_name_matches() {
    let mut sys = system::System::new();
    let config = config();
    let named = event(
        "Service Control Manager",
        "7045",
        "t",
        &[("ServiceName", "ijklmnopIJKLMNOP"), ("ImagePath", "cmd /c mimikatz")],
    );
    let reports = sys.detection(&config, "7045".to_string(), &named.system, &named.event_data);
    assert_eq!(reports.len(), 2);
    match &reports[0] {
        Report::Finding(finding) => {
            assert_eq!(finding.event_id, 7045);
            assert_eq!(finding.command, "cmd /c mimikatz");
            assert_eq!(finding.result, "Mimikatz\n");
            assert_eq!(finding.headline, "Suspicious Command Line");
        }
        _ => panic!("a finding was expected"),
    }
    match &reports[1] {
        Report::Lines(lines) => assert_eq!(lines[1], "Message : New Service Created"),
        _ => panic!("a block of lines was expected"),
    }
    let unnamed = event(
        "Service Control Manager",
        "7045",
        "t",
        &[("ServiceName", "Spooler"), ("ImagePath", "cmd /c mimikatz")],
    );
    let reports = sys.detection(&config, "7045".to_string(), &unnamed.system, &unnamed.event_data);
    assert_eq!(reports.len(), 1);
    assert!(matches!(&reports[0], Report::Finding(_)));
    let finding = sys.new_service_command(
        &config,
        &"7045".to_string(),
        &unnamed.event_data,
        &"t".to_string(),
    );
    assert_eq!(finding.unwrap().result, "Mimikatz\n");
    let whitelisted = event(
        "Service Control Manager",
        "7045",
        "t",
        &[("ServiceName", "Spooler"), ("ImagePath", "whitelisted mimikatz")],
    );
    assert!(sys
        .detection(&config, "7045".to_string(), &whitelisted.system, &whitelisted.event_data)
        .is_empty());
}

#[test]
fn interactive_service_with_matching_name_carries_the_rule() {
    let mut sys = system::System::new();
    let event = event("Service Control Manager", "7030", "t", &[("param1", "abcdefghABCDEFGH")]);
    let lines = sys
        .interactive_service_warning(
            &config(),
            &event.system.event_id,
            &event.event_data,
            &event.system.time_created.system_time,
        )
        .unwrap();
    assert_eq!(lines.len(), 5);
    assert_eq!(lines[4], "Metasploit-style service name: 16 characters\n");
}

#[test]
fn later_field_replaces_an_earlier_one() {
    let mut data = EventData::new();
    assert!(data.get("param1").is_none());
    data.insert("param1".to_string(), "first".to_string());
    data.insert("param2".to_string(), "other".to_string());
    data.insert("param1".to_string(), "second".to_string());
    assert_eq!(data.get("param1"), Some(&"second".to_string()));
    assert_eq!(data.get("param2"), Some(&"other".to_string()));
    assert_eq!(data.get("param3"), None);
    assert_eq!(data.get("Param1"), None);
    assert_eq!(system::field(&data, "param3"), "");
    assert_eq!(system::field(&data, "param1"), "second");
}
