//! The detector for the System channel.

use crate::configs::ConfigReader;
use crate::event::{EventData, SystemFields};
use crate::text::{lines_view, prefixed, row_view, str_eq};
use crate::report::{
    finding_report, lines_report, push_finding, push_lines, reports_view, Report, ReportView,
};
use crate::utils::{analysis, check_command, check_regex, finding_view, rule_text, Finding, FindingView};
use vstd::prelude::*;

verus! {

/// The value of the field `name`, empty where the record does not have it.
pub open spec fn field_or_empty(event_data: &EventData, name: Seq<char>) -> Seq<char> {
    if event_data@.contains_key(name) {
        event_data@[name]
    } else {
        Seq::<char>::empty()
    }
}

/// The value of the field `name`, empty where the record does not have it.
pub fn field<'a>(event_data: &'a EventData, name: &str) -> (r: &'a str)
    ensures
        r@ == field_or_empty(event_data, name@),
{
    match event_data.get(name) {
        Some(value) => value.as_str(),
        None => {
            proof {
                reveal_strlit("");
            }
            assert(""@ =~= Seq::<char>::empty());
            ""
        },
    }
}

/// The report of a cleared System log: for the event 104 three fixed lines
/// with the time of the event, for any other event none.
pub open spec fn log_clear_lines(event_id: Seq<char>, system_time: Seq<char>) -> Option<
    Seq<Seq<char>>,
> {
    if event_id == "104"@ {
        Some(
            seq![
                "Date : "@ + system_time,
                "Message : System Log Clear"@,
                "Results : The System log was cleared."@,
            ],
        )
    } else {
        None
    }
}

/// The report of a service that was created: for the event 7045 the name and
/// the image path of a service whose name a rule of the name domain
/// matches, nothing where no rule matches; for any other event none.
pub open spec fn service_created_lines(
    config: &ConfigReader,
    event_id: Seq<char>,
    event_data: &EventData,
    system_time: Seq<char>,
) -> Option<Seq<Seq<char>>> {
    if event_id == "7045"@ {
        let servicename = field_or_empty(event_data, "ServiceName"@);
        let commandline = field_or_empty(event_data, "ImagePath"@);
        let text = rule_text(config, servicename, 1);
        if text.len() > 0 {
            Some(
                seq![
                    "Date : "@ + system_time,
                    "Message : New Service Created"@,
                    "Command : "@ + commandline,
                    "Results : Service name: "@ + servicename,
                    "Results : "@ + text,
                ],
            )
        } else {
            Some(Seq::<Seq<char>>::empty())
        }
    } else {
        None
    }
}

/// The warning of an interactive service: for the event 7030 always four
/// lines and, as the fifth, what the rules of the name domain say of the
/// service name; for any other event none.
pub open spec fn interactive_service_lines(
    config: &ConfigReader,
    event_id: Seq<char>,
    event_data: &EventData,
    system_time: Seq<char>,
) -> Option<Seq<Seq<char>>> {
    if event_id == "7030"@ {
        let servicename = field_or_empty(event_data, "param1"@);
        Some(
            seq![
                "Date    : "@ + system_time,
                "Message : Interactive service warning"@,
                "Results : Service name: "@ + servicename,
                "Results : Malware (and some third party software) trigger this warning"@,
                rule_text(config, servicename, 1),
            ],
        )
    } else {
        None
    }
}

/// The report of a suspicious service name: for the event 7036 the name of
/// a service that a rule of the name domain matches, nothing where no rule
/// matches; for any other event none.
pub open spec fn suspicious_service_lines(
    config: &ConfigReader,
    event_id: Seq<char>,
    event_data: &EventData,
    system_time: Seq<char>,
) -> Option<Seq<Seq<char>>> {
    if event_id == "7036"@ {
        let servicename = field_or_empty(event_data, "param1"@);
        let text = rule_text(config, servicename, 1);
        if text.len() > 0 {
            Some(
                seq![
                    "Date    : "@ + system_time,
                    "Message : Suspicious Service Name"@,
                    "Results : Service name: "@ + servicename,
                    "Results : "@ + text,
                ],
            )
        } else {
            Some(Seq::<Seq<char>>::empty())
        }
    } else {
        None
    }
}

/// The report of a change to the event-log service: for the event 7040 on
/// the service `Windows Event Log`, that it was stopped where it was
/// disabled and that it was started where it was set to start
/// automatically; nothing for another service or another setting; for any
/// other event none.
pub open spec fn event_log_lines(
    event_id: Seq<char>,
    event_data: &EventData,
    system_time: Seq<char>,
) -> Option<Seq<Seq<char>>> {
    if event_id == "7040"@ {
        if event_data@.contains_key("param1"@) && event_data@["param1"@] == "Windows Event Log"@
            && event_data@.contains_key("param2"@) {
            if event_data@["param2"@] == "disabled"@ {
                Some(
                    seq![
                        "Date    : "@ + system_time,
                        "Service name : "@ + event_data@["param1"@],
                        "Message : Event Log Service Stopped"@,
                        "Results : Selective event log manipulation may follow this event."@,
                    ],
                )
            } else if event_data@["param2"@] == "auto start"@ {
                Some(
                    seq![
                        "Date    : "@ + system_time,
                        "Service name : "@ + event_data@["param1"@],
                        "Message : Event Log Service Started"@,
                        "Results : Selective event log manipulation may precede this event."@,
                    ],
                )
            } else {
                Some(Seq::<Seq<char>>::empty())
            }
        } else {
            Some(Seq::<Seq<char>>::empty())
        }
    } else {
        None
    }
}

/// The analysis of the image path of a service that was created: for the
/// event 7045 with an image path, what the analyzer finds on the path as a
/// command line, whether or not the name of the service was reported; in
/// every other case none.
pub open spec fn service_command_finding(
    config: &ConfigReader,
    event_id: Seq<char>,
    event_data: &EventData,
    system_time: Seq<char>,
) -> Option<FindingView> {
    let commandline = field_or_empty(event_data, "ImagePath"@);
    if event_id == "7045"@ && commandline.len() > 0 {
        analysis(
            config,
            7045,
            commandline,
            1000,
            0,
            field_or_empty(event_data, "ServiceName"@),
            Seq::<char>::empty(),
            system_time,
        )
    } else {
        None
    }
}

/// Everything that the System channel reports for one record, in order: the
/// cleared log, the event-log service, the command of a new service, the new
/// service, the interactive service and the suspicious service name.
pub open spec fn system_reports(
    config: &ConfigReader,
    event_id: Seq<char>,
    event_data: &EventData,
    system_time: Seq<char>,
) -> Seq<ReportView> {
    lines_report(log_clear_lines(event_id, system_time)) + lines_report(
        event_log_lines(event_id, event_data, system_time),
    ) + finding_report(service_command_finding(config, event_id, event_data, system_time))
        + lines_report(service_created_lines(config, event_id, event_data, system_time))
        + lines_report(interactive_service_lines(config, event_id, event_data, system_time))
        + lines_report(suspicious_service_lines(config, event_id, event_data, system_time))
}

/// The detector for the System channel.
#[derive(Debug)]
pub struct System {}

impl System {
    /// Makes the detector.
    pub fn new() -> (r: System) {
        System {  }
    }

    /// Examines one record of the System channel.
    pub fn detection(
        &mut self,
        config: &ConfigReader,
        event_id: String,
        system: &SystemFields,
        event_data: &EventData,
    ) -> (r: Vec<Report>)
        ensures
            reports_view(r@) == system_reports(
                config,
                event_id@,
                event_data,
                system.time_created.system_time@,
            ),
    {
        let system_time = &system.time_created.system_time;
        let mut reports: Vec<Report> = Vec::new();
        assert(reports_view(reports@) =~= Seq::<ReportView>::empty());
        push_lines(&mut reports, self.system_log_clear(&event_id, system_time));
        push_lines(&mut reports, self.windows_event_log(&event_id, event_data, system_time));
        push_finding(
            &mut reports,
            self.new_service_command(config, &event_id, event_data, system_time),
        );
        push_lines(
            &mut reports,
            self.new_service_created(config, &event_id, event_data, system_time),
        );
        push_lines(
            &mut reports,
            self.interactive_service_warning(config, &event_id, event_data, system_time),
        );
        push_lines(
            &mut reports,
            self.suspicious_service_name(config, &event_id, event_data, system_time),
        );
        assert(reports_view(reports@) =~= system_reports(
            config,
            event_id@,
            event_data,
            system.time_created.system_time@,
        ));
        reports
    }

    /// Analyses the image path of a new service as a command line.
    pub fn new_service_command(
        &mut self,
        config: &ConfigReader,
        event_id: &String,
        event_data: &EventData,
        system_time: &String,
    ) -> (r: Option<Finding>)
        ensures
            finding_view(r) == service_command_finding(config, event_id@, event_data, system_time@),
    {
        if !str_eq(event_id.as_str(), "7045") {
            return Option::None;
        }
        let servicename = field(event_data, "ServiceName");
        let commandline = field(event_data, "ImagePath");
        if commandline.is_empty() {
            return Option::None;
        }
        proof {
            reveal_strlit("");
        }
        assert(""@ =~= Seq::<char>::empty());
        check_command(config, 7045, commandline, 1000, 0, servicename, "", system_time.as_str())
    }

    /// Reports that the System log was cleared.
    pub fn system_log_clear(&mut self, event_id: &String, system_time: &String) -> (r: Option<
        Vec<String>,
    >)
        ensures
            lines_view(r) == log_clear_lines(event_id@, system_time@),
    {
        if !str_eq(event_id.as_str(), "104") {
            return Option::None;
        }
        let mut msges: Vec<String> = Vec::new();
        msges.push(prefixed("Date : ", system_time.as_str()));
        msges.push(String::from_str("Message : System Log Clear"));
        msges.push(String::from_str("Results : The System log was cleared."));
        assert(row_view(msges@) =~= log_clear_lines(event_id@, system_time@).unwrap());
        Option::Some(msges)
    }

    /// Reports a new service whose name a rule matches.
    pub fn new_service_created(
        &mut self,
        config: &ConfigReader,
        event_id: &String,
        event_data: &EventData,
        system_time: &String,
    ) -> (r: Option<Vec<String>>)
        ensures
            lines_view(r) == service_created_lines(config, event_id@, event_data, system_time@),
    {
        if !str_eq(event_id.as_str(), "7045") {
            return Option::None;
        }
        let servicename = field(event_data, "ServiceName");
        let commandline = field(event_data, "ImagePath");
        let text = check_regex(config, servicename, 1);
        let mut msges: Vec<String> = Vec::new();
        if !text.as_str().is_empty() {
            msges.push(prefixed("Date : ", system_time.as_str()));
            msges.push(String::from_str("Message : New Service Created"));
            msges.push(prefixed("Command : ", commandline));
            msges.push(prefixed("Results : Service name: ", servicename));
            msges.push(prefixed("Results : ", text.as_str()));
        }
        assert(row_view(msges@) =~= service_created_lines(
            config,
            event_id@,
            event_data,
            system_time@,
        ).unwrap());
        Option::Some(msges)
    }

    /// Reports an interactive service.
    pub fn interactive_service_warning(
        &mut self,
        config: &ConfigReader,
        event_id: &String,
        event_data: &EventData,
        system_time: &String,
    ) -> (r: Option<Vec<String>>)
        ensures
            lines_view(r) == interactive_service_lines(config, event_id@, event_data, system_time@),
    {
        if !str_eq(event_id.as_str(), "7030") {
            return Option::None;
        }
        let servicename = field(event_data, "param1");
        let mut msges: Vec<String> = Vec::new();
        msges.push(prefixed("Date    : ", system_time.as_str()));
        msges.push(String::from_str("Message : Interactive service warning"));
        msges.push(prefixed("Results : Service name: ", servicename));
        msges.push(
            String::from_str(
                "Results : Malware (and some third party software) trigger this warning",
            ),
        );
        msges.push(check_regex(config, servicename, 1));
        assert(row_view(msges@) =~= interactive_service_lines(
            config,
            event_id@,
            event_data,
            system_time@,
        ).unwrap());
        Option::Some(msges)
    }

    /// Reports a service whose name a rule matches.
    pub fn suspicious_service_name(
        &mut self,
        config: &ConfigReader,
        event_id: &String,
        event_data: &EventData,
        system_time: &String,
    ) -> (r: Option<Vec<String>>)
        ensures
            lines_view(r) == suspicious_service_lines(config, event_id@, event_data, system_time@),
    {
        if !str_eq(event_id.as_str(), "7036") {
            return Option::None;
        }
        let servicename = field(event_data, "param1");
        let text = check_regex(config, servicename, 1);
        let mut msges: Vec<String> = Vec::new();
        if !text.as_str().is_empty() {
            msges.push(prefixed("Date    : ", system_time.as_str()));
            msges.push(String::from_str("Message : Suspicious Service Name"));
            msges.push(prefixed("Results : Service name: ", servicename));
            msges.push(prefixed("Results : ", text.as_str()));
        }
        assert(row_view(msges@) =~= suspicious_service_lines(
            config,
            event_id@,
            event_data,
            system_time@,
        ).unwrap());
        Option::Some(msges)
    }

    /// Reports that the event-log service was stopped or started.
    pub fn windows_event_log(
        &mut self,
        event_id: &String,
        event_data: &EventData,
        system_time: &String,
    ) -> (r: Option<Vec<String>>)
        ensures
            lines_view(r) == event_log_lines(event_id@, event_data, system_time@),
    {
        if !str_eq(event_id.as_str(), "7040") {
            return Option::None;
        }
        let mut msges: Vec<String> = Vec::new();
        if let Some(param1) = event_data.get("param1") {
            if str_eq(param1.as_str(), "Windows Event Log") {
                if let Some(param2) = event_data.get("param2") {
                    if str_eq(param2.as_str(), "disabled") {
                        msges.push(prefixed("Date    : ", system_time.as_str()));
                        msges.push(prefixed("Service name : ", param1.as_str()));
                        msges.push(String::from_str("Message : Event Log Service Stopped"));
                        msges.push(
                            String::from_str(
                                "Results : Selective event log manipulation may follow this event.",
                            ),
                        );
                    } else if str_eq(param2.as_str(), "auto start") {
                        msges.push(prefixed("Date    : ", system_time.as_str()));
                        msges.push(prefixed("Service name : ", param1.as_str()));
                        msges.push(String::from_str("Message : Event Log Service Started"));
                        msges.push(
                            String::from_str(
                                "Results : Selective event log manipulation may precede this event.",
                            ),
                        );
                    }
                }
            }
        }
        assert(row_view(msges@) =~= event_log_lines(event_id@, event_data, system_time@).unwrap());
        Option::Some(msges)
    }
}

} // verus!
