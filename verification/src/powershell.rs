//! The detector for the PowerShell channel.

use crate::configs::ConfigReader;
use crate::event::{EventData, SystemFields};
use crate::pattern::{remove_matches, without_matches};
use crate::report::{finding_report, push_finding, reports_view, Report, ReportView};
use crate::system::{field, field_or_empty};
use crate::text::{contains_text, has_substring, str_eq};
use crate::utils::{analysis, check_command, finding_view, Finding, FindingView};
use vstd::prelude::*;

verus! {

/// Whether the context of a pipeline names its host application, in English
/// or in Japanese.
pub open spec fn names_host_application(context: Seq<char>) -> bool {
    has_substring(context, "Host Application"@) || has_substring(
        context,
        "ホスト アプリケーション"@,
    )
}

/// The command of a pipeline: its context without everything up to the
/// host-application marker and without everything from the next line feed
/// on.
pub open spec fn pipeline_command(config: &ConfigReader, context: Seq<char>) -> Seq<char> {
    without_matches(
        config.powershell_line_feed_regex@,
        without_matches(config.powershell_hostapplication_regex@, context),
    )
}

/// The analysis of a pipeline that was executed: for the event 4103 whose
/// context names the host application, what the analyzer finds on the
/// command, if the command is not empty; in every other case none.
pub open spec fn pipeline_finding(
    config: &ConfigReader,
    event_id: Seq<char>,
    event_data: &EventData,
    system_time: Seq<char>,
) -> Option<FindingView> {
    let context = field_or_empty(event_data, "ContextInfo"@);
    if event_id == "4103"@ && names_host_application(context) && pipeline_command(
        config,
        context,
    ).len() > 0 {
        analysis(
            config,
            4103,
            pipeline_command(config, context),
            config.minlength as nat,
            0,
            Seq::<char>::empty(),
            Seq::<char>::empty(),
            system_time,
        )
    } else {
        None
    }
}

/// The analysis of a script block: for the event 4104 without a path and
/// with a script text, what the analyzer finds on the text; in every other
/// case none.
pub open spec fn script_block_finding(
    config: &ConfigReader,
    event_id: Seq<char>,
    event_data: &EventData,
    system_time: Seq<char>,
) -> Option<FindingView> {
    let script = field_or_empty(event_data, "ScriptBlockText"@);
    if event_id == "4104"@ && field_or_empty(event_data, "Path"@).len() == 0 && script.len() > 0 {
        analysis(
            config,
            4104,
            script,
            config.minlength as nat,
            0,
            Seq::<char>::empty(),
            Seq::<char>::empty(),
            system_time,
        )
    } else {
        None
    }
}

/// Everything that the PowerShell channel reports for one record.
pub open spec fn powershell_reports(
    config: &ConfigReader,
    event_id: Seq<char>,
    event_data: &EventData,
    system_time: Seq<char>,
) -> Seq<ReportView> {
    finding_report(pipeline_finding(config, event_id, event_data, system_time)) + finding_report(
        script_block_finding(config, event_id, event_data, system_time),
    )
}

/// The detector for the PowerShell channel.
pub struct PowerShell {}

impl PowerShell {
    /// Makes the detector.
    pub fn new() -> (r: PowerShell) {
        PowerShell {  }
    }

    /// Examines one record of the PowerShell channel.
    pub fn detection(
        &mut self,
        config: &ConfigReader,
        event_id: String,
        system: &SystemFields,
        event_data: &EventData,
    ) -> (r: Vec<Report>)
        ensures
            reports_view(r@) == powershell_reports(
                config,
                event_id@,
                event_data,
                system.time_created.system_time@,
            ),
    {
        let system_time = system.time_created.system_time.as_str();
        let mut reports: Vec<Report> = Vec::new();
        assert(reports_view(reports@) =~= Seq::<ReportView>::empty());
        push_finding(
            &mut reports,
            self.execute_pipeline(config, event_id.as_str(), event_data, system_time),
        );
        push_finding(
            &mut reports,
            self.execute_remote_command(config, event_id.as_str(), event_data, system_time),
        );
        assert(reports_view(reports@) =~= powershell_reports(
            config,
            event_id@,
            event_data,
            system.time_created.system_time@,
        ));
        reports
    }

    /// Analyses the command of a pipeline that was executed.
    pub fn execute_pipeline(
        &mut self,
        config: &ConfigReader,
        event_id: &str,
        event_data: &EventData,
        system_time: &str,
    ) -> (r: Option<Finding>)
        ensures
            finding_view(r) == pipeline_finding(config, event_id@, event_data, system_time@),
    {
        if !str_eq(event_id, "4103") {
            return None;
        }
        let commandline = field(event_data, "ContextInfo");
        if contains_text(commandline, "Host Application") || contains_text(
            commandline,
            "ホスト アプリケーション",
        ) {
            let temp_command_with_extra = remove_matches(
                config.powershell_hostapplication_regex.as_str(),
                commandline,
            );
            let command = remove_matches(
                config.powershell_line_feed_regex.as_str(),
                temp_command_with_extra.as_str(),
            );
            if !command.as_str().is_empty() {
                proof {
                    reveal_strlit("");
                }
                assert(""@ =~= Seq::<char>::empty());
                return check_command(
                    config,
                    4103,
                    command.as_str(),
                    config.minlength,
                    0,
                    "",
                    "",
                    system_time,
                );
            }
        }
        None
    }

    /// Analyses the text of a script block that has no path.
    pub fn execute_remote_command(
        &mut self,
        config: &ConfigReader,
        event_id: &str,
        event_data: &EventData,
        system_time: &str,
    ) -> (r: Option<Finding>)
        ensures
            finding_view(r) == script_block_finding(config, event_id@, event_data, system_time@),
    {
        if !str_eq(event_id, "4104") {
            return None;
        }
        let path = field(event_data, "Path");
        if path.is_empty() {
            let commandline = field(event_data, "ScriptBlockText");
            if !commandline.is_empty() {
                proof {
                    reveal_strlit("");
                }
                assert(""@ =~= Seq::<char>::empty());
                return check_command(
                    config,
                    4104,
                    commandline,
                    config.minlength,
                    0,
                    "",
                    "",
                    system_time,
                );
            }
        }
        None
    }
}

} // verus!
