//! The detector for the Sysmon channel.

use crate::configs::ConfigReader;
use crate::event::{EventData, SystemFields};
use crate::report::{
    finding_report, lines_report, push_finding, push_lines, reports_view, Report, ReportView,
};
use crate::system::{field, field_or_empty};
use crate::text::{lines_view, prefixed, row_view, str_eq};
use crate::utils::{analysis, check_command, finding_view, Finding, FindingView};
use vstd::prelude::*;

verus! {

/// The analysis of a process that was started: for the event 1 with a
/// command line, what the analyzer finds on it, with the parent image as its
/// creator; in every other case none.
pub open spec fn process_finding(
    config: &ConfigReader,
    event_id: Seq<char>,
    event_data: &EventData,
    system_time: Seq<char>,
) -> Option<FindingView> {
    if event_id == "1"@ && event_data@.contains_key("CommandLine"@) {
        analysis(
            config,
            1,
            event_data@["CommandLine"@],
            config.minlength as nat,
            0,
            Seq::<char>::empty(),
            field_or_empty(event_data, "ParentImage"@),
            system_time,
        )
    } else {
        None
    }
}

/// The report of an unsigned image: for the event 7, where the check is
/// switched on and the record says that the image is not signed, the image
/// and what loaded it; nothing where the check is off or the image is
/// signed; for any other event none.
pub open spec fn unsigned_image_lines(
    checkunsigned: u16,
    event_id: Seq<char>,
    event_data: &EventData,
    system_time: Seq<char>,
) -> Option<Seq<Seq<char>>> {
    if event_id == "7"@ {
        if checkunsigned == 1 && field_or_empty(event_data, "Signed"@) == "false"@ {
            Some(
                seq![
                    "Date: "@ + system_time,
                    "EventID: 7"@,
                    "Message: Unsigned Image (DLL)"@,
                    "Result: Loaded by: "@ + field_or_empty(event_data, "Image"@),
                    "Command: "@ + field_or_empty(event_data, "ImageLoaded"@),
                ],
            )
        } else {
            Some(Seq::<Seq<char>>::empty())
        }
    } else {
        None
    }
}

/// Everything that the Sysmon channel reports for one record.
pub open spec fn sysmon_reports(
    config: &ConfigReader,
    checkunsigned: u16,
    event_id: Seq<char>,
    event_data: &EventData,
    system_time: Seq<char>,
) -> Seq<ReportView> {
    finding_report(process_finding(config, event_id, event_data, system_time)) + lines_report(
        unsigned_image_lines(checkunsigned, event_id, event_data, system_time),
    )
}

/// The detector for the Sysmon channel. The check for unsigned images is a
/// switch of the detector and is off unless it is switched on.
pub struct Sysmon {
    checkunsigned: u16,
}

impl Sysmon {
    /// Whether the check for unsigned images is on: 1 for on.
    pub closed spec fn checkunsigned(&self) -> u16 {
        self.checkunsigned
    }

    /// Makes the detector, with the check for unsigned images off.
    pub fn new() -> (r: Sysmon)
        ensures
            r.checkunsigned() == 0,
    {
        Sysmon { checkunsigned: 0 }
    }

    /// Makes the detector with the check for unsigned images on or off.
    pub fn with_unsigned_check(on: bool) -> (r: Sysmon)
        ensures
            r.checkunsigned() == if on {
                1u16
            } else {
                0u16
            },
    {
        Sysmon {
            checkunsigned: if on {
                1
            } else {
                0
            },
        }
    }

    /// Examines one record of the Sysmon channel.
    pub fn detection(
        &mut self,
        config: &ConfigReader,
        event_id: String,
        system: &SystemFields,
        event_data: &EventData,
    ) -> (r: Vec<Report>)
        ensures
            final(self).checkunsigned() == old(self).checkunsigned(),
            reports_view(r@) == sysmon_reports(
                config,
                old(self).checkunsigned(),
                event_id@,
                event_data,
                system.time_created.system_time@,
            ),
    {
        let system_time = system.time_created.system_time.as_str();
        let mut reports: Vec<Report> = Vec::new();
        assert(reports_view(reports@) =~= Seq::<ReportView>::empty());
        push_finding(
            &mut reports,
            self.check_command_lines(config, event_id.as_str(), event_data, system_time),
        );
        push_lines(
            &mut reports,
            self.check_for_unsigned_files(event_id.as_str(), event_data, system_time),
        );
        assert(reports_view(reports@) =~= sysmon_reports(
            config,
            old(self).checkunsigned(),
            event_id@,
            event_data,
            system.time_created.system_time@,
        ));
        reports
    }

    /// Analyses the command line of a process that was started.
    pub fn check_command_lines(
        &mut self,
        config: &ConfigReader,
        event_id: &str,
        event_data: &EventData,
        system_time: &str,
    ) -> (r: Option<Finding>)
        ensures
            final(self).checkunsigned() == old(self).checkunsigned(),
            finding_view(r) == process_finding(config, event_id@, event_data, system_time@),
    {
        if !str_eq(event_id, "1") {
            return None;
        }
        if let Some(command_line) = event_data.get("CommandLine") {
            let creater = field(event_data, "ParentImage");
            proof {
                reveal_strlit("");
            }
            assert(""@ =~= Seq::<char>::empty());
            check_command(
                config,
                1,
                command_line.as_str(),
                config.minlength,
                0,
                "",
                creater,
                system_time,
            )
        } else {
            None
        }
    }

    /// Reports an image that is not signed.
    pub fn check_for_unsigned_files(
        &mut self,
        event_id: &str,
        event_data: &EventData,
        system_time: &str,
    ) -> (r: Option<Vec<String>>)
        ensures
            final(self).checkunsigned() == old(self).checkunsigned(),
            lines_view(r) == unsigned_image_lines(
                old(self).checkunsigned(),
                event_id@,
                event_data,
                system_time@,
            ),
    {
        if !str_eq(event_id, "7") {
            return None;
        }
        let mut msges: Vec<String> = Vec::new();
        if self.checkunsigned == 1 {
            let signed = field(event_data, "Signed");
            if str_eq(signed, "false") {
                let image = field(event_data, "Image");
                let command_line = field(event_data, "ImageLoaded");
                msges.push(prefixed("Date: ", system_time));
                msges.push(String::from_str("EventID: 7"));
                msges.push(String::from_str("Message: Unsigned Image (DLL)"));
                msges.push(prefixed("Result: Loaded by: ", image));
                msges.push(prefixed("Command: ", command_line));
            }
        }
        assert(row_view(msges@) =~= unsigned_image_lines(
            old(self).checkunsigned(),
            event_id@,
            event_data,
            system_time@,
        ).unwrap());
        Some(msges)
    }
}

} // verus!
