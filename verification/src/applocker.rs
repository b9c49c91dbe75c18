//! The detector for the AppLocker channel.

use crate::configs::ConfigReader;
use crate::event::{EventData, SystemFields};
use crate::pattern::{remove_matches, without_matches};
use crate::report::{lines_report, push_lines, reports_view, Report, ReportView};
use crate::text::{lines_view, prefixed, row_view, str_eq};
use vstd::prelude::*;

verus! {

/// The message of a record, empty where it has none.
pub open spec fn message_or_empty(message: Option<String>) -> Seq<char> {
    match message {
        Some(m) => m@,
        None => Seq::<char>::empty(),
    }
}

/// The message of a record, empty where it has none.
pub fn message_text(system: &SystemFields) -> (r: &str)
    ensures
        r@ == message_or_empty(system.message),
{
    match &system.message {
        Some(m) => m.as_str(),
        None => {
            proof {
                reveal_strlit("");
            }
            assert(""@ =~= Seq::<char>::empty());
            ""
        },
    }
}

/// The report of an AppLocker event: for the event `wanted`, the label, the
/// command that the message names (the message without its trailing
/// verdict) and the message itself; for any other event none.
pub open spec fn applocker_lines(
    config: &ConfigReader,
    wanted: Seq<char>,
    label: Seq<char>,
    event_id: Seq<char>,
    message: Seq<char>,
) -> Option<Seq<Seq<char>>> {
    if event_id == wanted {
        Some(
            seq![
                label,
                "Command : "@ + without_matches(config.applocker_regex@, message),
                "Results : "@ + message,
            ],
        )
    } else {
        None
    }
}

/// Everything that the AppLocker channel reports for one record: the
/// warning for the event 8003, the block for the event 8004.
pub open spec fn applocker_reports(
    config: &ConfigReader,
    event_id: Seq<char>,
    message: Seq<char>,
) -> Seq<ReportView> {
    lines_report(
        applocker_lines(config, "8003"@, "Message Applocker Warning"@, event_id, message),
    ) + lines_report(applocker_lines(config, "8004"@, "Message Applocker Block"@, event_id, message))
}

/// The detector for the AppLocker channel.
pub struct AppLocker {}

impl AppLocker {
    /// Makes the detector.
    pub fn new() -> (r: AppLocker) {
        AppLocker {  }
    }

    /// Examines one record of the AppLocker channel.
    pub fn detection(
        &mut self,
        config: &ConfigReader,
        event_id: String,
        system: &SystemFields,
        _event_data: &EventData,
    ) -> (r: Vec<Report>)
        ensures
            reports_view(r@) == applocker_reports(
                config,
                event_id@,
                message_or_empty(system.message),
            ),
    {
        let mut reports: Vec<Report> = Vec::new();
        assert(reports_view(reports@) =~= Seq::<ReportView>::empty());
        push_lines(&mut reports, self.applocker_log_warning(config, &event_id, system));
        push_lines(&mut reports, self.applocker_log_block(config, &event_id, system));
        assert(reports_view(reports@) =~= applocker_reports(
            config,
            event_id@,
            message_or_empty(system.message),
        ));
        reports
    }

    /// Words the report of one of the two events.
    fn applocker_log(
        config: &ConfigReader,
        wanted: &str,
        label: &str,
        event_id: &String,
        system: &SystemFields,
    ) -> (r: Option<Vec<String>>)
        ensures
            lines_view(r) == applocker_lines(
                config,
                wanted@,
                label@,
                event_id@,
                message_or_empty(system.message),
            ),
    {
        if !str_eq(event_id.as_str(), wanted) {
            return None;
        }
        let message = message_text(system);
        let command = remove_matches(config.applocker_regex.as_str(), message);
        let mut msges: Vec<String> = Vec::new();
        msges.push(String::from_str(label));
        msges.push(prefixed("Command : ", command.as_str()));
        msges.push(prefixed("Results : ", message));
        assert(row_view(msges@) =~= applocker_lines(
            config,
            wanted@,
            label@,
            event_id@,
            message_or_empty(system.message),
        ).unwrap());
        Some(msges)
    }

    /// Reports a program that AppLocker would have blocked.
    pub fn applocker_log_warning(
        &mut self,
        config: &ConfigReader,
        event_id: &String,
        system: &SystemFields,
    ) -> (r: Option<Vec<String>>)
        ensures
            lines_view(r) == applocker_lines(
                config,
                "8003"@,
                "Message Applocker Warning"@,
                event_id@,
                message_or_empty(system.message),
            ),
    {
        AppLocker::applocker_log(config, "8003", "Message Applocker Warning", event_id, system)
    }

    /// Reports a program that AppLocker blocked.
    pub fn applocker_log_block(
        &mut self,
        config: &ConfigReader,
        event_id: &String,
        system: &SystemFields,
    ) -> (r: Option<Vec<String>>)
        ensures
            lines_view(r) == applocker_lines(
                config,
                "8004"@,
                "Message Applocker Block"@,
                event_id@,
                message_or_empty(system.message),
            ),
    {
        AppLocker::applocker_log(config, "8004", "Message Applocker Block", event_id, system)
    }
}

} // verus!
