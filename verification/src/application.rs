//! The detector for the Application channel.

use crate::configs::ConfigReader;
use crate::event::{EventData, SystemFields};
use crate::pattern::{remove_matches, without_matches};
use crate::print::{CsvFormat, CsvFormatView};
use crate::report::{reports_view, Report, ReportView};
use crate::text::{lines_of, prefixed, row_view, split_lines, str_eq};
use crate::utils::option_view;
use vstd::prelude::*;

verus! {

/// Whether a record is an EMET event: the event 2 of the provider `EMET`.
pub open spec fn is_emet(event_id: Seq<char>, system: &SystemFields) -> bool {
    event_id == "2"@ && option_view(system.provider.name) == Some("EMET"@)
}

/// What an EMET message says of a block.
pub struct EmetBlock {
    /// The summary: the first line of the message.
    pub text: String,
    /// The application: the fourth line without its label.
    pub command: String,
    /// The user: the fifth line.
    pub username: String,
}

/// An EMET block as plain values.
pub struct EmetBlockView {
    pub text: Seq<char>,
    pub command: Seq<char>,
    pub username: Seq<char>,
}

impl View for EmetBlock {
    type V = EmetBlockView;

    open spec fn view(&self) -> EmetBlockView {
        EmetBlockView { text: self.text@, command: self.command@, username: self.username@ }
    }
}

/// The block that an EMET event with a message of at least five lines
/// describes; none for any other record.
pub open spec fn emet_block(config: &ConfigReader, event_id: Seq<char>, system: &SystemFields) -> Option<
    EmetBlockView,
> {
    if is_emet(event_id, system) && system.message.is_some() && lines_of(
        system.message.unwrap()@,
    ).len() >= 5 {
        let lines = lines_of(system.message.unwrap()@);
        Some(
            EmetBlockView {
                text: lines[0],
                command: without_matches(config.application_regex@, lines[3]),
                username: lines[4],
            },
        )
    } else {
        None
    }
}

/// The lines that report a block.
pub open spec fn emet_lines(system_time: Seq<char>, block: EmetBlockView) -> Seq<Seq<char>> {
    seq![
        "Date    : "@ + system_time,
        "Message: Message EMET Block"@,
        "EventID: 2"@,
        "Command: "@ + block.command,
        "Results: "@ + block.text,
        "Results: "@ + block.username,
    ]
}

/// What the Application channel reports for one record: the block of an
/// EMET event, a warning for an EMET event without a message, and nothing
/// for any other record or for a message of fewer than five lines.
pub open spec fn application_reports(
    config: &ConfigReader,
    event_id: Seq<char>,
    system: &SystemFields,
) -> Seq<ReportView> {
    if !is_emet(event_id, system) {
        Seq::<ReportView>::empty()
    } else if system.message.is_none() {
        seq![
            ReportView::Warning(
                "EMET Message field is blank. Install EMET locally to see full details of this alert"@,
            ),
        ]
    } else {
        match emet_block(config, event_id, system) {
            Some(block) => seq![
                ReportView::Lines(emet_lines(system.time_created.system_time@, block)),
            ],
            None => Seq::<ReportView>::empty(),
        }
    }
}

/// The row of the report file for a block.
pub open spec fn emet_row(
    filepath: Seq<char>,
    system_time: Seq<char>,
    block: EmetBlockView,
) -> CsvFormatView {
    CsvFormatView {
        filepath,
        date: system_time,
        eventid: "2"@,
        message: "Message EMET Block"@,
        result: block.text + "/Username:"@ + block.username,
        command: block.command,
    }
}

/// The detector for the Application channel.
pub struct Application {}

impl Application {
    /// Makes the detector.
    pub fn new() -> (r: Application) {
        Application {  }
    }

    /// Examines one record of the Application channel.
    pub fn detection(
        &mut self,
        config: &ConfigReader,
        event_id: String,
        system: &SystemFields,
        _event_data: &EventData,
    ) -> (r: Vec<Report>)
        ensures
            reports_view(r@) == application_reports(config, event_id@, system),
    {
        let mut reports: Vec<Report> = Vec::new();
        match self.emet(config, event_id.as_str(), system) {
            Some(report) => {
                reports.push(report);
            },
            None => {},
        }
        assert(reports_view(reports@) =~= application_reports(config, event_id@, system));
        reports
    }

    /// Whether the record is an EMET event.
    fn is_emet_event(event_id: &str, system: &SystemFields) -> (r: bool)
        ensures
            r == is_emet(event_id@, system),
    {
        if !str_eq(event_id, "2") {
            return false;
        }
        match &system.provider.name {
            Some(name) => str_eq(name.as_str(), "EMET"),
            None => false,
        }
    }

    /// Reads the block that an EMET event describes from its message.
    pub fn emet_block(&mut self, config: &ConfigReader, event_id: &str, system: &SystemFields) -> (r:
        Option<EmetBlock>)
        ensures
            r.is_some() == emet_block(config, event_id@, system).is_some(),
            r.is_some() ==> r.unwrap()@ == emet_block(config, event_id@, system).unwrap(),
    {
        if !Application::is_emet_event(event_id, system) {
            return None;
        }
        match &system.message {
            Some(message) => {
                let message_split = split_lines(message.as_str());
                if message_split.len() >= 5 {
                    let command = remove_matches(
                        config.application_regex.as_str(),
                        message_split[3].as_str(),
                    );
                    Some(
                        EmetBlock {
                            text: message_split[0].clone(),
                            command,
                            username: message_split[4].clone(),
                        },
                    )
                } else {
                    None
                }
            },
            None => None,
        }
    }

    /// Reports a block by EMET, or warns that the event has no message.
    pub fn emet(&mut self, config: &ConfigReader, event_id: &str, system: &SystemFields) -> (r:
        Option<Report>)
        ensures
            match r {
                Some(report) => application_reports(config, event_id@, system) == seq![report@],
                None => application_reports(config, event_id@, system) == Seq::<ReportView>::empty(),
            },
    {
        if !Application::is_emet_event(event_id, system) {
            return None;
        }
        if system.message.is_none() {
            return Some(
                Report::Warning(
                    String::from_str(
                        "EMET Message field is blank. Install EMET locally to see full details of this alert",
                    ),
                ),
            );
        }
        match self.emet_block(config, event_id, system) {
            Some(block) => {
                let mut msges: Vec<String> = Vec::new();
                msges.push(prefixed("Date    : ", system.time_created.system_time.as_str()));
                msges.push(String::from_str("Message: Message EMET Block"));
                msges.push(String::from_str("EventID: 2"));
                msges.push(prefixed("Command: ", block.command.as_str()));
                msges.push(prefixed("Results: ", block.text.as_str()));
                msges.push(prefixed("Results: ", block.username.as_str()));
                assert(row_view(msges@) =~= emet_lines(system.time_created.system_time@, block@));
                Some(Report::Lines(msges))
            },
            None => None,
        }
    }

    /// The row of the report file for the block that an EMET event
    /// describes; none for any other record.
    pub fn emet_csv(
        &mut self,
        config: &ConfigReader,
        filepath: &str,
        event_id: &str,
        system: &SystemFields,
    ) -> (r: Option<CsvFormat>)
        ensures
            r.is_some() == emet_block(config, event_id@, system).is_some(),
            r.is_some() ==> r.unwrap()@ == emet_row(
                filepath@,
                system.time_created.system_time@,
                emet_block(config, event_id@, system).unwrap(),
            ),
    {
        match self.emet_block(config, event_id, system) {
            Some(block) => {
                let mut result = block.text;
                result.append("/Username:");
                result.append(block.username.as_str());
                Some(
                    CsvFormat {
                        filepath: String::from_str(filepath),
                        date: system.time_created.system_time.clone(),
                        eventid: String::from_str("2"),
                        message: String::from_str("Message EMET Block"),
                        result,
                        command: block.command,
                    },
                )
            },
            None => None,
        }
    }
}

} // verus!
