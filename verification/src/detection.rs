//! The router: it decides which detector examines a record and gathers what
//! the detectors report, in the order of the records.

use crate::application::{application_reports, Application};
use crate::applocker::{applocker_reports, message_or_empty, AppLocker};
use crate::configs::ConfigReader;
use crate::event::Evtx;
use crate::powershell::{powershell_reports, PowerShell};
use crate::report::{reports_view, Report, ReportView};
use crate::sysmon::{sysmon_reports, Sysmon};
use crate::system::{system_reports, System};
use crate::text::str_eq;
use vstd::prelude::*;

verus! {

/// The detector that examines a record.
#[derive(Clone, Copy, Debug, PartialEq, Eq, Structural)]
pub enum Channel {
    Security,
    System,
    Application,
    PowerShell,
    Sysmon,
    AppLocker,
    /// No detector: the channel is not known, or the event is of no interest
    /// on its channel.
    Unrecognized,
}

/// Whether the Security channel examines the event.
pub open spec fn security_event(event_id: Seq<char>) -> bool {
    ||| event_id == "4688"@
    ||| event_id == "4672"@
    ||| event_id == "4720"@
    ||| event_id == "4728"@
    ||| event_id == "4732"@
    ||| event_id == "4756"@
    ||| event_id == "4625"@
    ||| event_id == "4673"@
    ||| event_id == "4674"@
    ||| event_id == "4648"@
    ||| event_id == "1102"@
}

/// Whether the System channel examines the event.
pub open spec fn system_event(event_id: Seq<char>) -> bool {
    ||| event_id == "7030"@
    ||| event_id == "7036"@
    ||| event_id == "7045"@
    ||| event_id == "7040"@
    ||| event_id == "104"@
}

/// Whether the AppLocker channel examines the event.
pub open spec fn applocker_event(event_id: Seq<char>) -> bool {
    ||| event_id == "8003"@
    ||| event_id == "8004"@
    ||| event_id == "8006"@
    ||| event_id == "8007"@
}

/// The detector for a record of the channel `channel` with the event
/// `event_id`: the one of its channel, where the event is one that the
/// channel examines.
pub open spec fn route_of(channel: Seq<char>, event_id: Seq<char>) -> Channel {
    if channel == "Security"@ {
        if security_event(event_id) {
            Channel::Security
        } else {
            Channel::Unrecognized
        }
    } else if channel == "System"@ {
        if system_event(event_id) {
            Channel::System
        } else {
            Channel::Unrecognized
        }
    } else if channel == "Application"@ {
        if event_id == "2"@ {
            Channel::Application
        } else {
            Channel::Unrecognized
        }
    } else if channel == "Microsoft-Windows-PowerShell/Operational"@ {
        if event_id == "4103"@ || event_id == "4104"@ {
            Channel::PowerShell
        } else {
            Channel::Unrecognized
        }
    } else if channel == "Microsoft-Windows-Sysmon/Operational"@ {
        if event_id == "1"@ || event_id == "7"@ {
            Channel::Sysmon
        } else {
            Channel::Unrecognized
        }
    } else if channel == "Microsoft-Windows-AppLocker/EXE and DLL"@ {
        if applocker_event(event_id) {
            Channel::AppLocker
        } else {
            Channel::Unrecognized
        }
    } else {
        Channel::Unrecognized
    }
}

/// Whether `text` is one of `choices`.
fn one_of(text: &str, choices: &[&str]) -> (r: bool)
    ensures
        r == exists|i: int| 0 <= i < choices.len() && text@ == (#[trigger] choices[i])@,
{
    let mut i: usize = 0;
    while i < choices.len()
        invariant
            i <= choices.len(),
            forall|k: int| 0 <= k < i ==> text@ != (#[trigger] choices[k])@,
        decreases choices.len() - i,
    {
        if str_eq(text, choices[i]) {
            return true;
        }
        i += 1;
    }
    false
}

/// Decides which detector examines a record.
pub fn route(channel: &str, event_id: &str) -> (r: Channel)
    ensures
        r == route_of(channel@, event_id@),
{
    if str_eq(channel, "Security") {
        let ids = [
            "4688",
            "4672",
            "4720",
            "4728",
            "4732",
            "4756",
            "4625",
            "4673",
            "4674",
            "4648",
            "1102",
        ];
        if one_of(event_id, &ids) {
            assert(security_event(event_id@));
            Channel::Security
        } else {
            assert(!security_event(event_id@)) by {
                assert(ids[0]@ == "4688"@);
                assert(ids[1]@ == "4672"@);
                assert(ids[2]@ == "4720"@);
                assert(ids[3]@ == "4728"@);
                assert(ids[4]@ == "4732"@);
                assert(ids[5]@ == "4756"@);
                assert(ids[6]@ == "4625"@);
                assert(ids[7]@ == "4673"@);
                assert(ids[8]@ == "4674"@);
                assert(ids[9]@ == "4648"@);
                assert(ids[10]@ == "1102"@);
            }
            Channel::Unrecognized
        }
    } else if str_eq(channel, "System") {
        if str_eq(event_id, "7030") || str_eq(event_id, "7036") || str_eq(event_id, "7045")
            || str_eq(event_id, "7040") || str_eq(event_id, "104") {
            Channel::System
        } else {
            Channel::Unrecognized
        }
    } else if str_eq(channel, "Application") {
        if str_eq(event_id, "2") {
            Channel::Application
        } else {
            Channel::Unrecognized
        }
    } else if str_eq(channel, "Microsoft-Windows-PowerShell/Operational") {
        if str_eq(event_id, "4103") || str_eq(event_id, "4104") {
            Channel::PowerShell
        } else {
            Channel::Unrecognized
        }
    } else if str_eq(channel, "Microsoft-Windows-Sysmon/Operational") {
        if str_eq(event_id, "1") || str_eq(event_id, "7") {
            Channel::Sysmon
        } else {
            Channel::Unrecognized
        }
    } else if str_eq(channel, "Microsoft-Windows-AppLocker/EXE and DLL") {
        if str_eq(event_id, "8003") || str_eq(event_id, "8004") || str_eq(event_id, "8006")
            || str_eq(event_id, "8007") {
            Channel::AppLocker
        } else {
            Channel::Unrecognized
        }
    } else {
        Channel::Unrecognized
    }
}

/// What the detectors report for one record: what the detector of its
/// channel reports, and nothing for a record that no detector examines. The
/// fields of the Security channel are not examined here: its records are
/// recognised and yield no report.
pub open spec fn event_reports(config: &ConfigReader, checkunsigned: u16, event: &Evtx) -> Seq<
    ReportView,
> {
    let event_id = event.system.event_id@;
    let system_time = event.system.time_created.system_time@;
    match route_of(event.system.channel@, event_id) {
        Channel::Security => Seq::<ReportView>::empty(),
        Channel::System => system_reports(config, event_id, &event.event_data, system_time),
        Channel::Application => application_reports(config, event_id, &event.system),
        Channel::PowerShell => powershell_reports(config, event_id, &event.event_data, system_time),
        Channel::Sysmon => sysmon_reports(
            config,
            checkunsigned,
            event_id,
            &event.event_data,
            system_time,
        ),
        Channel::AppLocker => applocker_reports(
            config,
            event_id,
            message_or_empty(event.system.message),
        ),
        Channel::Unrecognized => Seq::<ReportView>::empty(),
    }
}

/// What is reported for one record of the input: the reports of the
/// detectors for a record that was decoded, a diagnostic for one that was
/// not.
pub open spec fn record_reports(
    config: &ConfigReader,
    checkunsigned: u16,
    record: Result<Evtx, String>,
) -> Seq<ReportView> {
    match record {
        Ok(event) => event_reports(config, checkunsigned, &event),
        Err(message) => seq![ReportView::Alert(message@)],
    }
}

/// What is reported for a sequence of records: the reports of each record,
/// in the order of the records.
pub open spec fn all_reports(
    config: &ConfigReader,
    checkunsigned: u16,
    records: Seq<Result<Evtx, String>>,
) -> Seq<ReportView>
    decreases records.len(),
{
    if records.len() == 0 {
        Seq::<ReportView>::empty()
    } else {
        all_reports(config, checkunsigned, records.drop_last()) + record_reports(
            config,
            checkunsigned,
            records.last(),
        )
    }
}

/// The detection driver: it holds one detector for each channel.
pub struct Detection {
    pub system: System,
    pub application: Application,
    pub applocker: AppLocker,
    pub sysmon: Sysmon,
    pub powershell: PowerShell,
}

impl Detection {
    /// Makes the driver with its detectors; the check for unsigned images
    /// is off.
    pub fn new() -> (r: Detection)
        ensures
            r.sysmon.checkunsigned() == 0,
    {
        Detection {
            system: System::new(),
            application: Application::new(),
            applocker: AppLocker::new(),
            sysmon: Sysmon::new(),
            powershell: PowerShell::new(),
        }
    }

    /// Hands one record to the detector of its channel.
    pub fn detect(&mut self, config: &ConfigReader, event: &Evtx) -> (r: Vec<Report>)
        ensures
            final(self).sysmon.checkunsigned() == old(self).sysmon.checkunsigned(),
            reports_view(r@) == event_reports(config, old(self).sysmon.checkunsigned(), event),
    {
        let event_id = event.system.event_id.clone();
        match route(event.system.channel.as_str(), event_id.as_str()) {
            Channel::Security => Vec::new(),
            Channel::System => self.system.detection(
                config,
                event_id,
                &event.system,
                &event.event_data,
            ),
            Channel::Application => self.application.detection(
                config,
                event_id,
                &event.system,
                &event.event_data,
            ),
            Channel::PowerShell => self.powershell.detection(
                config,
                event_id,
                &event.system,
                &event.event_data,
            ),
            Channel::Sysmon => self.sysmon.detection(
                config,
                event_id,
                &event.system,
                &event.event_data,
            ),
            Channel::AppLocker => self.applocker.detection(
                config,
                event_id,
                &event.system,
                &event.event_data,
            ),
            Channel::Unrecognized => Vec::new(),
        }
    }

    /// Examines the records in their order and gathers the reports. A record
    /// that could not be decoded yields a diagnostic and does not stop the
    /// run.
    pub fn start(&mut self, config: &ConfigReader, records: &Vec<Result<Evtx, String>>) -> (r: Vec<
        Report,
    >)
        ensures
            final(self).sysmon.checkunsigned() == old(self).sysmon.checkunsigned(),
            reports_view(r@) == all_reports(config, old(self).sysmon.checkunsigned(), records@),
    {
        let mut reports: Vec<Report> = Vec::new();
        let ghost checkunsigned = self.sysmon.checkunsigned();
        let mut i: usize = 0;
        assert(records@.take(0) =~= Seq::<Result<Evtx, String>>::empty());
        assert(reports_view(reports@) =~= Seq::<ReportView>::empty());
        while i < records.len()
            invariant
                i <= records.len(),
                self.sysmon.checkunsigned() == checkunsigned,
                reports_view(reports@) == all_reports(config, checkunsigned, records@.take(i as int)),
            decreases records.len() - i,
        {
            assert(records@.take(i + 1).drop_last() =~= records@.take(i as int));
            assert(records@.take(i + 1).last() == records@[i as int]);
            let ghost before = reports@;
            let mut found = match &records[i] {
                Ok(event) => self.detect(config, event),
                Err(message) => {
                    let mut alert: Vec<Report> = Vec::new();
                    alert.push(Report::Alert(message.clone()));
                    assert(reports_view(alert@) =~= seq![ReportView::Alert(message@)]);
                    alert
                },
            };
            let ghost part = found@;
            assert(reports_view(part) == record_reports(config, checkunsigned, records@[i as int]));
            reports.append(&mut found);
            assert(reports_view(reports@) =~= reports_view(before) + reports_view(part));
            i += 1;
        }
        assert(records@.take(records.len() as int) =~= records@);
        reports
    }
}

} // verus!
