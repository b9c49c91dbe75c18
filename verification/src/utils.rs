//! The command-line suspicion analyzer.
//!
//! A command line is held against the whitelist, its length, its share of
//! ordinary characters and of binary digits, the rule table, the process that
//! created it, and what an embedded base64 payload decodes to.

use crate::codec::{
    base64_decoded, decode_base64, decode_utf8_text, gunzip, gzip_text, lowercase_of, to_lowercase,
    utf8_text,
};
use crate::configs::ConfigReader;
use crate::pattern::{has_match, pattern_matches, remove_matches, without_matches};
use crate::text::{
    cell, cell_of, decimal, decimal_digits, prefixed, row_view, str_eq, table_view,
};
use vstd::prelude::*;
use vstd::string::StrSliceExecFns;
use vstd::utf8::encode_utf8;

verus! {

/// The warning for PowerShell started by a tool of lateral movement: the
/// command is exactly `powershell` and the creator is the PsExec service or
/// the WMI provider host. Empty in every other case.
pub open spec fn creator_text(command: Seq<char>, creator: Seq<char>) -> Seq<char> {
    if creator.len() > 0 && command == "powershell"@ {
        if creator == "PSEXESVC"@ {
            "PowerShell launched via PsExec: "@ + creator + "\n"@
        } else if creator == "WmiPrvSE"@ {
            "PowerShell launched via WMI: "@ + creator + "\n"@
        } else {
            Seq::<char>::empty()
        }
    } else {
        Seq::<char>::empty()
    }
}

/// Reports PowerShell that was started through PsExec or WMI.
pub fn check_creator(command: &str, creator: &str) -> (creatortext: String)
    ensures
        creatortext@ == creator_text(command@, creator@),
{
    let mut creatortext = String::new();
    if !creator.is_empty() {
        if str_eq(command, "powershell") {
            if str_eq(creator, "PSEXESVC") {
                creatortext.append("PowerShell launched via PsExec: ");
                creatortext.append(creator);
                creatortext.append("\n");
            } else if str_eq(creator, "WmiPrvSE") {
                creatortext.append("PowerShell launched via WMI: ");
                creatortext.append(creator);
                creatortext.append("\n");
            }
        }
    }
    assert(creatortext@ =~= creator_text(command@, creator@));
    creatortext
}

/// The number of characters that a removal took out of a text of `len`
/// characters of which `rest` are left.
pub open spec fn removed_count(len: int, rest: int) -> int {
    if rest <= len {
        len - rest
    } else {
        0
    }
}

/// Whether the share of ordinary characters is under the threshold: 65 in a
/// hundred, or `len` in a hundred for a text shorter than 65 characters.
pub open spec fn few_ordinary(len: int, ordinary: int) -> bool {
    len > 0 && if len < 65 {
        ordinary * 100 < len * len
    } else {
        ordinary * 100 < 65 * len
    }
}

/// Whether more than half of the characters are binary digits.
pub open spec fn mostly_binary(len: int, binary: int) -> bool {
    len > 0 && binary * 2 > len
}

/// The share of `part` in `len`, in hundredths, rounded down.
pub open spec fn percent_of(len: int, part: int) -> nat {
    if len > 0 && part >= 0 {
        (part * 100 / len) as nat
    } else {
        0
    }
}

/// The obfuscation findings for a lower-cased text of `len` characters, of
/// which `other` are neither alphanumeric nor common symbols and `nonbinary`
/// are not binary digits.
pub open spec fn obfuscation_of_counts(len: int, other: int, nonbinary: int) -> Seq<char> {
    let ordinary = removed_count(len, other);
    let binary = removed_count(len, nonbinary);
    let first = if few_ordinary(len, ordinary) {
        "Possible command obfuscation: only "@ + decimal_digits(percent_of(len, ordinary))
            + "% alphanumeric and common symbols\n"@
    } else {
        Seq::<char>::empty()
    };
    let second = if mostly_binary(len, binary) {
        "Possible command obfuscation: "@ + decimal_digits(percent_of(len, binary))
            + "% zeroes and ones (possible numeric or binary encoding)\n"@
    } else {
        Seq::<char>::empty()
    };
    first + second
}

/// The share of `part` in `len`, in hundredths, rounded down.
fn percent(len: usize, part: usize) -> (p: usize)
    requires
        0 < len,
        part <= len,
    ensures
        p == percent_of(len as int, part as int),
        p <= 100,
{
    let wide: u128 = (part as u128) * 100 / (len as u128);
    assert(part * 100 / (len as int) <= 100) by (nonlinear_arith)
        requires
            0 < len,
            0 <= part <= len,
    ;
    wide as usize
}

/// Words the obfuscation findings from the three character counts of a
/// lower-cased text: its length, what is left once the alphanumeric
/// characters and common symbols are removed, and what is left once the
/// binary digits are removed.
pub fn obfuscation_text(length: usize, noalpha_len: usize, nobinary_len: usize) -> (obfutext:
    String)
    ensures
        obfutext@ == obfuscation_of_counts(length as int, noalpha_len as int, nobinary_len as int),
{
    let mut obfutext = String::new();
    if length > 0 {
        let ordinary: usize = if noalpha_len <= length {
            length - noalpha_len
        } else {
            0
        };
        let binary: usize = if nobinary_len <= length {
            length - nobinary_len
        } else {
            0
        };
        let few: bool = if length < 65 {
            assert(length * length < 65 * 65) by (nonlinear_arith)
                requires
                    0 <= length < 65,
            ;
            (ordinary as u128) * 100 < (length as u128) * (length as u128)
        } else {
            (ordinary as u128) * 100 < 65 * (length as u128)
        };
        if few {
            obfutext.append("Possible command obfuscation: only ");
            obfutext.append(decimal(percent(length, ordinary)).as_str());
            obfutext.append("% alphanumeric and common symbols\n");
        }
        if (binary as u128) * 2 > length as u128 {
            obfutext.append("Possible command obfuscation: ");
            obfutext.append(decimal(percent(length, binary)).as_str());
            obfutext.append("% zeroes and ones (possible numeric or binary encoding)\n");
        }
    }
    assert(obfutext@ =~= obfuscation_of_counts(
        length as int,
        noalpha_len as int,
        nobinary_len as int,
    ));
    obfutext
}

/// The obfuscation findings for `text` under the two character classes
/// `noalpha` and `nobinary`, counted on the lower-cased text.
pub open spec fn obfuscation_of(noalpha: Seq<char>, nobinary: Seq<char>, text: Seq<char>) -> Seq<
    char,
> {
    let lower = lowercase_of(text);
    obfuscation_of_counts(
        lower.len() as int,
        without_matches(noalpha, lower).len() as int,
        without_matches(nobinary, lower).len() as int,
    )
}

/// Reports a command whose share of alphanumeric characters and common
/// symbols is low, and one that consists mostly of binary digits.
pub fn check_obfu(config: &ConfigReader, string: &str) -> (obfutext: String)
    ensures
        obfutext@ == obfuscation_of(config.noalpha_regex@, config.nobinary_regex@, string@),
{
    let lowercasestring = to_lowercase(string);
    let length = lowercasestring.as_str().unicode_len();
    let noalphastring = remove_matches(config.noalpha_regex.as_str(), lowercasestring.as_str());
    let nobinarystring = remove_matches(config.nobinary_regex.as_str(), lowercasestring.as_str());
    obfuscation_text(
        length,
        noalphastring.as_str().unicode_len(),
        nobinarystring.as_str().unicode_len(),
    )
}

/// Whether a row of the rule table fires on `text` for `domain`: its first
/// cell is the domain in decimal, its pattern is not empty, was compiled and
/// matches, and its description is not empty.
pub open spec fn row_fires(
    row: Seq<Seq<char>>,
    compiled: Set<Seq<char>>,
    text: Seq<char>,
    domain: nat,
) -> bool {
    &&& cell_of(row, 0) == decimal_digits(domain)
    &&& cell_of(row, 1).len() > 0
    &&& compiled.contains(cell_of(row, 1))
    &&& pattern_matches(cell_of(row, 1), text)
    &&& cell_of(row, 2).len() > 0
}

/// The descriptions of the rows that fire, each followed by a line feed, in
/// the order of the table.
pub open spec fn matched_text(
    table: Seq<Seq<Seq<char>>>,
    compiled: Set<Seq<char>>,
    text: Seq<char>,
    domain: nat,
) -> Seq<char>
    decreases table.len(),
{
    if table.len() == 0 {
        Seq::<char>::empty()
    } else {
        let rest = matched_text(table.drop_last(), compiled, text, domain);
        if row_fires(table.last(), compiled, text, domain) {
            rest + cell_of(table.last(), 2) + "\n"@
        } else {
            rest
        }
    }
}

/// What the rules of `domain` in the registry say of `text`.
pub open spec fn rule_text(config: &ConfigReader, text: Seq<char>, domain: nat) -> Seq<char> {
    matched_text(table_view(config.regex@), config.regexes@, text, domain)
}

/// Holds `string` against every rule of the domain `domain` and joins the
/// descriptions of those that match, one to a line, in the order of the
/// table.
pub fn check_regex(config: &ConfigReader, string: &str, domain: usize) -> (regextext: String)
    ensures
        regextext@ == rule_text(config, string@, domain as nat),
{
    let mut regextext = String::new();
    let wanted = decimal(domain);
    let ghost table = table_view(config.regex@);
    let ghost compiled = config.regexes@;
    let mut i: usize = 0;
    assert(table.take(0) =~= Seq::<Seq<Seq<char>>>::empty());
    while i < config.regex.len()
        invariant
            i <= config.regex.len(),
            table == table_view(config.regex@),
            compiled == config.regexes@,
            wanted@ == decimal_digits(domain as nat),
            regextext@ == matched_text(table.take(i as int), compiled, string@, domain as nat),
        decreases config.regex.len() - i,
    {
        let line = &config.regex[i];
        assert(table.take(i + 1).drop_last() =~= table.take(i as int));
        assert(table.take(i + 1).last() == table[i as int]);
        let type_str = cell(line, 0);
        let regex_str = cell(line, 1);
        let text = cell(line, 2);
        if str_eq(type_str, wanted.as_str()) && !regex_str.is_empty() && config.regexes.contains_key(
            regex_str,
        ) && has_match(regex_str, string) && !text.is_empty() {
            regextext.append(text);
            regextext.append("\n");
            assert(regextext@ =~= matched_text(
                table.take(i + 1),
                compiled,
                string@,
                domain as nat,
            ));
        }
        i += 1;
    }
    assert(table.take(config.regex.len() as int) =~= table);
    regextext
}

/// Whether one of the whitelist patterns matches `command`.
pub open spec fn is_whitelisted(whitelist: Seq<String>, command: Seq<char>) -> bool {
    exists|i: int| 0 <= i < whitelist.len() && pattern_matches(#[trigger] whitelist[i]@, command)
}

/// Whether one of the whitelist patterns of the registry matches `command`.
pub fn whitelisted(config: &ConfigReader, command: &str) -> (r: bool)
    ensures
        r == is_whitelisted(config.whitelist_regex@, command@),
{
    let mut i: usize = 0;
    while i < config.whitelist_regex.len()
        invariant
            i <= config.whitelist_regex.len(),
            forall|k: int| 0 <= k < i ==> !pattern_matches(#[trigger] config.whitelist_regex[k]@, command@),
        decreases config.whitelist_regex.len() - i,
    {
        if has_match(config.whitelist_regex[i].as_str(), command) {
            return true;
        }
        i += 1;
    }
    false
}

/// The finding for a command of `len` bytes under the threshold `minlength`:
/// present exactly when the command is longer, and then naming the
/// threshold.
pub open spec fn length_text(len: nat, minlength: nat) -> Seq<char> {
    if len > minlength {
        "Long Command Line: greater than "@ + decimal_digits(minlength) + " bytes\n"@
    } else {
        Seq::<char>::empty()
    }
}

/// Reports a command that is longer than `minlength` bytes.
pub fn check_length(commandline: &str, minlength: usize) -> (text: String)
    ensures
        text@ == length_text(encode_utf8(commandline@).len(), minlength as nat),
{
    let mut text = String::new();
    if commandline.as_bytes().len() > minlength {
        text.append("Long Command Line: greater than ");
        text.append(decimal(minlength).as_str());
        text.append(" bytes\n");
    }
    assert(text@ =~= length_text(encode_utf8(commandline@).len(), minlength as nat));
    text
}

/// The base64 payload that `command` carries: what follows the
/// encoded-command flag; else, for a call that decodes base64, what stands
/// between the call and the closing quote; else nothing.
pub open spec fn payload_of(config: &ConfigReader, command: Seq<char>) -> Seq<char> {
    if pattern_matches(config.encode_regex@, command) {
        without_matches(config.encoded_command_regex@, command)
    } else if pattern_matches(config.base64_regex@, command) {
        without_matches(
            config.singlequote_regex@,
            without_matches(config.base64_with_before_after_regex@, command),
        )
    } else {
        Seq::<char>::empty()
    }
}

/// Extracts the base64 payload of a command, empty where it carries none.
pub fn extract_payload(config: &ConfigReader, commandline: &str) -> (payload: String)
    ensures
        payload@ == payload_of(config, commandline@),
{
    if has_match(config.encode_regex.as_str(), commandline) {
        remove_matches(config.encoded_command_regex.as_str(), commandline)
    } else if has_match(config.base64_regex.as_str(), commandline) {
        let argument = remove_matches(config.base64_with_before_after_regex.as_str(), commandline);
        remove_matches(config.singlequote_regex.as_str(), argument.as_str())
    } else {
        String::new()
    }
}

/// Whether `command` decompresses what it decodes.
pub open spec fn is_compressed(config: &ConfigReader, command: Seq<char>) -> bool {
    pattern_matches(config.compress_regex@, command)
}

/// The text that a payload stands for: the decoded bytes decompressed, or
/// read as UTF-8. `None` where the payload is empty, is too long for a
/// decoded length to be computed, is not base64, does not decompress or is
/// not text.
pub open spec fn payload_text(payload: Seq<char>, compressed: bool) -> Option<Seq<char>> {
    if payload.len() == 0 || encode_utf8(payload).len() + 3 > usize::MAX {
        None
    } else {
        match base64_decoded(payload) {
            None => None,
            Some(bytes) => if compressed {
                gzip_text(bytes)
            } else {
                utf8_text(bytes)
            },
        }
    }
}

/// Decodes a payload to the text it stands for.
pub fn decode_payload(payload: &str, compressed: bool) -> (decoded: Option<String>)
    ensures
        decoded.is_some() == payload_text(payload@, compressed).is_some(),
        decoded.is_some() ==> decoded.unwrap()@ == payload_text(payload@, compressed).unwrap(),
{
    if payload.is_empty() || payload.as_bytes().len() > usize::MAX - 3 {
        return None;
    }
    match decode_base64(payload) {
        None => None,
        Some(bytes) => {
            if compressed {
                gunzip(bytes.as_slice())
            } else {
                decode_utf8_text(bytes.as_slice())
            }
        },
    }
}

/// What is said of a decoded payload. A compressed one is only announced. One
/// that is not compressed is announced and then held against the obfuscation
/// checks and the command-line rules; it is not searched for a payload of
/// its own.
pub open spec fn decoded_text(
    config: &ConfigReader,
    compressed: bool,
    decoded: Option<Seq<char>>,
) -> Seq<char> {
    match decoded {
        None => Seq::<char>::empty(),
        Some(text) => if compressed {
            "Base64-encoded and compressed function\n"@
        } else {
            "Base64-encoded function\n"@ + obfuscation_of(
                config.noalpha_regex@,
                config.nobinary_regex@,
                text,
            ) + rule_text(config, text, 0)
        },
    }
}

/// Words the findings for a decoded payload.
pub fn check_decoded(config: &ConfigReader, compressed: bool, decoded: &Option<String>) -> (text:
    String)
    ensures
        text@ == decoded_text(
            config,
            compressed,
            match *decoded {
                Some(d) => Some(d@),
                None => None,
            },
        ),
{
    let mut text = String::new();
    match decoded {
        None => {},
        Some(d) => {
            if compressed {
                text.append("Base64-encoded and compressed function\n");
            } else {
                text.append("Base64-encoded function\n");
                text.append(check_obfu(config, d.as_str()).as_str());
                text.append(check_regex(config, d.as_str(), 0).as_str());
            }
        },
    }
    assert(text@ =~= decoded_text(
        config,
        compressed,
        match *decoded {
            Some(d) => Some(d@),
            None => None,
        },
    ));
    text
}

/// One report of suspicious activity on a command line.
pub struct Finding {
    /// The time of the event, as the record gave it.
    pub timestamp: String,
    /// The identifier of the event.
    pub event_id: usize,
    /// The label of the report.
    pub headline: String,
    /// The service that runs the command, where it is a service command.
    pub service_name: Option<String>,
    /// The command line.
    pub command: String,
    /// What was found, one finding to a line.
    pub result: String,
    /// The text that an embedded payload decoded to.
    pub decoded: Option<String>,
}

/// A report as plain values.
pub struct FindingView {
    pub timestamp: Seq<char>,
    pub event_id: usize,
    pub headline: Seq<char>,
    pub service_name: Option<Seq<char>>,
    pub command: Seq<char>,
    pub result: Seq<char>,
    pub decoded: Option<Seq<char>>,
}

/// The view of an optional string.
pub open spec fn option_view(text: Option<String>) -> Option<Seq<char>> {
    match text {
        Some(t) => Some(t@),
        None => None,
    }
}

impl View for Finding {
    type V = FindingView;

    open spec fn view(&self) -> FindingView {
        FindingView {
            timestamp: self.timestamp@,
            event_id: self.event_id,
            headline: self.headline@,
            service_name: option_view(self.service_name),
            command: self.command@,
            result: self.result@,
            decoded: option_view(self.decoded),
        }
    }
}

/// The lines that show a report on the console: the decoded payload if
/// there is one, the time, the event, the label, the name of the service if
/// there is one, the command and the findings.
pub open spec fn finding_lines(finding: FindingView) -> Seq<Seq<char>> {
    let decoded = match finding.decoded {
        Some(text) => seq!["Decoded : "@ + text],
        None => Seq::<Seq<char>>::empty(),
    };
    let service = match finding.service_name {
        Some(name) => seq!["Results : Service name: "@ + name + "\n"@],
        None => Seq::<Seq<char>>::empty(),
    };
    decoded + seq![
        "Date : "@ + finding.timestamp,
        "EventID : "@ + decimal_digits(finding.event_id as nat),
        "Message : "@ + finding.headline,
    ] + service + seq!["command : "@ + finding.command, "result : "@ + finding.result]
}

impl Finding {
    /// Words the report for the console, one string to a line.
    pub fn lines(&self) -> (r: Vec<String>)
        ensures
            row_view(r@) == finding_lines(self@),
    {
        let mut r: Vec<String> = Vec::new();
        match &self.decoded {
            Some(text) => {
                r.push(prefixed("Decoded : ", text.as_str()));
            },
            None => {},
        }
        r.push(prefixed("Date : ", self.timestamp.as_str()));
        r.push(prefixed("EventID : ", decimal(self.event_id).as_str()));
        r.push(prefixed("Message : ", self.headline.as_str()));
        match &self.service_name {
            Some(name) => {
                let mut line = prefixed("Results : Service name: ", name.as_str());
                line.append("\n");
                r.push(line);
            },
            None => {},
        }
        r.push(prefixed("command : ", self.command.as_str()));
        r.push(prefixed("result : ", self.result.as_str()));
        assert(row_view(r@) =~= finding_lines(self@));
        r
    }
}

/// The view of an optional report.
pub open spec fn finding_view(finding: Option<Finding>) -> Option<FindingView> {
    match finding {
        Some(f) => Some(f@),
        None => None,
    }
}

/// The label of a report: one for the command of a service, one for any
/// other command line.
pub open spec fn headline_of(servicecmd: usize) -> Seq<char> {
    if servicecmd != 0 {
        "Suspicious Service Command"@
    } else {
        "Suspicious Command Line"@
    }
}

/// The report of the findings `text` on a command: none where nothing was
/// found; else the event, the command, the findings and the decoded
/// payload, under the label of a service command with the name of the
/// service, or under that of a command line.
pub open spec fn finding_of(
    event_id: usize,
    command: Seq<char>,
    servicecmd: usize,
    servicename: Seq<char>,
    system_time: Seq<char>,
    text: Seq<char>,
    decoded: Option<Seq<char>>,
) -> Option<FindingView> {
    if text.len() == 0 {
        None
    } else {
        Some(
            FindingView {
                timestamp: system_time,
                event_id,
                headline: headline_of(servicecmd),
                service_name: if servicecmd != 0 {
                    Some(servicename)
                } else {
                    None
                },
                command,
                result: text,
                decoded,
            },
        )
    }
}

/// Makes the report for the findings `text`; there is none where nothing
/// was found.
pub fn make_finding(
    event_id: usize,
    commandline: &str,
    servicecmd: usize,
    servicename: &str,
    system_time: &str,
    text: String,
    decoded: Option<String>,
) -> (r: Option<Finding>)
    ensures
        finding_view(r) == finding_of(
            event_id,
            commandline@,
            servicecmd,
            servicename@,
            system_time@,
            text@,
            option_view(decoded),
        ),
{
    if text.as_str().is_empty() {
        return None;
    }
    let mut headline = String::new();
    let service_name = if servicecmd != 0 {
        headline.append("Suspicious Service Command");
        Some(String::from_str(servicename))
    } else {
        headline.append("Suspicious Command Line");
        None
    };
    assert(headline@ =~= headline_of(servicecmd));
    Some(
        Finding {
            timestamp: String::from_str(system_time),
            event_id,
            headline,
            service_name,
            command: String::from_str(commandline),
            result: text,
            decoded,
        },
    )
}

/// What the checks that need no decoding say of a command: its length, its
/// obfuscation, the command-line rules and its creator, in this order.
pub open spec fn plain_text(
    config: &ConfigReader,
    command: Seq<char>,
    minlength: nat,
    creator: Seq<char>,
) -> Seq<char> {
    length_text(encode_utf8(command).len(), minlength) + obfuscation_of(
        config.noalpha_regex@,
        config.nobinary_regex@,
        command,
    ) + rule_text(config, command, 0) + creator_text(command, creator)
}

/// The text that the payload of `command` decodes to, if it has one.
pub open spec fn surfaced_text(config: &ConfigReader, command: Seq<char>) -> Option<Seq<char>> {
    payload_text(payload_of(config, command), is_compressed(config, command))
}

/// Everything that is found on a command that the whitelist does not cover.
pub open spec fn analysis_text(
    config: &ConfigReader,
    command: Seq<char>,
    minlength: nat,
    creator: Seq<char>,
) -> Seq<char> {
    plain_text(config, command, minlength, creator) + decoded_text(
        config,
        is_compressed(config, command),
        surfaced_text(config, command),
    )
}

/// The outcome of the analysis of a command: none for a command that the
/// whitelist covers, whatever else holds of it; otherwise the report of
/// everything that was found, if anything was.
pub open spec fn analysis(
    config: &ConfigReader,
    event_id: usize,
    command: Seq<char>,
    minlength: nat,
    servicecmd: usize,
    servicename: Seq<char>,
    creator: Seq<char>,
    system_time: Seq<char>,
) -> Option<FindingView> {
    if is_whitelisted(config.whitelist_regex@, command) {
        None
    } else {
        finding_of(
            event_id,
            command,
            servicecmd,
            servicename,
            system_time,
            analysis_text(config, command, minlength, creator),
            surfaced_text(config, command),
        )
    }
}

/// Analyses one command line. A command that the whitelist covers is not
/// looked at. Otherwise the command is checked for its length, obfuscation,
/// the command-line rules, its creator and an embedded base64 payload, and
/// is reported if anything was found.
pub fn check_command(
    config: &ConfigReader,
    event_id: usize,
    commandline: &str,
    minlength: usize,
    servicecmd: usize,
    servicename: &str,
    creator: &str,
    system_time: &str,
) -> (r: Option<Finding>)
    ensures
        finding_view(r) == analysis(
            config,
            event_id,
            commandline@,
            minlength as nat,
            servicecmd,
            servicename@,
            creator@,
            system_time@,
        ),
{
    if whitelisted(config, commandline) {
        return None;
    }
    let mut text = check_length(commandline, minlength);
    text.append(check_obfu(config, commandline).as_str());
    text.append(check_regex(config, commandline, 0).as_str());
    text.append(check_creator(commandline, creator).as_str());
    let payload = extract_payload(config, commandline);
    let compressed = has_match(config.compress_regex.as_str(), commandline);
    let decoded = decode_payload(payload.as_str(), compressed);
    text.append(check_decoded(config, compressed, &decoded).as_str());
    assert(option_view(decoded) == surfaced_text(config, commandline@));
    assert(text@ =~= analysis_text(config, commandline@, minlength as nat, creator@));
    make_finding(event_id, commandline, servicecmd, servicename, system_time, text, decoded)
}

} // verus!
