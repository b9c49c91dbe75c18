use rusty_blue::configs::ConfigReader;
use rusty_blue::utils;
use std::io::Write;

const RULES: &str = "Type,regex,string\n\
0,\\\\cvtres\\.exe,Resource File To COFF Object Conversion Utility cvtres.exe\n\
0,mimikatz,Mimikatz\n\
0,(?i)kat,Second rule on the same text\n\
1,^[a-zA-Z]{16}$,Metasploit-style service name: 16 characters\n\
1,mimikatz,Name rule\n\
0,,No pattern\n\
0,nodescription,\n\
0,(,Invalid pattern\n";

const WHITELIST: &str = "regex\n\
^\"C:\\\\Program Files\\\\Google\\\\Update\\\\GoogleUpdate\\.exe\"\n";

fn config() -> ConfigReader {
    ConfigReader::new(RULES, WHITELIST)
}

fn encoded(text: &str) -> String {
    base64::encode(text.as_bytes())
}

fn long_text() -> String {
    "Write-Output 'a perfectly ordinary script that is long enough to make one hundred characters of base64'".to_string()
}

#[test]
fn test_check_regex() {
    let regextext = utils::check_regex(&config(), "\\cvtres.exe", 0);
    assert!(regextext == "Resource File To COFF Object Conversion Utility cvtres.exe\n");
}

#[test]
fn test_check_creator() {
    let mut creatortext = utils::check_creator("powershell", "PSEXESVC");
    assert!(creatortext == "PowerShell launched via PsExec: PSEXESVC\n");
    creatortext = utils::check_creator("powershell", "WmiPrvSE");
    assert!(creatortext == "PowerShell launched via WMI: WmiPrvSE\n");
}

#[test]
fn test_check_obfu() {
    let obfutext = utils::check_obfu(&config(), "string");
    assert!(obfutext != "Possible command obfuscation: 100% zeroes and ones (possible numeric or binary encoding)\n");
    assert!(obfutext == "");
}

#[test]
fn test_check_command() {
    let first = utils::check_command(
        &config(),
        1,
        "dir",
        100,
        100,
        "dir",
        "dir",
        &"9/19/2016 9:13:04 PM".to_string(),
    );
    assert!(first.is_none());

    //test return with whitelist.
    let second = utils::check_command(
        &config(),
        1,
        "\"C:\\Program Files\\Google\\Update\\GoogleUpdate.exe\"",
        100,
        100,
        "dir",
        "dir",
        &"9/19/2016 9:13:04 PM".to_string(),
    );
    assert!(second.is_none());
}

#[test]
fn creator_is_checked_only_for_the_exact_command() {
    assert_eq!(utils::check_creator("powershell", ""), "");
    assert_eq!(utils::check_creator("powershell", "explorer"), "");
    assert_eq!(utils::check_creator("Powershell", "PSEXESVC"), "");
    assert_eq!(utils::check_creator("powershell ", "PSEXESVC"), "");
    assert_eq!(utils::check_creator("powershell", "psexesvc"), "");
    assert_eq!(utils::check_creator("cmd", "WmiPrvSE"), "");
}

#[test]
fn binary_digits_are_reported_with_their_share() {
    assert_eq!(
        utils::check_obfu(&config(), "01010101"),
        "Possible command obfuscation: 100% zeroes and ones (possible numeric or binary encoding)\n"
    );
    assert_eq!(
        utils::check_obfu(&config(), "0101ab"),
        "Possible command obfuscation: 66% zeroes and ones (possible numeric or binary encoding)\n"
    );
}

#[test]
fn half_binary_digits_are_not_reported() {
    assert_eq!(utils::check_obfu(&config(), "01ab"), "");
    assert_eq!(utils::check_obfu(&config(), ""), "");
}

#[test]
fn few_ordinary_characters_are_reported_with_their_share() {
    assert_eq!(
        utils::check_obfu(&config(), "^^^^^^^^^^"),
        "Possible command obfuscation: only 0% alphanumeric and common symbols\n"
    );
    let mut text = "a".repeat(5);
    text.push_str(&"^".repeat(95));
    assert_eq!(
        utils::check_obfu(&config(), &text),
        "Possible command obfuscation: only 5% alphanumeric and common symbols\n"
    );
}

#[test]
fn obfuscation_is_counted_on_the_lower_cased_text() {
    assert_eq!(utils::check_obfu(&config(), "ABCDEFGHIJ"), "");
}

#[test]
fn threshold_of_ordinary_characters_follows_the_length() {
    // ten characters: the threshold is ten in a hundred, one ordinary character is not under it
    assert_eq!(utils::obfuscation_text(10, 9, 10), "");
    assert_eq!(
        utils::obfuscation_text(10, 10, 10),
        "Possible command obfuscation: only 0% alphanumeric and common symbols\n"
    );
    // a hundred characters: the threshold is 65 in a hundred
    assert_eq!(utils::obfuscation_text(100, 35, 100), "");
    assert_eq!(
        utils::obfuscation_text(100, 36, 100),
        "Possible command obfuscation: only 64% alphanumeric and common symbols\n"
    );
    // 64 characters: 64 in a hundred, so 41 of 64 (64.06 in a hundred) pass and 40 do not
    assert_eq!(utils::obfuscation_text(64, 23, 64), "");
    assert_eq!(
        utils::obfuscation_text(64, 24, 64),
        "Possible command obfuscation: only 62% alphanumeric and common symbols\n"
    );
}

#[test]
fn both_obfuscation_findings_come_in_order() {
    assert_eq!(
        utils::obfuscation_text(200, 100, 50),
        "Possible command obfuscation: only 50% alphanumeric and common symbols\n\
Possible command obfuscation: 75% zeroes and ones (possible numeric or binary encoding)\n"
    );
    assert_eq!(utils::obfuscation_text(0, 0, 0), "");
    assert_eq!(utils::obfuscation_text(3, 1, 2), "");
    assert_eq!(
        utils::obfuscation_text(3, 3, 1),
        "Possible command obfuscation: only 0% alphanumeric and common symbols\n\
Possible command obfuscation: 66% zeroes and ones (possible numeric or binary encoding)\n"
    );
}

#[test]
fn rules_are_scoped_by_domain() {
    let config = config();
    assert_eq!(utils::check_regex(&config, "abcdefghABCDEFGH", 0), "");
    assert_eq!(
        utils::check_regex(&config, "abcdefghABCDEFGH", 1),
        "Metasploit-style service name: 16 characters\n"
    );
    assert_eq!(utils::check_regex(&config, "\\cvtres.exe", 1), "");
    assert_eq!(utils::check_regex(&config, "\\cvtres.exe", 2), "");
    assert_eq!(utils::check_regex(&config, "mimikatz", 1), "Name rule\n");
}

#[test]
fn matching_rules_are_joined_in_table_order() {
    assert_eq!(
        utils::check_regex(&config(), "invoke-mimikatz", 0),
        "Mimikatz\nSecond rule on the same text\n"
    );
}

#[test]
fn rules_without_pattern_or_description_never_fire() {
    let config = config();
    assert_eq!(utils::check_regex(&config, "nodescription", 0), "");
    assert_eq!(utils::check_regex(&config, "(", 0), "");
    assert_eq!(utils::check_regex(&config, "", 0), "");
}

#[test]
fn length_finding_names_the_threshold() {
    assert_eq!(utils::check_length("abcd", 3), "Long Command Line: greater than 3 bytes\n");
    assert_eq!(utils::check_length("abc", 3), "");
    assert_eq!(utils::check_length("", 0), "");
    assert_eq!(
        utils::check_length(&"a".repeat(1001), 1000),
        "Long Command Line: greater than 1000 bytes\n"
    );
    assert_eq!(utils::check_length(&"a".repeat(1000), 1000), "");
    // the length is counted in bytes
    assert_eq!(
        utils::check_length("\u{30db}", 2),
        "Long Command Line: greater than 2 bytes\n"
    );
}

#[test]
fn whitelist_vetoes_every_finding() {
    let config = config();
    let mut command = "\"C:\\Program Files\\Google\\Update\\GoogleUpdate.exe\" mimikatz ".to_string();
    command.push_str(&"0".repeat(2000));
    assert!(utils::whitelisted(&config, &command));
    assert!(utils::check_command(&config, 1, &command, 10, 0, "", "", "now").is_none());
    let same = command.replacen("\"C:", "C:", 1);
    assert!(!utils::whitelisted(&config, &same));
    assert!(utils::check_command(&config, 1, &same, 10, 0, "", "", "now").is_some());
}

#[test]
fn findings_are_joined_in_order() {
    let config = config();
    let command = format!("mimikatz {}", "0".repeat(30));
    let finding = utils::check_command(&config, 4688, &command, 20, 0, "svc", "", "2020-01-01").unwrap();
    assert_eq!(finding.timestamp, "2020-01-01");
    assert_eq!(finding.event_id, 4688);
    assert_eq!(finding.headline, "Suspicious Command Line");
    assert_eq!(finding.service_name, None);
    assert_eq!(finding.command, command);
    assert_eq!(
        finding.result,
        "Long Command Line: greater than 20 bytes\n\
Possible command obfuscation: 76% zeroes and ones (possible numeric or binary encoding)\n\
Mimikatz\nSecond rule on the same text\n"
    );
    assert_eq!(finding.decoded, None);
}

#[test]
fn service_command_carries_the_service_name() {
    let finding = utils::check_command(&config(), 7045, "mimikatz", 1000, 1, "evil", "", "t").unwrap();
    assert_eq!(finding.headline, "Suspicious Service Command");
    assert_eq!(finding.service_name, Some("evil".to_string()));
    assert_eq!(finding.result, "Mimikatz\nSecond rule on the same text\n");
}

#[test]
fn creator_finding_is_part_of_the_result() {
    let finding = utils::check_command(&config(), 1, "powershell", 1000, 0, "", "PSEXESVC", "t").unwrap();
    assert!(finding.result.contains("PowerShell launched via PsExec: PSEXESVC"));
    assert_eq!(finding.result, "PowerShell launched via PsExec: PSEXESVC\n");
}

#[test]
fn analysis_is_repeatable() {
    let config = config();
    let command = format!("mimikatz {}", "1".repeat(40));
    let first = utils::check_command(&config, 1, &command, 5, 0, "", "", "t").unwrap();
    let second = utils::check_command(&config, 1, &command, 5, 0, "", "", "t").unwrap();
    assert_eq!(first.result.as_bytes(), second.result.as_bytes());
    let third = utils::check_command(&config, 7, &command, 5, 1, "svc", "", "later").unwrap();
    assert_eq!(first.result, third.result);
}

#[test]
fn nothing_found_is_no_finding() {
    let finding = utils::make_finding(1, "dir", 0, "", "t", String::new(), None);
    assert!(finding.is_none());
    let finding = utils::make_finding(1, "dir", 0, "svc", "t", "x\n".to_string(), Some("d".to_string())).unwrap();
    assert_eq!(finding.result, "x\n");
    assert_eq!(finding.decoded, Some("d".to_string()));
    assert_eq!(finding.service_name, None);
    assert_eq!(finding.headline, "Suspicious Command Line");
}

#[test]
fn encoded_command_is_decoded_and_scanned() {
    let config = config();
    let script = format!("{} mimikatz", long_text());
    let command = format!("powershell -enc -Enc {}", encoded(&script));
    assert_eq!(utils::extract_payload(&config, &command), encoded(&script));
    let finding = utils::check_command(&config, 1, &command, 100000, 0, "", "", "t").unwrap();
    assert_eq!(finding.decoded, Some(script));
    assert_eq!(
        finding.result,
        "Base64-encoded function\nMimikatz\nSecond rule on the same text\n"
    );
}

#[test]
fn base64_call_is_decoded_and_scanned() {
    let config = config();
    let script = format!("{} mimikatz", long_text());
    let command = format!(
        "IEX ([Text.Encoding]::UTF8.GetString([Convert]::FromBase64String('{}')))",
        encoded(&script)
    );
    assert_eq!(utils::extract_payload(&config, &command), encoded(&script));
    let finding = utils::check_command(&config, 1, &command, 100000, 0, "", "", "t").unwrap();
    assert_eq!(finding.decoded, Some(script));
    assert_eq!(
        finding.result,
        "Base64-encoded function\nMimikatz\nSecond rule on the same text\n"
    );
}

#[test]
fn decoding_is_one_level_deep() {
    let config = config();
    let inner = format!("powershell -enc -Enc {}", encoded(&format!("{} mimikatz", long_text())));
    let command = format!("powershell -enc -Enc {}", encoded(&inner));
    let finding = utils::check_command(&config, 1, &command, 100000, 0, "", "", "t").unwrap();
    assert_eq!(finding.decoded, Some(inner));
    assert_eq!(finding.result.matches("Base64-encoded function").count(), 1);
    assert_eq!(finding.result, "Base64-encoded function\n");
}

#[test]
fn compressed_payload_is_announced_and_not_scanned() {
    let config = config();
    let script = format!("{} mimikatz {}", long_text(), long_text());
    let mut encoder = flate2::write::GzEncoder::new(Vec::new(), flate2::Compression::none());
    encoder.write_all(script.as_bytes()).unwrap();
    let payload = base64::encode(encoder.finish().unwrap());
    assert!(payload.len() >= 100);
    let command = format!("IO.Compression.GzipStream ::Decompress -enc -Enc {}", payload);
    let finding = utils::check_command(&config, 1, &command, 100000, 0, "", "", "t").unwrap();
    assert_eq!(finding.decoded, Some(script));
    assert_eq!(finding.result, "Base64-encoded and compressed function\n");
}

#[test]
fn invalid_payloads_are_skipped() {
    let config = config();
    // not base64
    let command = format!("powershell -enc -Enc {}!", "A".repeat(120));
    assert!(utils::check_command(&config, 1, &command, 100000, 0, "", "", "t").is_none());
    assert_eq!(utils::decode_payload("!!!", false), None);
    // base64, not text
    assert_eq!(utils::decode_payload(&base64::encode([0xffu8, 0xfe, 0xfd]), false), None);
    // base64, not a compressed stream
    assert_eq!(utils::decode_payload(&encoded("plain"), true), None);
    // no payload at all
    assert_eq!(utils::decode_payload("", false), None);
    assert_eq!(utils::decode_payload(&encoded("plain"), false), Some("plain".to_string()));
    assert_eq!(utils::extract_payload(&config, "dir"), "");
}
