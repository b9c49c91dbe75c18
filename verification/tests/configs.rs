use rusty_blue::configs;
use rusty_blue::configs::ConfigReader;

#[test]
fn test_get_regexes() {
    let mut regexes: Vec<Vec<String>> = Vec::new();
    let mut tmp = Vec::new();
    tmp.push("0".to_string());
    tmp.push("^cmd.exe /c echo [a-z]{6} > \\\\\\\\.\\\\pipe\\\\[a-z]{6}$".to_string());
    tmp.push(
        "Metasploit-style cmd with pipe (possible use of Meterpreter 'getsystem')".to_string(),
    );
    regexes.push(tmp);

    let ret = configs::get_regexes(regexes);

    assert_eq!(
        ret.contains_key("^cmd.exe /c echo [a-z]{6} > \\\\\\\\.\\\\pipe\\\\[a-z]{6}$"),
        true
    );
    assert_eq!(
        ret.contains_key("^cmd.exe /c echo [a-z]{6} > \\\\\\\\.\\\\pipe\\\\[a-z]{6}"),
        false
    );
}

#[test]
fn test_get_whitelist_regex() {
    let mut regexes: Vec<Vec<String>> = Vec::new();
    let mut tmp = Vec::new();
    tmp.push(
        "^\"C:\\\\Program Files\\\\Google\\\\Chrome\\\\Application\\\\chrome\\.exe".to_string(),
    );
    regexes.push(tmp);

    let ret: Vec<String> = configs::get_whitelist_regex(regexes);
    assert_eq!(
        ret.get(0).unwrap().to_string(),
        "^\"C:\\\\Program Files\\\\Google\\\\Chrome\\\\Application\\\\chrome\\.exe"
    );
}

#[test]
fn test_read_csv() {
    let contents = "regex\n\"^\"\"C:\\\\Program Files\\\\Google\\\\Chrome\\\\Application\\\\chrome\\.exe\"\"\"\n";
    let csv = configs::read_csv(contents);
    assert_eq!(
        csv.get(0).unwrap().get(0).unwrap(),
        "^\"C:\\\\Program Files\\\\Google\\\\Chrome\\\\Application\\\\chrome\\.exe\""
    );
}

#[test]
fn test_failed_read_csv() {
    let csv = configs::read_csv("");
    assert_eq!(csv.len(), 0);
    assert_ne!(csv.len(), 1);
}

#[test]
fn read_csv_skips_the_header_and_keeps_the_order() {
    let csv = configs::read_csv("Type,regex,string\n0,a+,first\n1,b+,second\n");
    assert_eq!(csv.len(), 2);
    assert_eq!(csv[0], vec!["0".to_string(), "a+".to_string(), "first".to_string()]);
    assert_eq!(csv[1], vec!["1".to_string(), "b+".to_string(), "second".to_string()]);
}

#[test]
fn read_csv_leaves_out_a_record_of_another_length() {
    let csv = configs::read_csv("Type,regex,string\n0,a+,first\nshort\n1,b+,second\n");
    assert_eq!(csv.len(), 2);
    assert_eq!(csv[0][2], "first");
    assert_eq!(csv[1][2], "second");
}

#[test]
fn get_regexes_leaves_out_empty_and_invalid_patterns() {
    let rows = vec![
        vec!["0".to_string(), "".to_string(), "empty".to_string()],
        vec!["0".to_string(), "(".to_string(), "invalid".to_string()],
        vec!["0".to_string()],
        vec!["1".to_string(), "^ok$".to_string(), "valid".to_string()],
        vec!["0".to_string(), "^ok$".to_string(), "again".to_string()],
    ];
    let ret = configs::get_regexes(rows);
    assert!(ret.contains_key("^ok$"));
    assert!(!ret.contains_key(""));
    assert!(!ret.contains_key("("));
    assert!(!ret.contains_key("valid"));
}

#[test]
fn get_whitelist_regex_leaves_out_empty_and_invalid_patterns() {
    let rows = vec![
        vec!["^a".to_string()],
        vec!["".to_string()],
        vec![],
        vec!["[".to_string()],
        vec!["^b".to_string(), "ignored".to_string()],
    ];
    let ret = configs::get_whitelist_regex(rows);
    assert_eq!(ret, vec!["^a".to_string(), "^b".to_string()]);
}

#[test]
fn registry_is_built_from_file_contents() {
    let config = ConfigReader::new(
        "Type,regex,string\n1,^[a-zA-Z]{16}$,Metasploit-style service name: 16 characters\n",
        "regex\n^\"C:\\\\Program Files\\\\Google\\\\Update\\\\GoogleUpdate\\.exe\"\n",
    );
    assert_eq!(config.regex.len(), 1);
    assert_eq!(config.regex[0][1], "^[a-zA-Z]{16}$");
    assert!(config.regexes.contains_key("^[a-zA-Z]{16}$"));
    assert_eq!(config.whitelist_regex.len(), 1);
    assert_eq!(config.minlength, 1000);
    assert_eq!(config.application_regex, "^Application: ");
    assert_eq!(config.applocker_regex, " was .*$");
    assert_eq!(config.nobinary_regex, "[01]");
    assert_eq!(config.compress_regex, "Compression.GzipStream.*Decompress");
}

#[test]
fn registry_of_unreadable_contents_is_empty() {
    let config = ConfigReader::new("", "");
    assert_eq!(config.regex.len(), 0);
    assert_eq!(config.whitelist_regex.len(), 0);
    assert!(!config.regexes.contains_key("^ok$"));
}
