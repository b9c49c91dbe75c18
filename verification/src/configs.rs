//! The rule registry: detection rules, whitelist and the fixed patterns.

use crate::pattern::{compiles, regex_accepts};
use crate::text::{cell, cell_of, row_view, str_eq, table_view};
use vstd::prelude::*;

verus! {

/// The set of rule patterns that the compiler accepted, each held once.
pub struct Regexes {
    patterns: Vec<String>,
}

impl Regexes {
    /// The patterns held, as a set of texts.
    pub closed spec fn view(&self) -> Set<Seq<char>> {
        Set::new(|p: Seq<char>| exists|i: int| 0 <= i < self.patterns.len() && self.patterns[i]@ == p)
    }

    /// Nothing is held twice.
    pub closed spec fn wf(&self) -> bool {
        forall|i: int, j: int|
            0 <= i < j < self.patterns.len() ==> self.patterns[i]@ != self.patterns[j]@
    }

    /// The empty set.
    pub fn new() -> (r: Regexes)
        ensures
            r@ == Set::<Seq<char>>::empty(),
            r.wf(),
    {
        let r = Regexes { patterns: Vec::new() };
        assert(r@ =~= Set::<Seq<char>>::empty());
        r
    }

    /// Whether `pattern` is held.
    pub fn contains_key(&self, pattern: &str) -> (r: bool)
        ensures
            r == self@.contains(pattern@),
    {
        let mut i: usize = 0;
        while i < self.patterns.len()
            invariant
                i <= self.patterns.len(),
                forall|k: int| 0 <= k < i ==> self.patterns[k]@ != pattern@,
            decreases self.patterns.len() - i,
        {
            if str_eq(self.patterns[i].as_str(), pattern) {
                return true;
            }
            i += 1;
        }
        false
    }

    /// Adds `pattern`; a pattern already held stays as it is.
    pub fn insert(&mut self, pattern: &str)
        requires
            old(self).wf(),
        ensures
            final(self).wf(),
            final(self)@ == old(self)@.insert(pattern@),
    {
        if !self.contains_key(pattern) {
            let ghost before = self.patterns@;
            self.patterns.push(String::from_str(pattern));
            assert(forall|k: int| 0 <= k < before.len() ==> self.patterns[k] == before[k]);
            assert(self.patterns[before.len() as int]@ == pattern@);
            assert(self@ =~= old(self)@.insert(pattern@)) by {
                assert forall|p: Seq<char>| old(self)@.insert(pattern@).contains(p) implies self@.contains(
                    p,
                ) by {
                    if p == pattern@ {
                        assert(self.patterns[before.len() as int]@ == p);
                    } else {
                        let i = choose|i: int| 0 <= i < before.len() && before[i]@ == p;
                        assert(self.patterns[i]@ == p);
                    }
                }
            }
        } else {
            assert(self@ =~= old(self)@.insert(pattern@));
        }
    }
}

/// Whether row `row` of a rule table offers `pattern` to the compiler: it is
/// the row's second cell and is not empty.
pub open spec fn row_offers(row: Seq<Seq<char>>, pattern: Seq<char>) -> bool {
    cell_of(row, 1) == pattern && pattern.len() > 0
}

/// The patterns of the first `n` rows of `table` that the compiler accepts.
pub open spec fn compiled_patterns(table: Seq<Seq<Seq<char>>>, n: int) -> Set<Seq<char>> {
    Set::new(
        |p: Seq<char>|
            regex_accepts(p) && exists|i: int| 0 <= i < n && i < table.len() && row_offers(table[i], p),
    )
}

/// Collects the patterns of a rule table: the second cell of each row, where
/// it is not empty and compiles.
pub fn get_regexes(regexes: Vec<Vec<String>>) -> (ret: Regexes)
    ensures
        ret.wf(),
        ret@ == compiled_patterns(table_view(regexes@), regexes.len() as int),
{
    let mut ret = Regexes::new();
    let ghost table = table_view(regexes@);
    let mut i: usize = 0;
    assert(ret@ =~= compiled_patterns(table, 0));
    while i < regexes.len()
        invariant
            i <= regexes.len(),
            table == table_view(regexes@),
            ret.wf(),
            ret@ == compiled_patterns(table, i as int),
        decreases regexes.len() - i,
    {
        let regex_str = cell(&regexes[i], 1);
        assert(regex_str@ == cell_of(table[i as int], 1));
        if !regex_str.is_empty() && compiles(regex_str) {
            ret.insert(regex_str);
            assert(ret@ =~= compiled_patterns(table, i + 1)) by {
                assert(row_offers(table[i as int], regex_str@));
            }
        } else {
            assert(ret@ =~= compiled_patterns(table, i + 1));
        }
        i += 1;
    }
    ret
}

/// The whitelist patterns of a table: the first cell of each row, in row
/// order, where it is not empty and compiles.
pub open spec fn whitelist_patterns(table: Seq<Seq<Seq<char>>>) -> Seq<Seq<char>>
    decreases table.len(),
{
    if table.len() == 0 {
        Seq::<Seq<char>>::empty()
    } else {
        let rest = whitelist_patterns(table.drop_last());
        let p = cell_of(table.last(), 0);
        if p.len() > 0 && regex_accepts(p) {
            rest.push(p)
        } else {
            rest
        }
    }
}

/// Collects the whitelist patterns of a table, leaving out empty cells and
/// patterns that do not compile.
pub fn get_whitelist_regex(whitelist: Vec<Vec<String>>) -> (ret: Vec<String>)
    ensures
        row_view(ret@) == whitelist_patterns(table_view(whitelist@)),
{
    let mut ret: Vec<String> = Vec::new();
    let ghost table = table_view(whitelist@);
    let mut i: usize = 0;
    assert(table.take(0) =~= Seq::<Seq<Seq<char>>>::empty());
    assert(row_view(ret@) =~= whitelist_patterns(table.take(0)));
    while i < whitelist.len()
        invariant
            i <= whitelist.len(),
            table == table_view(whitelist@),
            row_view(ret@) == whitelist_patterns(table.take(i as int)),
        decreases whitelist.len() - i,
    {
        let r_str = cell(&whitelist[i], 0);
        assert(table.take(i + 1).drop_last() =~= table.take(i as int));
        assert(table.take(i + 1).last() == table[i as int]);
        if !r_str.is_empty() && compiles(r_str) {
            let ghost before = ret@;
            ret.push(String::from_str(r_str));
            assert(row_view(ret@) =~= row_view(before).push(r_str@));
        }
        i += 1;
    }
    assert(table.take(whitelist.len() as int) =~= table);
    ret
}

/// What a `csv::Reader` over `contents` yields, record by record: the cells
/// of a record, or `None` where the reader reports an error for it. The
/// first line is the header and yields no record.
pub uninterp spec fn csv_records(contents: Seq<char>) -> Seq<Option<Seq<Seq<char>>>>;

/// The view of what the reader yielded.
pub open spec fn records_view(records: Seq<Option<Vec<String>>>) -> Seq<Option<Seq<Seq<char>>>> {
    Seq::new(
        records.len(),
        |i: int|
            match records[i] {
                Some(row) => Some(row_view(row@)),
                None => None,
            },
    )
}

/// Reads `contents` with a `csv::Reader` and collects what its `records`
/// iterator yields. Trusted: the result is the named value `csv_records`.
#[verifier::external_body]
fn parse_csv(contents: &str) -> (r: Vec<Option<Vec<String>>>)
    ensures
        records_view(r@) == csv_records(contents@),
{
    let mut reader = csv::Reader::from_reader(contents.as_bytes());
    reader.records().map(
        |record| match record {
            Ok(line) => Some(line.iter().map(|s| s.to_string()).collect()),
            Err(_) => None,
        },
    ).collect()
}

/// The records that were read without error, in order.
pub open spec fn readable_records(records: Seq<Option<Seq<Seq<char>>>>) -> Seq<Seq<Seq<char>>>
    decreases records.len(),
{
    if records.len() == 0 {
        Seq::<Seq<Seq<char>>>::empty()
    } else {
        let rest = readable_records(records.drop_last());
        match records.last() {
            Some(row) => rest.push(row),
            None => rest,
        }
    }
}

/// Keeps the records that were read without error, in order.
pub fn keep_readable(records: Vec<Option<Vec<String>>>) -> (ret: Vec<Vec<String>>)
    ensures
        table_view(ret@) == readable_records(records_view(records@)),
{
    let mut ret: Vec<Vec<String>> = Vec::new();
    let ghost all = records_view(records@);
    let mut records = records;
    let mut i: usize = 0;
    assert(all.take(0) =~= Seq::<Option<Seq<Seq<char>>>>::empty());
    assert(table_view(ret@) =~= readable_records(all.take(0)));
    while i < records.len()
        invariant
            i <= records.len(),
            all.len() == records.len(),
            forall|k: int| i <= k < records.len() ==> #[trigger] records_view(records@)[k] == all[k],
            table_view(ret@) == readable_records(all.take(i as int)),
        decreases records.len() - i,
    {
        assert(all.take(i + 1).drop_last() =~= all.take(i as int));
        assert(all.take(i + 1).last() == all[i as int]);
        assert(records_view(records@)[i as int] == all[i as int]);
        let ghost before_records = records@;
        let mut taken: Option<Vec<String>> = None;
        std::mem::swap(&mut taken, &mut records[i]);
        assert(forall|k: int| i < k < records.len() ==> records@[k] == before_records[k]);
        assert forall|k: int| i < k < records.len() implies #[trigger] records_view(records@)[k]
            == all[k] by {
            assert(records_view(before_records)[k] == all[k]);
        }
        match taken {
            Some(row) => {
                let ghost before = ret@;
                ret.push(row);
                assert(table_view(ret@) =~= table_view(before).push(row_view(row@)));
            },
            None => {},
        }
        i += 1;
    }
    assert(all.take(records.len() as int) =~= all);
    ret
}

/// The table that `contents` hold as comma-separated values: the records
/// after the header line that the reader accepts.
pub open spec fn csv_table(contents: Seq<char>) -> Seq<Seq<Seq<char>>> {
    readable_records(csv_records(contents))
}

/// Parses comma-separated `contents` into a table, leaving out the records
/// that the reader rejects.
pub fn read_csv(contents: &str) -> (ret: Vec<Vec<String>>)
    ensures
        table_view(ret@) == csv_table(contents@),
{
    keep_readable(parse_csv(contents))
}

/// The registry that every detector reads: the rule table, the compiled
/// patterns of its rules, the whitelist, the fixed patterns and the
/// threshold of the length check. It is built once and then only read.
pub struct ConfigReader {
    /// The rule table: each row holds domain, pattern and description.
    pub regex: Vec<Vec<String>>,
    /// Strips the label in front of an application path.
    pub application_regex: String,
    /// Strips the trailing verdict of an AppLocker message.
    pub applocker_regex: String,
    /// Strips everything up to the host-application marker.
    pub powershell_hostapplication_regex: String,
    /// Strips everything from the first line feed on.
    pub powershell_line_feed_regex: String,
    /// The whitelist: a command that matches one of these is not analysed.
    pub whitelist_regex: Vec<String>,
    /// Recognises a command with an encoded-command flag.
    pub encode_regex: String,
    /// Strips everything up to and including the encoded-command flag.
    pub encoded_command_regex: String,
    /// Recognises a call that decodes base64.
    pub base64_regex: String,
    /// Strips everything up to the argument of the decoding call.
    pub base64_with_before_after_regex: String,
    /// Strips everything from the first single quote on.
    pub singlequote_regex: String,
    /// Matches one alphanumeric character or common symbol.
    pub noalpha_regex: String,
    /// Matches one binary digit.
    pub nobinary_regex: String,
    /// The patterns of the rule table that compile.
    pub regexes: Regexes,
    /// Recognises a command that decompresses a stream.
    pub compress_regex: String,
    /// A command longer than this many bytes is reported as long.
    pub minlength: usize,
}

/// The default threshold of the length check.
pub const DEFAULT_MINLENGTH: usize = 1000;

impl ConfigReader {
    /// Whether the fixed patterns and the threshold are the built-in ones.
    pub open spec fn has_builtin_patterns(&self) -> bool {
        &&& self.application_regex@ == "^Application: "@
        &&& self.applocker_regex@ == " was .*$"@
        &&& self.powershell_hostapplication_regex@
            == "(?ms)^.*(ホスト アプリケーション|Host Application) = "@
        &&& self.powershell_line_feed_regex@ == "(?ms)\n.*$"@
        &&& self.encode_regex@ == "\\-enc.*[A-Za-z0-9/+=]{100}"@
        &&& self.encoded_command_regex@ == "^.* \\-Enc(odedCommand)? "@
        &&& self.base64_regex@ == ":FromBase64String\\("@
        &&& self.base64_with_before_after_regex@ == "^.*:FromBase64String\\('*"@
        &&& self.singlequote_regex@ == "'.*$"@
        &&& self.noalpha_regex@ == "[a-z0-9/¥;:|.]"@
        &&& self.nobinary_regex@ == "[01]"@
        &&& self.compress_regex@ == "Compression.GzipStream.*Decompress"@
        &&& self.minlength == DEFAULT_MINLENGTH
    }

    /// Whether the compiled patterns are those of the rule table.
    pub open spec fn wf(&self) -> bool {
        &&& self.regexes.wf()
        &&& self.regexes@ == compiled_patterns(table_view(self.regex@), self.regex.len() as int)
    }

    /// Builds the registry from the contents of the rule file and of the
    /// whitelist file, both comma-separated with a header line. Contents
    /// that cannot be read as such yield an empty table.
    pub fn new(regexes_csv: &str, whitelist_csv: &str) -> (r: ConfigReader)
        ensures
            r.wf(),
            r.has_builtin_patterns(),
            table_view(r.regex@) == csv_table(regexes_csv@),
            row_view(r.whitelist_regex@) == whitelist_patterns(csv_table(whitelist_csv@)),
    {
        ConfigReader {
            regex: read_csv(regexes_csv),
            application_regex: String::from_str("^Application: "),
            applocker_regex: String::from_str(" was .*$"),
            powershell_hostapplication_regex: String::from_str(
                "(?ms)^.*(ホスト アプリケーション|Host Application) = ",
            ),
            powershell_line_feed_regex: String::from_str("(?ms)\n.*$"),
            whitelist_regex: get_whitelist_regex(read_csv(whitelist_csv)),
            encode_regex: String::from_str("\\-enc.*[A-Za-z0-9/+=]{100}"),
            encoded_command_regex: String::from_str("^.* \\-Enc(odedCommand)? "),
            base64_regex: String::from_str(":FromBase64String\\("),
            base64_with_before_after_regex: String::from_str("^.*:FromBase64String\\('*"),
            singlequote_regex: String::from_str("'.*$"),
            noalpha_regex: String::from_str("[a-z0-9/¥;:|.]"),
            nobinary_regex: String::from_str("[01]"),
            regexes: get_regexes(read_csv(regexes_csv)),
            compress_regex: String::from_str("Compression.GzipStream.*Decompress"),
            minlength: DEFAULT_MINLENGTH,
        }
    }
}

} // verus!
