//! The notation of messages and the row of the report file.

use vstd::prelude::*;

verus! {

/// Writes messages in the notation of the console: an error and a warning
/// under their labels, an information as it is, each on a line of its own.
pub struct MessageNotation {}

/// One row of the report file: the columns `Filepath`, `Date`, `EventID`,
/// `Message`, `Result` and `Command`.
#[derive(Debug)]
pub struct CsvFormat {
    pub filepath: String,
    pub date: String,
    pub eventid: String,
    pub message: String,
    pub result: String,
    pub command: String,
}

/// A row of the report file as plain values.
pub struct CsvFormatView {
    pub filepath: Seq<char>,
    pub date: Seq<char>,
    pub eventid: Seq<char>,
    pub message: Seq<char>,
    pub result: Seq<char>,
    pub command: Seq<char>,
}

impl View for CsvFormat {
    type V = CsvFormatView;

    open spec fn view(&self) -> CsvFormatView {
        CsvFormatView {
            filepath: self.filepath@,
            date: self.date@,
            eventid: self.eventid@,
            message: self.message@,
            result: self.result@,
            command: self.command@,
        }
    }
}

/// The bytes of one line of output: the label, the contents and a line feed.
pub open spec fn line_bytes(label: Seq<char>, contents: Seq<char>) -> Seq<u8> {
    vstd::utf8::encode_utf8(label) + vstd::utf8::encode_utf8(contents) + seq![10u8]
}

/// Appends one line to `w`.
fn write_line(w: &mut Vec<u8>, label: &str, contents: &str)
    ensures
        final(w)@ == old(w)@ + line_bytes(label@, contents@),
{
    let ghost before = w@;
    w.extend_from_slice(label.as_bytes());
    w.extend_from_slice(contents.as_bytes());
    w.push(10u8);
    assert(w@ =~= before + line_bytes(label@, contents@));
}

impl MessageNotation {
    /// Writes an error: the contents under the label `[ERROR]`.
    pub fn alert(w: &mut Vec<u8>, contents: String) -> (r: Result<(), ()>)
        ensures
            r.is_ok(),
            final(w)@ == old(w)@ + line_bytes("[ERROR] "@, contents@),
    {
        write_line(w, "[ERROR] ", contents.as_str());
        Ok(())
    }

    /// Writes a warning: the contents under the label `[WARN]`.
    pub fn warn(w: &mut Vec<u8>, contents: String) -> (r: Result<(), ()>)
        ensures
            r.is_ok(),
            final(w)@ == old(w)@ + line_bytes("[WARN] "@, contents@),
    {
        write_line(w, "[WARN] ", contents.as_str());
        Ok(())
    }

    /// Writes an information: the contents without a label.
    pub fn info_noheader(w: &mut Vec<u8>, contents: String) -> (r: Result<(), ()>)
        ensures
            r.is_ok(),
            final(w)@ == old(w)@ + line_bytes(Seq::<char>::empty(), contents@),
    {
        proof {
            reveal_strlit("");
        }
        assert(""@ =~= Seq::<char>::empty());
        write_line(w, "", contents.as_str());
        Ok(())
    }
}

} // verus!
