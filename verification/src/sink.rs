//! What goes into a channel's data file: its name, the header that opens
//! it, and one line for each record.

use vstd::prelude::*;
use vstd::string::*;
use crate::scan::EncoderReading;
use crate::text::{
    decimal_digits, lemma_decimal_digits_shape, push_decimal, push_signed_decimal,
    signed_decimal_digits, str_equal,
};

verus! {

/// The stamp with a hyphen in place of each colon, so that it can stand in
/// a file name.
pub open spec fn hyphenated(stamp: Seq<char>) -> Seq<char> {
    Seq::new(
        stamp.len(),
        |i: int|
            if stamp[i] == ':' {
                '-'
            } else {
                stamp[i]
            },
    )
}

/// The name of a data file, without its extension: the sink's name, an
/// underscore and the time of creation.
pub open spec fn file_name_text(name: Seq<char>, stamp: Seq<char>) -> Seq<char> {
    name + "_"@ + hyphenated(stamp)
}

/// The header line that states the sample rate.
pub open spec fn rate_line(sample_rate: nat) -> Seq<char> {
    "%Target Sample Rate: "@ + decimal_digits(sample_rate) + " hz"@
}

/// The header of a data file: the date, and for the two known sinks the
/// sample rate, the columns, their units and their scale.
pub open spec fn header_text(name: Seq<char>, date: Seq<char>, sample_rate: nat) -> Seq<Seq<char>> {
    let first = seq!["%"@ + date];
    if name == "adc"@ {
        first + seq![
            rate_line(sample_rate),
            "%timestamp, grasperLoadCell1, grasperLoadCell2"@,
            "%[ns], [V], [V]"@,
            "%[V]olts resolve to approximately 0.5 kg/V"@,
        ]
    } else if name == "enc"@ {
        first + seq![
            rate_line(sample_rate),
            "%timestamp, encoderCount"@,
            "%[ns], [count]"@,
            "%1 count resolves to approximately 0.05 degrees of rotation"@,
        ]
    } else {
        first
    }
}

/// The line for one encoder reading: timestamp, comma, position.
pub open spec fn encoder_line_text(reading: EncoderReading) -> Seq<char> {
    decimal_digits(reading.timestamp as nat) + ","@ + signed_decimal_digits(reading.pos as int)
}

/// The line for an encoder reading holds digits, one comma and at most one
/// minus sign, so no line feed: written with a line feed after it, it is
/// one complete line.
pub proof fn lemma_encoder_line_is_one_line(reading: EncoderReading)
    ensures
        encoder_line_text(reading).len() >= 3,
        forall|i: int|
            0 <= i < encoder_line_text(reading).len() ==> {
                let c = #[trigger] encoder_line_text(reading)[i];
                ('0' <= c <= '9') || c == ',' || c == '-'
            },
        forall|i: int|
            0 <= i < encoder_line_text(reading).len() ==> #[trigger] encoder_line_text(reading)[i]
                != '\n',
{
    reveal_strlit(",");
    let time = decimal_digits(reading.timestamp as nat);
    let pos = signed_decimal_digits(reading.pos as int);
    let line = encoder_line_text(reading);
    lemma_decimal_digits_shape(reading.timestamp as nat);
    if reading.pos < 0 {
        lemma_decimal_digits_shape((-reading.pos) as nat);
    } else {
        lemma_decimal_digits_shape(reading.pos as nat);
    }
    assert forall|i: int| 0 <= i < line.len() implies {
        let c = #[trigger] line[i];
        ('0' <= c <= '9') || c == ',' || c == '-'
    } by {
        if i < time.len() {
            assert(line[i] == time[i]);
        } else if i == time.len() {
            assert(line[i] == ',');
        } else {
            assert(line[i] == pos[i - time.len() - 1]);
        }
    }
}

/// The characters of each of the given strings.
pub open spec fn texts(lines: Seq<String>) -> Seq<Seq<char>> {
    Seq::new(lines.len(), |i: int| lines[i]@)
}

/// A data file that is to be created.
#[derive(Debug, Clone, PartialEq, Eq)]
pub struct SinkPlan {
    /// The file's name, without its extension.
    pub file_name: String,
    /// The lines that open the file.
    pub header: Vec<String>,
}

/// Replaces each colon of the stamp by a hyphen.
pub fn hyphenate(stamp: &str) -> (out: String)
    ensures
        out@ == hyphenated(stamp@),
{
    let n: usize = stamp.unicode_len();
    let mut out: String = String::new();
    let mut i: usize = 0;
    proof {
        reveal_strlit("-");
    }
    while i < n
        invariant
            n == stamp@.len(),
            i <= n,
            "-"@ == seq!['-'],
            out@ == hyphenated(stamp@).take(i as int),
        decreases n - i,
    {
        let c: char = stamp.get_char(i);
        if c == ':' {
            out.append("-");
        } else {
            out.append(stamp.substring_char(i, i + 1));
        }
        assert(out@ =~= hyphenated(stamp@).take(i + 1));
        i += 1;
    }
    assert(out@ =~= hyphenated(stamp@));
    out
}

/// The name of the data file of the named sink, created at the stamped
/// time.
pub fn sink_file_name(name: &str, stamp: &str) -> (file_name: String)
    ensures
        file_name@ == file_name_text(name@, stamp@),
{
    let mut file_name: String = String::from_str(name);
    file_name.append("_");
    let tail: String = hyphenate(stamp);
    file_name.append(tail.as_str());
    file_name
}

/// The header lines of the named sink's data file.
pub fn header_lines(name: &str, date: &str, sample_rate: usize) -> (lines: Vec<String>)
    ensures
        texts(lines@) == header_text(name@, date@, sample_rate as nat),
{
    let mut lines: Vec<String> = Vec::new();
    let mut first: String = String::from_str("%");
    first.append(date);
    lines.push(first);
    let is_adc: bool = str_equal(name, "adc");
    let is_enc: bool = str_equal(name, "enc");
    if is_adc || is_enc {
        let mut rate: String = String::from_str("%Target Sample Rate: ");
        push_decimal(&mut rate, sample_rate as u64);
        rate.append(" hz");
        lines.push(rate);
        if is_adc {
            lines.push(String::from_str("%timestamp, grasperLoadCell1, grasperLoadCell2"));
            lines.push(String::from_str("%[ns], [V], [V]"));
            lines.push(String::from_str("%[V]olts resolve to approximately 0.5 kg/V"));
        } else {
            lines.push(String::from_str("%timestamp, encoderCount"));
            lines.push(String::from_str("%[ns], [count]"));
            lines.push(
                String::from_str("%1 count resolves to approximately 0.05 degrees of rotation"),
            );
        }
    }
    assert(texts(lines@) =~= header_text(name@, date@, sample_rate as nat));
    lines
}

/// The line that records one encoder reading.
pub fn encoder_line(reading: &EncoderReading) -> (line: String)
    ensures
        line@ == encoder_line_text(*reading),
{
    let mut line: String = String::new();
    push_decimal(&mut line, reading.timestamp);
    line.append(",");
    push_signed_decimal(&mut line, reading.pos as i64);
    assert(line@ =~= encoder_line_text(*reading));
    line
}

/// The data file of the named sink, created at the time that the two
/// stamps give: one for the file's name, one for its first line.
pub fn sink_plan(name: &str, name_stamp: &str, date: &str, sample_rate: usize) -> (plan: SinkPlan)
    ensures
        plan.file_name@ == file_name_text(name@, name_stamp@),
        texts(plan.header@) == header_text(name@, date@, sample_rate as nat),
{
    SinkPlan {
        file_name: sink_file_name(name, name_stamp),
        header: header_lines(name, date, sample_rate),
    }
}

/// Calls `time::now` and renders the local time twice, with `Tm::rfc3339`
/// and with `Tm::rfc822`. Both depend on the clock and on the machine's
/// time zone, so nothing is claimed of either.
#[verifier::external_body]
fn local_time_stamps() -> (stamps: (String, String)) {
    let tm = time::now();
    (tm.rfc3339().to_string(), tm.rfc822().to_string())
}

/// The data file of the named sink, created now.
pub fn open_buffered_file(name: &str, sample_rate: usize) -> (plan: SinkPlan)
    ensures
        exists|name_stamp: Seq<char>, date: Seq<char>|
            plan.file_name@ == #[trigger] file_name_text(name@, name_stamp) && texts(plan.header@)
                == #[trigger] header_text(name@, date, sample_rate as nat),
{
    let stamps: (String, String) = local_time_stamps();
    let plan: SinkPlan = sink_plan(name, stamps.0.as_str(), stamps.1.as_str(), sample_rate);
    assert(plan.file_name@ == file_name_text(name@, stamps.0@));
    assert(texts(plan.header@) == header_text(name@, stamps.1@, sample_rate as nat));
    plan
}

} // verus!
