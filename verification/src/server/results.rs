//! The file in which a test's results are kept: its name, its columns and its rows.

use vstd::prelude::*;
use vstd::string::*;
use crate::packets::{LatencyTestConfig, LatencyTestFrameReport};
use crate::text::{
    all_digits, append_decimal, decimal, decimal_reads_back, decimal_value, is_numeral,
};

verus! {

/// Directory of the results, below the root of the project.
pub const RESULTS_DIR: &'static str = "results";

/// The first line of a results file, without its end.
pub const CSV_COLUMNS: &'static str = "frame_index,shards_sent,shards_received,rtt_us";

/// A reading of the wall clock in local time.
#[derive(Clone, Copy, Debug, PartialEq, Eq)]
pub struct LocalTime {
    pub year: i32,
    pub month: u32,
    pub day: u32,
    pub hour: u32,
    pub minute: u32,
    pub second: u32,
}

/// Whether a year has 366 days.
pub open spec fn is_leap_year(year: int) -> bool {
    year % 4 == 0 && (year % 100 != 0 || year % 400 == 0)
}

/// How many days a month has.
pub open spec fn days_in_month(year: int, month: int) -> int {
    if month == 2 {
        if is_leap_year(year) {
            29
        } else {
            28
        }
    } else if month == 4 || month == 6 || month == 9 || month == 11 {
        30
    } else {
        31
    }
}

/// Whether there is such a moment in the calendar.
pub open spec fn is_moment(t: LocalTime) -> bool {
    &&& -262143 <= t.year <= 262142
    &&& 1 <= t.month <= 12
    &&& 1 <= t.day <= days_in_month(t.year as int, t.month as int)
    &&& t.hour < 24
    &&& t.minute < 60
    &&& t.second < 60
}

/// A number in decimal, with zeros in front up to that many digits.
pub open spec fn padded(n: nat, width: nat) -> Seq<char> {
    let digits = decimal(n);
    if digits.len() >= width {
        digits
    } else {
        Seq::new((width - digits.len()) as nat, |i: int| '0') + digits
    }
}

/// A year in at least four digits; one outside of those has its sign in front.
pub open spec fn year_text(year: int) -> Seq<char> {
    if 0 <= year <= 9999 {
        padded(year as nat, 4)
    } else if year > 9999 {
        seq!['+'] + padded(year as nat, 4)
    } else {
        seq!['-'] + padded((-year) as nat, 4)
    }
}

/// A moment as year, month and day, an underscore, and hour, minute and second.
pub open spec fn stamp_text(t: LocalTime) -> Seq<char> {
    year_text(t.year as int) + padded(t.month as nat, 2) + padded(t.day as nat, 2) + seq!['_']
        + padded(t.hour as nat, 2) + padded(t.minute as nat, 2) + padded(t.second as nat, 2)
}

/// Calls `NaiveDateTime::format` of chrono, with year, month, day, an underscore, hour, minute
/// and second as the pattern, on the moment that `NaiveDate::from_ymd_opt` and `and_hms_opt` make
/// of the numbers. Those two give nothing where there is no such moment; each field is written in
/// two digits and the year in four, with a sign where it does not fit in them.
#[verifier::external_body]
fn format_stamp(t: &LocalTime) -> (text: Option<String>)
    ensures
        text is Some <==> is_moment(*t),
        text is Some ==> text->0@ == stamp_text(*t),
{
    let date = chrono::NaiveDate::from_ymd_opt(t.year, t.month, t.day)?;
    let moment = date.and_hms_opt(t.hour, t.minute, t.second)?;
    Some(moment.format("%Y%m%d_%H%M%S").to_string())
}

/// The name of a results file: what was tested, and when.
pub open spec fn results_file_name_text(config: LatencyTestConfig, t: LocalTime) -> Seq<char> {
    "latency_test_"@ + decimal(config.frame_rate_hz as nat) + "Hz_"@ + decimal(
        config.frame_size_kb as nat,
    ) + "KB_"@ + stamp_text(t) + ".csv"@
}

/// The name of a results file, or nothing where there is no such moment.
pub fn results_file_name(config: &LatencyTestConfig, t: &LocalTime) -> (name: Option<String>)
    ensures
        name is Some <==> is_moment(*t),
        name is Some ==> name->0@ == results_file_name_text(*config, *t),
{
    match format_stamp(t) {
        None => None,
        Some(stamp) => {
            let mut name: String = String::new();
            name.append("latency_test_");
            append_decimal(&mut name, config.frame_rate_hz as u64);
            name.append("Hz_");
            append_decimal(&mut name, config.frame_size_kb as u64);
            name.append("KB_");
            name.append(stamp.as_str());
            name.append(".csv");
            assert(Seq::<char>::empty() + "latency_test_"@ =~= "latency_test_"@);
            Some(name)
        },
    }
}

/// How one action of creating a results file ended.
#[derive(Clone, Copy, Debug, PartialEq, Eq)]
pub enum CsvReply {
    /// The action was carried out, and whether that worked.
    Done(bool),
    /// What the wall clock says.
    Time(LocalTime),
}

/// What creating a results file does.
#[derive(Debug, PartialEq, Eq)]
pub enum CsvStep {
    /// Create this directory, if it is not there, below the root of the project.
    CreateDir(String),
    /// Read the wall clock.
    ReadLocalTime,
    /// Create this file in that directory, empty.
    CreateFile(String),
    /// Write this text.
    Write(String),
    /// Flush what was written.
    Flush,
    /// The file is there.
    Return,
    /// There is no file.
    Fail,
}

/// What creating a results file does, with texts as sequences.
pub enum CsvStepView {
    CreateDir(Seq<char>),
    ReadLocalTime,
    CreateFile(Seq<char>),
    Write(Seq<char>),
    Flush,
    Return,
    Fail,
}

impl View for CsvStep {
    type V = CsvStepView;

    open spec fn view(&self) -> CsvStepView {
        match *self {
            CsvStep::CreateDir(s) => CsvStepView::CreateDir(s@),
            CsvStep::ReadLocalTime => CsvStepView::ReadLocalTime,
            CsvStep::CreateFile(s) => CsvStepView::CreateFile(s@),
            CsvStep::Write(s) => CsvStepView::Write(s@),
            CsvStep::Flush => CsvStepView::Flush,
            CsvStep::Return => CsvStepView::Return,
            CsvStep::Fail => CsvStepView::Fail,
        }
    }
}

/// What is done once `replies` have come back: the directory is made, the clock read, the file
/// created under the name for that moment, and the columns written and flushed.
pub open spec fn csv_step(config: LatencyTestConfig, replies: Seq<CsvReply>) -> CsvStepView {
    if replies.len() == 0 {
        CsvStepView::CreateDir(RESULTS_DIR@)
    } else if replies[0] != CsvReply::Done(true) {
        CsvStepView::Fail
    } else if replies.len() == 1 {
        CsvStepView::ReadLocalTime
    } else if !(replies[1] is Time) || !is_moment(replies[1]->Time_0) {
        CsvStepView::Fail
    } else if replies.len() == 2 {
        CsvStepView::CreateFile(results_file_name_text(config, replies[1]->Time_0))
    } else if replies[2] != CsvReply::Done(true) {
        CsvStepView::Fail
    } else if replies.len() == 3 {
        CsvStepView::Write(CSV_COLUMNS@ + "\n"@)
    } else if replies[3] != CsvReply::Done(true) {
        CsvStepView::Fail
    } else if replies.len() == 4 {
        CsvStepView::Flush
    } else if replies[4] != CsvReply::Done(true) {
        CsvStepView::Fail
    } else {
        CsvStepView::Return
    }
}

fn reply_done(replies: &Vec<CsvReply>, i: usize) -> (r: bool)
    requires
        i < replies@.len(),
    ensures
        r == (replies@[i as int] == CsvReply::Done(true)),
{
    match replies[i] {
        CsvReply::Done(ok) => ok,
        _ => false,
    }
}

/// Creates a results file: says what to do after the replies so far.
pub fn create_csv_file(config: &LatencyTestConfig, replies: &Vec<CsvReply>) -> (step: CsvStep)
    ensures
        step@ == csv_step(*config, replies@),
{
    if replies.len() == 0 {
        return CsvStep::CreateDir(RESULTS_DIR.to_owned());
    }
    if !reply_done(replies, 0) {
        return CsvStep::Fail;
    }
    if replies.len() == 1 {
        return CsvStep::ReadLocalTime;
    }
    let name = match replies[1] {
        CsvReply::Time(t) => results_file_name(config, &t),
        _ => None,
    };
    match name {
        None => CsvStep::Fail,
        Some(name) => {
            if replies.len() == 2 {
                CsvStep::CreateFile(name)
            } else if !reply_done(replies, 2) {
                CsvStep::Fail
            } else if replies.len() == 3 {
                let mut line: String = CSV_COLUMNS.to_owned();
                line.append("\n");
                CsvStep::Write(line)
            } else if !reply_done(replies, 3) {
                CsvStep::Fail
            } else if replies.len() == 4 {
                CsvStep::Flush
            } else if !reply_done(replies, 4) {
                CsvStep::Fail
            } else {
                CsvStep::Return
            }
        },
    }
}

/// One line of a results file: the frame, the shards that the server sent for it, the shards
/// that the client received, and the round trip time.
pub open spec fn csv_row_text(report: LatencyTestFrameReport, server_shards_sent: u32) -> Seq<char> {
    decimal(report.frame_index as nat) + ","@ + decimal(server_shards_sent as nat) + ","@
        + decimal(report.shards_received as nat) + ","@ + decimal(report.rtt_us as nat) + "\n"@
}

/// One line of a results file.
pub fn csv_row(report: &LatencyTestFrameReport, server_shards_sent: u32) -> (line: String)
    ensures
        line@ == csv_row_text(*report, server_shards_sent),
{
    let mut line: String = String::new();
    append_decimal(&mut line, report.frame_index);
    proof {
        assert(line@ =~= decimal(report.frame_index as nat));
    }
    line.append(",");
    append_decimal(&mut line, server_shards_sent as u64);
    line.append(",");
    append_decimal(&mut line, report.shards_received as u64);
    line.append(",");
    append_decimal(&mut line, report.rtt_us);
    line.append("\n");
    line
}

proof fn lemma_first_field(
    a: Seq<char>,
    b: Seq<char>,
    mark: char,
    rest_a: Seq<char>,
    rest_b: Seq<char>,
)
    requires
        all_digits(a),
        all_digits(b),
        !('0' <= mark <= '9'),
        a + seq![mark] + rest_a == b + seq![mark] + rest_b,
    ensures
        a == b,
        rest_a == rest_b,
{
    let left = a + seq![mark] + rest_a;
    let right = b + seq![mark] + rest_b;
    assert(left[a.len() as int] == mark);
    assert(right[b.len() as int] == mark);
    if a.len() < b.len() {
        assert(right[a.len() as int] == b[a.len() as int]);
    }
    if b.len() < a.len() {
        assert(left[b.len() as int] == a[b.len() as int]);
    }
    assert forall|i: int| 0 <= i < a.len() implies a[i] == b[i] by {
        assert(left[i] == a[i] && right[i] == b[i]);
    }
    assert(a =~= b);
    assert(rest_a =~= left.skip(a.len() as int + 1));
    assert(rest_b =~= right.skip(b.len() as int + 1));
}

/// The last two fields of a line and its end.
spec fn row_end(shards_received: Seq<char>, rtt_us: Seq<char>) -> Seq<char> {
    shards_received + seq![','] + (rtt_us + seq!['\n'] + Seq::empty())
}

proof fn lemma_row_by_fields(report: LatencyTestFrameReport, server_shards_sent: u32)
    ensures
        csv_row_text(report, server_shards_sent) == decimal(report.frame_index as nat) + seq![',']
            + (decimal(server_shards_sent as nat) + seq![','] + row_end(
            decimal(report.shards_received as nat),
            decimal(report.rtt_us as nat),
        )),
        all_digits(decimal(report.frame_index as nat)),
        all_digits(decimal(server_shards_sent as nat)),
        all_digits(decimal(report.shards_received as nat)),
        all_digits(decimal(report.rtt_us as nat)),
        decimal_value(decimal(report.frame_index as nat)) == report.frame_index,
        decimal_value(decimal(server_shards_sent as nat)) == server_shards_sent,
        decimal_value(decimal(report.shards_received as nat)) == report.shards_received,
        decimal_value(decimal(report.rtt_us as nat)) == report.rtt_us,
{
    reveal_strlit(",");
    reveal_strlit("\n");
    assert(","@ =~= seq![',']);
    assert("\n"@ =~= seq!['\n']);
    decimal_reads_back(report.frame_index as nat);
    decimal_reads_back(server_shards_sent as nat);
    decimal_reads_back(report.shards_received as nat);
    decimal_reads_back(report.rtt_us as nat);
    lemma_regroup(
        decimal(report.frame_index as nat),
        decimal(server_shards_sent as nat),
        decimal(report.shards_received as nat),
        decimal(report.rtt_us as nat),
    );
}

proof fn lemma_regroup(a: Seq<char>, b: Seq<char>, c: Seq<char>, d: Seq<char>)
    ensures
        a + seq![','] + b + seq![','] + c + seq![','] + d + seq!['\n'] == a + seq![','] + (b
            + seq![','] + row_end(c, d)),
{
    let end = d + seq!['\n'] + Seq::empty();
    let left_b = a + seq![','] + b;
    assert(end =~= d + seq!['\n']);
    assert(a + seq![','] + (b + seq![','] + row_end(c, d)) =~= left_b + seq![','] + row_end(c, d));
    assert(left_b + seq![','] + row_end(c, d) =~= left_b + seq![','] + c + seq![','] + end);
    assert(left_b + seq![','] + c + seq![','] + end =~= left_b + seq![','] + c + seq![','] + d
        + seq!['\n']);
}

/// A line of a results file tells exactly what it reports: two reports with the same line agree on
/// the frame, on both numbers of shards and on the time.
pub proof fn rows_tell_reports_apart(
    a: LatencyTestFrameReport,
    a_sent: u32,
    b: LatencyTestFrameReport,
    b_sent: u32,
)
    requires
        csv_row_text(a, a_sent) == csv_row_text(b, b_sent),
    ensures
        a.frame_index == b.frame_index,
        a_sent == b_sent,
        a.shards_received == b.shards_received,
        a.rtt_us == b.rtt_us,
{
    lemma_row_by_fields(a, a_sent);
    lemma_row_by_fields(b, b_sent);
    let a_end = row_end(decimal(a.shards_received as nat), decimal(a.rtt_us as nat));
    let b_end = row_end(decimal(b.shards_received as nat), decimal(b.rtt_us as nat));
    lemma_first_field(
        decimal(a.frame_index as nat),
        decimal(b.frame_index as nat),
        ',',
        decimal(a_sent as nat) + seq![','] + a_end,
        decimal(b_sent as nat) + seq![','] + b_end,
    );
    lemma_first_field(decimal(a_sent as nat), decimal(b_sent as nat), ',', a_end, b_end);
    lemma_first_field(
        decimal(a.shards_received as nat),
        decimal(b.shards_received as nat),
        ',',
        decimal(a.rtt_us as nat) + seq!['\n'] + Seq::empty(),
        decimal(b.rtt_us as nat) + seq!['\n'] + Seq::empty(),
    );
    lemma_first_field(
        decimal(a.rtt_us as nat),
        decimal(b.rtt_us as nat),
        '\n',
        Seq::empty(),
        Seq::empty(),
    );
}

/// A line of a results file reads back: four numbers in decimal, with commas between them and a line
/// end behind them, which are the frame, the shards that the server sent, the shards that the client
/// received, and the time.
pub proof fn a_row_reads_back(report: LatencyTestFrameReport, server_shards_sent: u32)
    ensures
        exists|frame: Seq<char>, sent: Seq<char>, received: Seq<char>, time: Seq<char>|
            {
                &&& #[trigger] is_numeral(frame, report.frame_index as int)
                &&& #[trigger] is_numeral(sent, server_shards_sent as int)
                &&& #[trigger] is_numeral(received, report.shards_received as int)
                &&& #[trigger] is_numeral(time, report.rtt_us as int)
                &&& csv_row_text(report, server_shards_sent) == frame + seq![','] + sent
                    + seq![','] + received + seq![','] + time + seq!['\n']
            },
{
    let frame = decimal(report.frame_index as nat);
    let sent = decimal(server_shards_sent as nat);
    let received = decimal(report.shards_received as nat);
    let time = decimal(report.rtt_us as nat);
    lemma_row_by_fields(report, server_shards_sent);
    lemma_regroup(frame, sent, received, time);
    decimal_reads_back(report.frame_index as nat);
    decimal_reads_back(server_shards_sent as nat);
    decimal_reads_back(report.shards_received as nat);
    decimal_reads_back(report.rtt_us as nat);
    assert(is_numeral(frame, report.frame_index as int));
    assert(is_numeral(sent, server_shards_sent as int));
    assert(is_numeral(received, report.shards_received as int));
    assert(is_numeral(time, report.rtt_us as int));
}

/// The name of a results file reads back: behind the first word stand the rate and then the size, in
/// decimal and each with its unit, and then the moment.
pub proof fn a_file_name_reads_back(config: LatencyTestConfig, t: LocalTime)
    ensures
        exists|rate: Seq<char>, size: Seq<char>|
            {
                &&& #[trigger] is_numeral(rate, config.frame_rate_hz as int)
                &&& #[trigger] is_numeral(size, config.frame_size_kb as int)
                &&& results_file_name_text(config, t) == "latency_test_"@ + rate + "Hz_"@ + size
                    + "KB_"@ + stamp_text(t) + ".csv"@
            },
{
    decimal_reads_back(config.frame_rate_hz as nat);
    decimal_reads_back(config.frame_size_kb as nat);
    assert(is_numeral(decimal(config.frame_rate_hz as nat), config.frame_rate_hz as int));
    assert(is_numeral(decimal(config.frame_size_kb as nat), config.frame_size_kb as int));
}

proof fn lemma_zeros_in_front(k: nat, digits: Seq<char>)
    ensures
        decimal_value(Seq::new(k, |i: int| '0') + digits) == decimal_value(digits),
    decreases k + digits.len(),
{
    let zeros = Seq::new(k, |i: int| '0');
    let all = zeros + digits;
    if digits.len() > 0 {
        assert(all.drop_last() =~= zeros + digits.drop_last());
        lemma_zeros_in_front(k, digits.drop_last());
    } else if k > 0 {
        assert(all.drop_last() =~= Seq::new((k - 1) as nat, |i: int| '0') + digits);
        lemma_zeros_in_front((k - 1) as nat, digits);
    }
}

proof fn lemma_padded(n: nat, width: nat)
    requires
        width == 2 && n < 100 || width == 4 && n < 10000,
    ensures
        padded(n, width).len() == width,
        decimal_value(padded(n, width)) == n,
{
    reveal_with_fuel(decimal, 5);
    decimal_reads_back(n);
    assert(decimal(n).len() <= width);
    lemma_zeros_in_front((width - decimal(n).len()) as nat, decimal(n));
}

/// The text of a moment in a year of four digits has fifteen characters: the year in four, the month
/// and the day in two each, an underscore, and the hour, the minute and the second in two each.
pub proof fn a_stamp_reads_back(t: LocalTime)
    requires
        is_moment(t),
        0 <= t.year <= 9999,
    ensures
        stamp_text(t).len() == 15,
        decimal_value(stamp_text(t).subrange(0, 4)) == t.year,
        decimal_value(stamp_text(t).subrange(4, 6)) == t.month,
        decimal_value(stamp_text(t).subrange(6, 8)) == t.day,
        stamp_text(t)[8] == '_',
        decimal_value(stamp_text(t).subrange(9, 11)) == t.hour,
        decimal_value(stamp_text(t).subrange(11, 13)) == t.minute,
        decimal_value(stamp_text(t).subrange(13, 15)) == t.second,
{
    lemma_padded(t.year as nat, 4);
    lemma_padded(t.month as nat, 2);
    lemma_padded(t.day as nat, 2);
    lemma_padded(t.hour as nat, 2);
    lemma_padded(t.minute as nat, 2);
    lemma_padded(t.second as nat, 2);
    let text = stamp_text(t);
    assert(text.subrange(0, 4) =~= padded(t.year as nat, 4));
    assert(text.subrange(4, 6) =~= padded(t.month as nat, 2));
    assert(text.subrange(6, 8) =~= padded(t.day as nat, 2));
    assert(text.subrange(9, 11) =~= padded(t.hour as nat, 2));
    assert(text.subrange(11, 13) =~= padded(t.minute as nat, 2));
    assert(text.subrange(13, 15) =~= padded(t.second as nat, 2));
}

/// There is no results file exactly when something that was due did not work: making the directory,
/// reading a moment that exists, or creating, writing and flushing the file.
pub proof fn a_results_file_needs_every_step(config: LatencyTestConfig, replies: Seq<CsvReply>)
    ensures
        ({
            let n = replies.len();
            let done = |i: int| replies[i] == CsvReply::Done(true);
            let moment = replies[1] is Time && is_moment(replies[1]->Time_0);
            &&& csv_step(config, replies) is Fail <==> {
                ||| n >= 1 && !done(0)
                ||| n >= 2 && !moment
                ||| n >= 3 && !done(2)
                ||| n >= 4 && !done(3)
                ||| n >= 5 && !done(4)
            }
            &&& csv_step(config, replies) is Return <==> n >= 5 && done(0) && moment && done(2)
                && done(3) && done(4)
            &&& csv_step(config, replies) is Flush <==> n == 4 && done(0) && moment && done(2)
                && done(3)
            &&& csv_step(config, replies) is CreateFile ==> csv_step(config, replies)
                == CsvStepView::CreateFile(
                results_file_name_text(config, replies[1]->Time_0),
            )
            &&& csv_step(config, replies) is CreateDir ==> csv_step(config, replies)
                == CsvStepView::CreateDir("results"@)
            &&& csv_step(config, replies) is Write ==> csv_step(config, replies)
                == CsvStepView::Write(
                "frame_index,shards_sent,shards_received,rtt_us"@ + "\n"@,
            )
        }),
{
}

} // verus!
