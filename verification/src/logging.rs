//! The text side of logging: how a record is laid out, and correlation
//! identifiers that tie records of one operation together.
//!
//! Installing a logger is the caller's business; what it prints comes from
//! here.

use crate::file_watcher::clock::unix_time_millis;
use vstd::prelude::*;
use vstd::string::StringExecFns;

verus! {

/// Severity of a log record.
#[derive(Clone, Copy, Debug, PartialEq, Eq, Structural)]
pub enum LogLevel {
    Error,
    Warn,
    Info,
    Debug,
    Trace,
}

/// The character for a digit value below ten.
pub open spec fn digit(d: int) -> char {
    if d == 0 {
        '0'
    } else if d == 1 {
        '1'
    } else if d == 2 {
        '2'
    } else if d == 3 {
        '3'
    } else if d == 4 {
        '4'
    } else if d == 5 {
        '5'
    } else if d == 6 {
        '6'
    } else if d == 7 {
        '7'
    } else if d == 8 {
        '8'
    } else {
        '9'
    }
}

/// A number in decimal, without leading zeros.
pub open spec fn decimal(n: nat) -> Seq<char>
    decreases n,
{
    if n < 10 {
        seq![digit(n as int)]
    } else {
        decimal(n / 10).push(digit((n % 10) as int))
    }
}

/// A number below a hundred in exactly two digits.
pub open spec fn two_digits(n: nat) -> Seq<char> {
    seq![digit((n / 10) as int), digit((n % 10) as int)]
}

/// A number below a thousand in exactly three digits.
pub open spec fn three_digits(n: nat) -> Seq<char> {
    seq![digit((n / 100) as int), digit((n / 10 % 10) as int), digit((n % 10) as int)]
}

/// The time of day, as `HH:MM:SS.mmm`, of an instant given in milliseconds
/// since the Unix epoch.
pub open spec fn time_of_day(millis: nat) -> Seq<char> {
    let secs = millis / 1000;
    two_digits(secs / 3600 % 24) + seq![':'] + two_digits(secs / 60 % 60) + seq![':'] + two_digits(
        secs % 60,
    ) + seq!['.'] + three_digits(millis % 1000)
}

/// The one-letter tag of a severity.
pub open spec fn level_letter(level: LogLevel) -> Seq<char> {
    match level {
        LogLevel::Error => seq!['E'],
        LogLevel::Warn => seq!['W'],
        LogLevel::Info => seq!['I'],
        LogLevel::Debug => seq!['D'],
        LogLevel::Trace => seq!['T'],
    }
}

/// A log line: `[timestamp] [L] [target] message`.
pub open spec fn record_text(
    timestamp: Seq<char>,
    level: LogLevel,
    target: Seq<char>,
    message: Seq<char>,
) -> Seq<char> {
    seq!['['] + timestamp + seq![']', ' ', '['] + level_letter(level) + seq![']', ' ', '['] + target
        + seq![']', ' '] + message
}

/// A correlation identifier: `corr_`, the time in milliseconds since the
/// Unix epoch, an underscore, and the last four digits' worth of a sequence
/// number.
pub open spec fn correlation_text(timestamp_ms: nat, sequence: nat) -> Seq<char> {
    seq!['c', 'o', 'r', 'r', '_'] + decimal(timestamp_ms) + seq!['_'] + decimal(sequence % 10000)
}

/// The text of one digit.
fn digit_str(d: u8) -> (text: &'static str)
    requires
        d < 10,
    ensures
        text@ == seq![digit(d as int)],
{
    let text = match d {
        0 => "0",
        1 => "1",
        2 => "2",
        3 => "3",
        4 => "4",
        5 => "5",
        6 => "6",
        7 => "7",
        8 => "8",
        _ => "9",
    };
    proof {
        reveal_strlit("0");
        reveal_strlit("1");
        reveal_strlit("2");
        reveal_strlit("3");
        reveal_strlit("4");
        reveal_strlit("5");
        reveal_strlit("6");
        reveal_strlit("7");
        reveal_strlit("8");
        reveal_strlit("9");
        assert(text@ =~= seq![digit(d as int)]);
    }
    text
}

/// Writes a number in decimal.
pub fn to_decimal(n: u128) -> (text: String)
    ensures
        text@ == decimal(n as nat),
    decreases n,
{
    if n < 10 {
        String::from_str(digit_str(n as u8))
    } else {
        to_decimal(n / 10).concat(digit_str((n % 10) as u8))
    }
}

/// Appends `n` in two digits.
fn push_two_digits(text: &mut String, n: u8)
    requires
        n < 100,
    ensures
        final(text)@ == old(text)@ + two_digits(n as nat),
{
    text.append(digit_str(n / 10));
    text.append(digit_str(n % 10));
    proof {
        assert(text@ =~= old(text)@ + two_digits(n as nat));
    }
}

/// Appends `n` in three digits.
fn push_three_digits(text: &mut String, n: u16)
    requires
        n < 1000,
    ensures
        final(text)@ == old(text)@ + three_digits(n as nat),
{
    text.append(digit_str((n / 100) as u8));
    text.append(digit_str((n / 10 % 10) as u8));
    text.append(digit_str((n % 10) as u8));
    proof {
        assert(text@ =~= old(text)@ + three_digits(n as nat));
    }
}

/// Formats the time of day of an instant given in milliseconds since the
/// Unix epoch.
pub fn format_time_of_day(millis: u128) -> (text: String)
    ensures
        text@ == time_of_day(millis as nat),
{
    let secs: u128 = millis / 1000;
    let hours: u8 = (secs / 3600 % 24) as u8;
    let minutes: u8 = (secs / 60 % 60) as u8;
    let seconds: u8 = (secs % 60) as u8;
    let fraction: u16 = (millis % 1000) as u16;
    proof {
        reveal_strlit(":");
        reveal_strlit(".");
        reveal_strlit("");
        assert(":"@ =~= seq![':']);
        assert("."@ =~= seq!['.']);
    }
    let mut text = String::from_str("");
    push_two_digits(&mut text, hours);
    text.append(":");
    push_two_digits(&mut text, minutes);
    text.append(":");
    push_two_digits(&mut text, seconds);
    text.append(".");
    push_three_digits(&mut text, fraction);
    proof {
        assert(text@ =~= time_of_day(millis as nat));
    }
    text
}

/// The time of day right now, for a log line. Before the Unix epoch the
/// clock reads as the epoch itself.
pub fn chrono_timestamp() -> (text: String)
    ensures
        exists|millis: nat| text@ == time_of_day(millis),
{
    let millis: u128 = match unix_time_millis() {
        Some(millis) => millis,
        None => 0,
    };
    let text = format_time_of_day(millis);
    proof {
        assert(text@ == time_of_day(millis as nat));
    }
    text
}

/// The one-letter tag of a severity.
pub fn level_tag(level: LogLevel) -> (tag: &'static str)
    ensures
        tag@ == level_letter(level),
{
    let tag = match level {
        LogLevel::Error => "E",
        LogLevel::Warn => "W",
        LogLevel::Info => "I",
        LogLevel::Debug => "D",
        LogLevel::Trace => "T",
    };
    proof {
        reveal_strlit("E");
        reveal_strlit("W");
        reveal_strlit("I");
        reveal_strlit("D");
        reveal_strlit("T");
        assert(tag@ =~= level_letter(level));
    }
    tag
}

/// Lays out one log line.
pub fn format_record(timestamp: &str, level: LogLevel, target: &str, message: &str) -> (line: String)
    ensures
        line@ == record_text(timestamp@, level, target@, message@),
{
    proof {
        reveal_strlit("[");
        reveal_strlit("] [");
        reveal_strlit("] ");
        assert("["@ =~= seq!['[']);
        assert("] ["@ =~= seq![']', ' ', '[']);
        assert("] "@ =~= seq![']', ' ']);
    }
    let mut line = String::from_str("[");
    line.append(timestamp);
    line.append("] [");
    line.append(level_tag(level));
    line.append("] [");
    line.append(target);
    line.append("] ");
    line.append(message);
    line
}

/// Source of the sequence numbers that keep correlation identifiers apart.
#[derive(Debug)]
pub struct CorrelationCounter {
    next: u64,
}

impl CorrelationCounter {
    /// The number that the next identifier gets.
    pub closed spec fn upcoming(&self) -> u64 {
        self.next
    }

    /// A counter that starts at zero.
    pub fn new() -> (counter: CorrelationCounter)
        ensures
            counter.upcoming() == 0,
    {
        CorrelationCounter { next: 0 }
    }

    /// Hands out the upcoming number and moves on by one, starting over
    /// after the largest.
    pub fn fetch_add(&mut self) -> (number: u64)
        ensures
            number == old(self).upcoming(),
            final(self).upcoming() == if number == u64::MAX {
                0
            } else {
                number + 1
            },
    {
        let number = self.next;
        self.next = if number == u64::MAX {
            0
        } else {
            number + 1
        };
        number
    }
}

/// Writes the correlation identifier for a time and a sequence number.
pub fn correlation_id_at(timestamp_ms: u128, sequence: u64) -> (id: String)
    ensures
        id@ == correlation_text(timestamp_ms as nat, sequence as nat),
{
    proof {
        reveal_strlit("corr_");
        reveal_strlit("_");
        assert("corr_"@ =~= seq!['c', 'o', 'r', 'r', '_']);
        assert("_"@ =~= seq!['_']);
    }
    let mut id = String::from_str("corr_");
    id.append(to_decimal(timestamp_ms).as_str());
    id.append("_");
    id.append(to_decimal((sequence % 10000) as u128).as_str());
    id
}

/// Makes a fresh correlation identifier from the current time and the
/// counter's upcoming number.
pub fn generate_correlation_id(counter: &mut CorrelationCounter) -> (id: String)
    ensures
        exists|timestamp_ms: nat| id@ == correlation_text(timestamp_ms, old(counter).upcoming() as nat),
        final(counter).upcoming() == if old(counter).upcoming() == u64::MAX {
            0
        } else {
            old(counter).upcoming() + 1
        },
{
    let timestamp_ms: u128 = match unix_time_millis() {
        Some(millis) => millis,
        None => 0,
    };
    let sequence = counter.fetch_add();
    let id = correlation_id_at(timestamp_ms, sequence);
    proof {
        assert(id@ == correlation_text(timestamp_ms as nat, sequence as nat));
    }
    id
}

/// The ten digit characters.
pub open spec fn is_digit(c: char) -> bool {
    c == '0' || c == '1' || c == '2' || c == '3' || c == '4' || c == '5' || c == '6' || c == '7'
        || c == '8' || c == '9'
}

/// A number in decimal has at least one character, and digits only.
pub proof fn lemma_decimal_digits(n: nat)
    ensures
        decimal(n).len() >= 1,
        forall|i: int| 0 <= i < decimal(n).len() ==> is_digit(#[trigger] decimal(n)[i]),
    decreases n,
{
    if n >= 10 {
        lemma_decimal_digits(n / 10);
    }
}

/// Different numbers are written differently.
pub proof fn lemma_decimal_injective(a: nat, b: nat)
    requires
        decimal(a) == decimal(b),
    ensures
        a == b,
    decreases a,
{
    lemma_decimal_digits(a / 10);
    lemma_decimal_digits(b / 10);
    if a < 10 && b < 10 {
        assert(decimal(a)[0] == digit(a as int));
        assert(decimal(b)[0] == digit(b as int));
    } else if a >= 10 && b >= 10 {
        let front_a = decimal(a / 10);
        let front_b = decimal(b / 10);
        assert(decimal(a).drop_last() =~= front_a);
        assert(decimal(b).drop_last() =~= front_b);
        assert(decimal(a).last() == digit((a % 10) as int));
        assert(decimal(b).last() == digit((b % 10) as int));
        lemma_decimal_injective(a / 10, b / 10);
    } else if a < 10 {
        assert(decimal(a).len() == 1);
        assert(decimal(b).len() == decimal(b / 10).len() + 1);
    } else {
        assert(decimal(b).len() == 1);
        assert(decimal(a).len() == decimal(a / 10).len() + 1);
    }
}

/// Correlation identifiers tell their origins apart: two of them are equal
/// only if they were made for the same millisecond and for sequence numbers
/// that agree in their last four digits. Identifiers that one counter hands
/// out differ as long as fewer than ten thousand lie between them.
pub proof fn lemma_correlation_ids_differ(
    timestamp_a: nat,
    sequence_a: nat,
    timestamp_b: nat,
    sequence_b: nat,
)
    requires
        correlation_text(timestamp_a, sequence_a) == correlation_text(timestamp_b, sequence_b),
    ensures
        timestamp_a == timestamp_b,
        sequence_a % 10000 == sequence_b % 10000,
{
    let head = seq!['c', 'o', 'r', 'r', '_'];
    let time_a = decimal(timestamp_a);
    let time_b = decimal(timestamp_b);
    let tail_a = decimal(sequence_a % 10000);
    let tail_b = decimal(sequence_b % 10000);
    let id_a = correlation_text(timestamp_a, sequence_a);
    let id_b = correlation_text(timestamp_b, sequence_b);
    let len_a = time_a.len() as int;
    let len_b = time_b.len() as int;
    lemma_decimal_digits(timestamp_a);
    lemma_decimal_digits(timestamp_b);
    assert(id_a == head + time_a + seq!['_'] + tail_a);
    assert(id_b == head + time_b + seq!['_'] + tail_b);
    assert(id_a[5 + len_a] == '_');
    assert(id_b[5 + len_b] == '_');
    if len_a < len_b {
        assert(id_b[5 + len_a] == time_b[len_a]);
        assert(is_digit(time_b[len_a]));
    }
    if len_b < len_a {
        assert(id_a[5 + len_b] == time_a[len_b]);
        assert(is_digit(time_a[len_b]));
    }
    assert(len_a == len_b);
    assert(time_a =~= time_b) by {
        assert forall|i: int| 0 <= i < time_a.len() implies time_a[i] == time_b[i] by {
            assert(id_a[5 + i] == time_a[i]);
            assert(id_b[5 + i] == time_b[i]);
        }
    }
    lemma_decimal_injective(timestamp_a, timestamp_b);
    assert(tail_a =~= tail_b) by {
        let skip = 6 + len_a;
        assert(id_a.len() == skip + tail_a.len());
        assert(id_b.len() == skip + tail_b.len());
        assert forall|i: int| 0 <= i < tail_a.len() implies tail_a[i] == tail_b[i] by {
            assert(id_a[skip + i] == tail_a[i]);
            assert(id_b[skip + i] == tail_b[i]);
        }
    }
    lemma_decimal_injective(sequence_a % 10000, sequence_b % 10000);
}

/// What ties the log records of one operation together.
#[derive(Clone, Debug)]
pub struct LogContext {
    /// Identifier shared by the records of the operation.
    pub correlation_id: String,
    /// Name of the operation, if it has one.
    pub operation: Option<String>,
}

/// A log context as a mathematical value.
pub struct LogContextView {
    pub correlation_id: Seq<char>,
    pub operation: Option<Seq<char>>,
}

impl View for LogContext {
    type V = LogContextView;

    open spec fn view(&self) -> LogContextView {
        LogContextView {
            correlation_id: self.correlation_id@,
            operation: match self.operation {
                Some(name) => Some(name@),
                None => None,
            },
        }
    }
}

impl LogContext {
    /// A context with a fresh correlation identifier and no operation name.
    pub fn new(counter: &mut CorrelationCounter) -> (context: LogContext)
        ensures
            exists|timestamp_ms: nat|
                context@.correlation_id == correlation_text(
                    timestamp_ms,
                    old(counter).upcoming() as nat,
                ),
            context@.operation is None,
            final(counter).upcoming() == if old(counter).upcoming() == u64::MAX {
                0
            } else {
                old(counter).upcoming() + 1
            },
    {
        LogContext { correlation_id: generate_correlation_id(counter), operation: None }
    }

    /// A context with a fresh correlation identifier for the operation
    /// `operation`.
    pub fn with_operation(counter: &mut CorrelationCounter, operation: &str) -> (context: LogContext)
        ensures
            exists|timestamp_ms: nat|
                context@.correlation_id == correlation_text(
                    timestamp_ms,
                    old(counter).upcoming() as nat,
                ),
            context@.operation == Some(operation@),
            final(counter).upcoming() == if old(counter).upcoming() == u64::MAX {
                0
            } else {
                old(counter).upcoming() + 1
            },
    {
        LogContext {
            correlation_id: generate_correlation_id(counter),
            operation: Some(String::from_str(operation)),
        }
    }

    /// The same context under the operation name `operation`.
    pub fn operation(self, operation: &str) -> (context: LogContext)
        ensures
            context@.correlation_id == self@.correlation_id,
            context@.operation == Some(operation@),
    {
        LogContext {
            correlation_id: self.correlation_id,
            operation: Some(String::from_str(operation)),
        }
    }
}

} // verus!
