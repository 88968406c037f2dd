//! One log line: its parts, its text, and the grammar it follows.

use crate::text::{byte_len, lemma_byte_len_at_least_len, lemma_byte_len_concat};
use vstd::utf8::{is_ascii_chars, is_ascii_chars_encode_utf8};
use vstd::prelude::*;
use vstd::string::StringExecFns;

verus! {

/// Smallest transaction identifier a line may carry.
pub const TRANSACTION_ID_MIN: u32 = 1000;

/// Largest transaction identifier a line may carry.
pub const TRANSACTION_ID_MAX: u32 = 9999;

/// Number of transaction identifiers there are.
pub const TRANSACTION_ID_COUNT: u32 = TRANSACTION_ID_MAX - TRANSACTION_ID_MIN + 1;

/// The character for a single decimal digit.
pub open spec fn digit_char(d: nat) -> char
    recommends
        d < 10,
{
    (48 + d) as u8 as char
}

/// Decimal notation of `n`, most significant digit first, without padding.
pub open spec fn decimal(n: nat) -> Seq<char>
    decreases n,
{
    if n < 10 {
        seq![digit_char(n)]
    } else {
        decimal(n / 10).push(digit_char(n % 10))
    }
}

/// Appends the decimal notation of `n` to `buf`.
pub fn push_decimal(buf: &mut String, n: u32)
    ensures
        final(buf)@ == old(buf)@ + decimal(n as nat),
    decreases n,
{
    if n >= 10 {
        push_decimal(buf, n / 10);
    }
    let d: u8 = (n % 10) as u8;
    let c: char = (48u8 + d) as char;
    buf.push(c);
    proof {
        if n >= 10 {
            assert((old(buf)@ + decimal((n / 10) as nat)).push(c) =~= old(buf)@ + decimal(
                n as nat,
            ));
        }
    }
}

/// Decimal notation is made of ASCII digits, one byte each, and an identifier
/// between 1000 and 9999 takes four of them.
pub proof fn lemma_decimal_digits(n: nat)
    ensures
        decimal(n).len() >= 1,
        forall|i: int| 0 <= i < decimal(n).len() ==> '0' <= #[trigger] decimal(n)[i] <= '9',
        byte_len(decimal(n)) == decimal(n).len(),
        TRANSACTION_ID_MIN <= n <= TRANSACTION_ID_MAX ==> decimal(n).len() == 4,
    decreases n,
{
    if n >= 10 {
        lemma_decimal_digits(n / 10);
    }
    is_ascii_chars_encode_utf8(decimal(n));
    if TRANSACTION_ID_MIN <= n <= TRANSACTION_ID_MAX {
        reveal_with_fuel(decimal, 4);
    }
}

/// Whether `c` may occur in a timestamp: a decimal digit or one of `-`, `+`,
/// `:`, `.` and `T`.
pub open spec fn is_timestamp_char(c: char) -> bool {
    ||| '0' <= c <= '9'
    ||| c == '-'
    ||| c == '+'
    ||| c == ':'
    ||| c == '.'
    ||| c == 'T'
}

/// Whether `text` is made of timestamp characters only.
pub open spec fn is_timestamp(text: Seq<char>) -> bool {
    forall|i: int| 0 <= i < text.len() ==> is_timestamp_char(#[trigger] text[i])
}

/// Whether `byte` is the ASCII code of a timestamp character.
fn is_timestamp_byte(byte: u8) -> (ok: bool)
    ensures
        ok == is_timestamp_char(byte as char),
{
    (48 <= byte && byte <= 57) || byte == 45 || byte == 43 || byte == 58 || byte == 46 || byte
        == 84
}

/// Checks that `text` is made of timestamp characters only.
pub fn is_timestamp_text(text: &str) -> (ok: bool)
    ensures
        ok == is_timestamp(text@),
{
    if !text.is_ascii() {
        return false;
    }
    let bytes = text.as_bytes();
    proof {
        vstd::string::is_ascii_spec_bytes(text);
    }
    let mut i: usize = 0;
    while i < bytes.len()
        invariant
            i <= bytes@.len(),
            bytes@.len() == text@.len(),
            forall|k: int| 0 <= k < text@.len() ==> bytes@[k] == text@[k] as u8,
            forall|k: int| 0 <= k < text@.len() ==> '\0' <= #[trigger] text@[k] <= '\u{7f}',
            forall|k: int| 0 <= k < i ==> is_timestamp_char(#[trigger] text@[k]),
        decreases bytes@.len() - i,
    {
        if !is_timestamp_byte(bytes[i]) {
            return false;
        }
        i = i + 1;
    }
    true
}

/// The text of the line that carries the given parts, line terminator
/// included.
pub open spec fn line_text(
    timestamp: Seq<char>,
    level: Seq<char>,
    message: Seq<char>,
    transaction_id: nat,
) -> Seq<char> {
    "["@ + timestamp + "] ["@ + level + "] "@ + message + " - TransactionID:"@ + decimal(
        transaction_id,
    ) + "\n"@
}

/// Size of a line in bytes: 24 bytes of punctuation and fixed words, the
/// sizes of the timestamp, the label and the message, and one byte for each
/// digit of the identifier.
pub proof fn lemma_line_byte_len(
    timestamp: Seq<char>,
    level: Seq<char>,
    message: Seq<char>,
    transaction_id: nat,
)
    ensures
        byte_len(line_text(timestamp, level, message, transaction_id)) == 24 + byte_len(timestamp)
            + byte_len(level) + byte_len(message) + decimal(transaction_id).len(),
{
    reveal_strlit("[");
    reveal_strlit("] [");
    reveal_strlit("] ");
    reveal_strlit(" - TransactionID:");
    reveal_strlit("\n");
    is_ascii_chars_encode_utf8("["@);
    is_ascii_chars_encode_utf8("] ["@);
    is_ascii_chars_encode_utf8("] "@);
    is_ascii_chars_encode_utf8(" - TransactionID:"@);
    is_ascii_chars_encode_utf8("\n"@);
    lemma_decimal_digits(transaction_id);
    let t1 = "["@ + timestamp;
    let t2 = t1 + "] ["@;
    let t3 = t2 + level;
    let t4 = t3 + "] "@;
    let t5 = t4 + message;
    let t6 = t5 + " - TransactionID:"@;
    let t7 = t6 + decimal(transaction_id);
    lemma_byte_len_concat("["@, timestamp);
    lemma_byte_len_concat(t1, "] ["@);
    lemma_byte_len_concat(t2, level);
    lemma_byte_len_concat(t3, "] "@);
    lemma_byte_len_concat(t4, message);
    lemma_byte_len_concat(t5, " - TransactionID:"@);
    lemma_byte_len_concat(t6, decimal(transaction_id));
    lemma_byte_len_concat(t7, "\n"@);
}

/// The grammar of a line: a timestamp, one of `levels`, one of `messages` and
/// a transaction identifier between 1000 and 9999, laid out as `line_text`
/// does.
pub open spec fn is_log_line(
    line: Seq<char>,
    levels: Seq<Seq<char>>,
    messages: Seq<Seq<char>>,
) -> bool {
    exists|timestamp: Seq<char>, i: int, j: int, id: nat|
        {
            &&& is_timestamp(timestamp)
            &&& 0 <= i < levels.len()
            &&& 0 <= j < messages.len()
            &&& TRANSACTION_ID_MIN <= id <= TRANSACTION_ID_MAX
            &&& line == #[trigger] line_text(timestamp, levels[i], messages[j], id)
        }
}

/// A line is never empty: it holds its terminator at least.
pub proof fn lemma_log_line_not_empty(
    line: Seq<char>,
    levels: Seq<Seq<char>>,
    messages: Seq<Seq<char>>,
)
    requires
        is_log_line(line, levels, messages),
    ensures
        line.len() > 0,
        byte_len(line) > 0,
{
    reveal_strlit("\n");
    lemma_byte_len_at_least_len(line);
}

/// Whether `text` holds no line terminator.
pub open spec fn is_single_line(text: Seq<char>) -> bool {
    forall|i: int| 0 <= i < text.len() ==> #[trigger] text[i] != '\n'
}

/// Where no label and no message holds a line terminator, a line holds
/// exactly one, at its end: the lines of an artifact are what lies between
/// its terminators.
pub proof fn lemma_log_line_ends_at_terminator(
    line: Seq<char>,
    levels: Seq<Seq<char>>,
    messages: Seq<Seq<char>>,
)
    requires
        is_log_line(line, levels, messages),
        forall|i: int| 0 <= i < levels.len() ==> is_single_line(#[trigger] levels[i]),
        forall|j: int| 0 <= j < messages.len() ==> is_single_line(#[trigger] messages[j]),
    ensures
        line.len() > 0,
        line.last() == '\n',
        is_single_line(line.drop_last()),
{
    let (timestamp, i, j, id): (Seq<char>, int, int, nat) = choose|
        timestamp: Seq<char>,
        i: int,
        j: int,
        id: nat,
    |
        {
            &&& is_timestamp(timestamp)
            &&& 0 <= i < levels.len()
            &&& 0 <= j < messages.len()
            &&& TRANSACTION_ID_MIN <= id <= TRANSACTION_ID_MAX
            &&& line == #[trigger] line_text(timestamp, levels[i], messages[j], id)
        };
    reveal_strlit("[");
    reveal_strlit("] [");
    reveal_strlit("] ");
    reveal_strlit(" - TransactionID:");
    reveal_strlit("\n");
    lemma_decimal_digits(id);
    let body = "["@ + timestamp + "] ["@ + levels[i] + "] "@ + messages[j]
        + " - TransactionID:"@ + decimal(id);
    assert forall|k: int| 0 <= k < body.len() implies #[trigger] body[k] != '\n' by {
        let t1 = "["@ + timestamp;
        let t2 = t1 + "] ["@;
        let t3 = t2 + levels[i];
        let t4 = t3 + "] "@;
        let t5 = t4 + messages[j];
        let t6 = t5 + " - TransactionID:"@;
        if k < t1.len() {
            if k >= 1 {
                assert(is_timestamp_char(timestamp[k - 1]));
            }
        } else if k < t2.len() {
            assert(body[k] == "] ["@[k - t1.len()]);
        } else if k < t3.len() {
            assert(body[k] == levels[i][k - t2.len()]);
        } else if k < t4.len() {
            assert(body[k] == "] "@[k - t3.len()]);
        } else if k < t5.len() {
            assert(body[k] == messages[j][k - t4.len()]);
        } else if k < t6.len() {
            assert(body[k] == " - TransactionID:"@[k - t5.len()]);
        } else {
            assert(body[k] == decimal(id)[k - t6.len()]);
        }
    }
}

/// The parts of one log line before they are laid out as text.
pub struct LineRecord<'a> {
    /// When the line was produced.
    pub timestamp: String,
    /// Severity label.
    pub level: &'a str,
    /// What happened.
    pub message: &'a str,
    /// Identifier of the transaction the line belongs to.
    pub transaction_id: u32,
}

impl<'a> LineRecord<'a> {
    /// The text this record is written as.
    pub open spec fn text(&self) -> Seq<char> {
        line_text(self.timestamp@, self.level@, self.message@, self.transaction_id as nat)
    }

    /// Whether the record's parts are drawn from the given label and message
    /// sets and its identifier and timestamp are in range.
    pub open spec fn well_formed(&self, levels: Seq<Seq<char>>, messages: Seq<Seq<char>>) -> bool {
        &&& is_timestamp(self.timestamp@)
        &&& levels.contains(self.level@)
        &&& messages.contains(self.message@)
        &&& TRANSACTION_ID_MIN <= self.transaction_id <= TRANSACTION_ID_MAX
    }

    /// Appends the record's text to `buf`.
    pub fn write_to(&self, buf: &mut String)
        ensures
            final(buf)@ == old(buf)@ + self.text(),
    {
        buf.append("[");
        buf.append(self.timestamp.as_str());
        buf.append("] [");
        buf.append(self.level);
        buf.append("] ");
        buf.append(self.message);
        buf.append(" - TransactionID:");
        push_decimal(buf, self.transaction_id);
        buf.append("\n");
    }

    /// The record laid out as one line of text.
    pub fn format(&self) -> (line: String)
        ensures
            line@ == self.text(),
    {
        let mut line = String::new();
        self.write_to(&mut line);
        line
    }
}

/// The text of a well-formed record follows the line grammar.
pub proof fn lemma_well_formed_is_log_line(
    record: LineRecord,
    levels: Seq<Seq<char>>,
    messages: Seq<Seq<char>>,
)
    requires
        record.well_formed(levels, messages),
    ensures
        is_log_line(record.text(), levels, messages),
{
    let i = choose|i: int| 0 <= i < levels.len() && levels[i] == record.level@;
    let j = choose|j: int| 0 <= j < messages.len() && messages[j] == record.message@;
    assert(record.text() == line_text(
        record.timestamp@,
        levels[i],
        messages[j],
        record.transaction_id as nat,
    ));
}

} // verus!
