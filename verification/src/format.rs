//! The output formatter: one message, one line of bytes.

use crate::decimal::{decimal, push_decimal};
use crate::message::{Message, Record};
use vstd::prelude::*;
use vstd::utf8::encode_utf8;

verus! {

/// The byte that ends every line.
pub const NEWLINE: u8 = 10;

/// The byte `:`, after the topic and after the offset.
pub const COLON: u8 = 58;

/// The byte `@`, between the partition and the offset.
pub const AT: u8 = 64;

impl Record {
    /// `<topic>:<partition>@<offset>:`, the topic in UTF-8, the numbers in
    /// decimal.
    pub open spec fn prefix(self) -> Seq<u8> {
        encode_utf8(self.topic) + seq![COLON] + decimal(self.partition as int) + seq![AT]
            + decimal(self.offset as int) + seq![COLON]
    }

    /// The line of this message: with a verbosity other than zero the
    /// prefix, then in any case the payload and a newline.
    pub open spec fn line(self, verbose: i32) -> Seq<u8> {
        if verbose != 0 {
            self.prefix() + self.value + seq![NEWLINE]
        } else {
            self.value + seq![NEWLINE]
        }
    }
}

/// The lines of some messages, in their order.
pub open spec fn lines_of(records: Seq<Record>, verbose: i32) -> Seq<Seq<u8>> {
    Seq::new(records.len(), |i: int| records[i].line(verbose))
}

/// Formatting is repeatable: two outputs of the formatter for the same
/// message under the same verbosity are the same bytes.
pub proof fn lemma_format_repeats(first: Seq<u8>, second: Seq<u8>, record: Record, verbose: i32)
    requires
        first == record.line(verbose),
        second == record.line(verbose),
    ensures
        first == second,
{
}

/// The shape of a line. With a verbosity other than zero it starts with
/// the prefix of its message, and goes on with the payload and a newline;
/// with verbosity zero it is the payload and a newline and no more. Which
/// verbosity other than zero is given makes no difference.
pub proof fn lemma_line_shape(record: Record, verbose: i32)
    ensures
        verbose != 0 ==> record.prefix().is_prefix_of(record.line(verbose)),
        verbose != 0 ==> record.line(verbose) == record.prefix() + record.value.push(NEWLINE),
        verbose != 0 ==> record.line(verbose) == record.line(1),
        verbose == 0 ==> record.line(verbose) == record.value.push(NEWLINE),
        record.line(verbose).len() >= 1,
        record.line(verbose).last() == NEWLINE,
{
}

/// Appends the bytes of `bytes` to `buf`.
fn push_bytes(buf: &mut Vec<u8>, bytes: &[u8])
    ensures
        final(buf)@ == old(buf)@ + bytes@,
{
    buf.extend_from_slice(bytes);
}

/// Resets `buf` and writes the line of `message` into it. What `buf` held
/// before has no part in the result, so one buffer serves message after
/// message.
pub fn format_into(
    buf: &mut Vec<u8>,
    topic: &str,
    partition: i32,
    message: &Message,
    verbose: i32,
)
    ensures
        final(buf)@ == (Record {
            topic: topic@,
            partition,
            offset: message.offset,
            value: message.value@,
        }).line(verbose),
{
    buf.clear();
    if verbose != 0 {
        push_bytes(buf, topic.as_bytes());
        buf.push(COLON);
        push_decimal(buf, partition as i64);
        buf.push(AT);
        push_decimal(buf, message.offset);
        buf.push(COLON);
    }
    push_bytes(buf, message.value.as_slice());
    buf.push(NEWLINE);
}

/// The line of `message` in a buffer of its own.
pub fn format_message(
    topic: &str,
    partition: i32,
    message: &Message,
    verbose: i32,
) -> (line: Vec<u8>)
    ensures
        line@ == (Record {
            topic: topic@,
            partition,
            offset: message.offset,
            value: message.value@,
        }).line(verbose),
{
    let mut line: Vec<u8> = Vec::new();
    format_into(&mut line, topic, partition, message, verbose);
    line
}

} // verus!
