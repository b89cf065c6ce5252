use crate::text::{first_index, lemma_first_index_is};
use vstd::prelude::*;
use vstd::utf8::{decode_utf8, valid_utf8};

verus! {

/// The line feed, which ends a line.
pub const LF: u8 = 10;

/// The carriage return, which may stand before the line feed.
pub const CR: u8 = 13;

/// The bytes of the first line of `log`: what stands before the first line
/// feed, without a carriage return that stands right before it; all of
/// `log` where it holds no line feed.
pub open spec fn first_line(log: Seq<u8>) -> Seq<u8> {
    let end = first_index(log, LF);
    if 0 < end < log.len() && log[end - 1] == CR {
        log.take(end - 1)
    } else {
        log.take(end as int)
    }
}

/// What follows the first line of `log` and the line feed that ends it.
pub open spec fn after_first_line(log: Seq<u8>) -> Seq<u8> {
    let end = first_index(log, LF);
    if end < log.len() {
        log.skip((end + 1) as int)
    } else {
        Seq::empty()
    }
}

/// The lines of `log` as texts, up to the first line that is not UTF-8.
pub open spec fn log_lines(log: Seq<u8>) -> Seq<Seq<char>>
    decreases log.len(),
{
    if log.len() == 0 || !valid_utf8(first_line(log)) {
        Seq::empty()
    } else {
        seq![decode_utf8(first_line(log))] + log_lines(after_first_line(log))
    }
}

/// `String::from_utf8` of std, its error dropped: the text that `bytes`
/// encode, where they are UTF-8, and nothing where they are not. Taken on
/// trust: that std accepts the byte sequences that `valid_utf8` describes
/// and decodes them as `decode_utf8` does.
#[verifier::external_body]
fn from_utf8(bytes: Vec<u8>) -> (text: Option<String>)
    ensures
        text is Some <==> valid_utf8(bytes@),
        text matches Some(decoded) ==> decoded@ == decode_utf8(bytes@),
{
    String::from_utf8(bytes).ok()
}

/// Finds the first `byte` among the bytes from `from` up to `to`.
fn find_byte(bytes: &[u8], from: usize, to: usize, byte: u8) -> (at: usize)
    requires
        from <= to <= bytes.len(),
    ensures
        from <= at <= to,
        at == from + first_index(bytes@.subrange(from as int, to as int), byte),
{
    let mut i: usize = from;
    while i < to && bytes[i] != byte
        invariant
            from <= i <= to <= bytes.len(),
            forall|j: int| from <= j < i ==> bytes[j] != byte,
        decreases to - i,
    {
        i += 1;
    }
    proof {
        lemma_first_index_is(bytes@.subrange(from as int, to as int), byte, (i - from) as nat);
    }
    i
}

/// Copies the bytes from `from` up to `to`.
fn copy_range(bytes: &[u8], from: usize, to: usize) -> (copy: Vec<u8>)
    requires
        from <= to <= bytes.len(),
    ensures
        copy@ == bytes@.subrange(from as int, to as int),
{
    let mut copy: Vec<u8> = Vec::new();
    let mut i: usize = from;
    while i < to
        invariant
            from <= i <= to <= bytes.len(),
            copy@ == bytes@.subrange(from as int, i as int),
        decreases to - i,
    {
        copy.push(bytes[i]);
        i += 1;
    }
    copy
}

/// Cuts `log` into its lines. A line ends at a line feed, which is dropped
/// together with a carriage return right before it; what follows the last
/// line feed is a line too unless it is empty. Reading stops before the
/// first line that is not UTF-8.
pub fn read_lines(log: &[u8]) -> (lines: Vec<String>)
    ensures
        lines.deep_view() == log_lines(log@),
{
    let mut lines: Vec<String> = Vec::new();
    let mut pos: usize = 0;
    assert(log@.skip(0) =~= log@);
    while pos < log.len()
        invariant
            pos <= log.len(),
            log_lines(log@) == lines.deep_view() + log_lines(log@.skip(pos as int)),
        decreases log.len() - pos,
    {
        let ghost rest = log@.skip(pos as int);
        let end = find_byte(log, pos, log.len(), LF);
        let stop = if pos < end && end < log.len() && log[end - 1] == CR {
            end - 1
        } else {
            end
        };
        let body = copy_range(log, pos, stop);
        assert(body@ =~= first_line(rest));
        match from_utf8(body) {
            None => {
                return lines;
            },
            Some(line) => {
                lines.push(line);
                let next = if end < log.len() {
                    end + 1
                } else {
                    end
                };
                assert(after_first_line(rest) =~= log@.skip(next as int));
                pos = next;
            },
        }
    }
    lines
}

} // verus!
