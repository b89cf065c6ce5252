use crate::text::to_chars;
use vstd::prelude::*;

verus! {

/// The character that begins an escape sequence.
pub const ESC: char = '\u{1b}';

/// The longest number, in digits, accepted among the parameters of an
/// escape sequence.
pub const PARAM_DIGITS: usize = 4;

/// The texts between the escape sequences of `line`, in their order, as the
/// decoder of escape sequences hands them out.
pub uninterp spec fn sgr_texts(line: Seq<char>) -> Seq<Seq<char>>;

/// Whether `c` is a decimal digit.
pub open spec fn is_digit(c: char) -> bool {
    '0' <= c <= '9'
}

/// Whether `c` can stand in an escape sequence before the letter that ends
/// it: the bracket, a parameter or an intermediate character.
pub open spec fn in_sequence(c: char) -> bool {
    (' ' <= c <= '?') || c == '['
}

/// The number of digits in a row that end right before position `at`
/// within an escape sequence; nothing where `at` is outside such a sequence.
pub open spec fn digits_before(line: Seq<char>, at: int) -> Option<nat>
    decreases at,
{
    if at <= 0 || at > line.len() {
        None
    } else if line[at - 1] == ESC {
        Some(0)
    } else {
        match digits_before(line, at - 1) {
            None => None,
            Some(run) => if is_digit(line[at - 1]) {
                Some(run + 1)
            } else if in_sequence(line[at - 1]) {
                Some(0)
            } else {
                None
            },
        }
    }
}

/// Whether no escape sequence of `line` holds a number of more than
/// `PARAM_DIGITS` digits.
pub open spec fn escapes_short(line: Seq<char>) -> bool {
    forall|at: int|
        0 <= at <= line.len() ==> match #[trigger] digits_before(line, at) {
            Some(run) => run <= PARAM_DIGITS,
            None => true,
        }
}

/// Tells whether `line` can be handed to the decoder of escape sequences.
pub fn has_short_escapes(line: &str) -> (short: bool)
    ensures
        short == escapes_short(line@),
{
    let chars = to_chars(line);
    let mut run: Option<usize> = None;
    let mut i: usize = 0;
    while i < chars.len()
        invariant
            i <= chars.len(),
            chars@ == line@,
            match run {
                Some(n) => n <= PARAM_DIGITS && digits_before(line@, i as int) == Some(n as nat),
                None => digits_before(line@, i as int) is None,
            },
            forall|at: int|
                0 <= at <= i ==> match #[trigger] digits_before(line@, at) {
                    Some(run) => run <= PARAM_DIGITS,
                    None => true,
                },
        decreases chars.len() - i,
    {
        let c = chars[i];
        run = if c == ESC {
            Some(0)
        } else {
            match run {
                None => None,
                Some(n) => if '0' <= c && c <= '9' {
                    Some(n + 1)
                } else if (' ' <= c && c <= '?') || c == '[' {
                    Some(0)
                } else {
                    None
                },
            }
        };
        i += 1;
        if let Some(n) = run {
            if n > PARAM_DIGITS {
                return false;
            }
        }
    }
    true
}

/// `get_sgr_segments` of yew_ansi, each segment without its effect: the
/// texts of `line` between its escape sequences. Taken on trust: that these
/// texts depend on the characters of `line` alone, which is all that their
/// name `sgr_texts` says. The numbers inside the sequences are kept short,
/// since the decoder shifts and adds the parts of a color without a check
/// for overflow.
#[verifier::external_body]
fn sgr_segments(line: &str) -> (texts: Vec<String>)
    requires
        escapes_short(line@),
    ensures
        texts.deep_view() == sgr_texts(line@),
{
    yew_ansi::get_sgr_segments(line).map(|(_, text)| text.to_owned()).collect()
}

/// Cuts `line` at its escape sequences and hands out the texts between
/// them, unless a number in one of the sequences is too long to decode.
pub fn segments(line: &str) -> (texts: Option<Vec<String>>)
    ensures
        texts is Some <==> escapes_short(line@),
        texts matches Some(found) ==> found.deep_view() == sgr_texts(line@),
{
    if has_short_escapes(line) {
        Some(sgr_segments(line))
    } else {
        None
    }
}

} // verus!
