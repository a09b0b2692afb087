//! Classification of one input line as a command or an error.
use vstd::prelude::*;
use vstd::utf8::encode_utf8;

use crate::text::{has_prefix, lemma_utf8_len_bounds, starts_with};
use crate::types::{outcome, Command, Package, ParseError};

verus! {

/// The fewest bytes a line can have and still be parsed further.
pub const MIN_INPUT_BYTES: usize = 8;

/// The one accepted `RETRIEVE` line.
pub open spec fn retrieve_line() -> Seq<char> {
    "RETRIEVE\n"@
}

/// A `RETRIEVE` followed by an argument, which is not allowed.
pub open spec fn retrieve_lead() -> Seq<char> {
    "RETRIEVE "@
}

/// What a `PUBLISH` line starts with; the payload follows it.
pub open spec fn publish_lead() -> Seq<char> {
    "PUBLISH "@
}

/// The decision on a line that is long enough, in order: the exact
/// `RETRIEVE` line, a `RETRIEVE` with an argument, a `PUBLISH` whose payload
/// is what lies between the lead and the last character, and nothing else.
/// A `PUBLISH ` with nothing after it has no last character to drop and
/// is no command.
pub open spec fn classify(line: Seq<char>) -> Result<(Command, Seq<char>), ParseError> {
    if line == retrieve_line() {
        Ok((Command::Retrieve, Seq::empty()))
    } else if starts_with(line, retrieve_lead()) {
        Err(ParseError::RetrieveSyntaxError)
    } else if starts_with(line, publish_lead()) && line.len() > publish_lead().len() {
        Ok((Command::Publish, line.subrange(publish_lead().len() as int, line.len() - 1)))
    } else {
        Err(ParseError::NoPatternDetected)
    }
}

/// The line with a leading `prefix` and one space removed, where it has them.
pub open spec fn without_lead(line: Seq<char>, prefix: Seq<char>) -> Seq<char> {
    if starts_with(line, prefix.push(' ')) {
        line.subrange(prefix.len() as int + 1, line.len() as int)
    } else {
        line
    }
}

/// Too short when under `MIN_INPUT_BYTES` bytes of UTF-8, else classified.
pub open spec fn parse_line(line: Seq<char>) -> Result<(Command, Seq<char>), ParseError> {
    if encode_utf8(line).len() < MIN_INPUT_BYTES {
        Err(ParseError::TooShortInput)
    } else {
        classify(line)
    }
}

/// As `parse_line`, but a leading `prefix` and space are removed before
/// classifying; the length is still that of the whole line.
pub open spec fn parse_line_with_prefix(line: Seq<char>, prefix: Seq<char>) -> Result<
    (Command, Seq<char>),
    ParseError,
> {
    if encode_utf8(line).len() < MIN_INPUT_BYTES {
        Err(ParseError::TooShortInput)
    } else {
        classify(without_lead(line, prefix))
    }
}

/// Tests whether `message` has fewer than `MIN_INPUT_BYTES` bytes. Past that
/// many characters it cannot, and below it the byte count is small enough
/// to be read exactly.
fn is_too_short(message: &str) -> (r: bool)
    ensures
        r == (encode_utf8(message@).len() < MIN_INPUT_BYTES),
{
    let n = message.unicode_len();
    proof {
        lemma_utf8_len_bounds(message@);
    }
    if n >= MIN_INPUT_BYTES {
        false
    } else {
        message.len() < MIN_INPUT_BYTES
    }
}

/// Decides on a line that has passed the length check.
fn classify_str(line: &str) -> (r: Result<Package, ParseError>)
    ensures
        outcome(r) == classify(line@),
{
    proof {
        reveal_strlit("RETRIEVE\n");
        reveal_strlit("RETRIEVE ");
        reveal_strlit("PUBLISH ");
    }
    let n = line.unicode_len();
    assert(retrieve_line().len() == 9);
    assert(retrieve_lead().len() == 9);
    assert(publish_lead().len() == 8);
    proof {
        if line@ == retrieve_line() {
            assert(line@.subrange(0, 9) =~= line@);
        }
    }
    if n == 9 && has_prefix(line, "RETRIEVE\n") {
        assert(line@ =~= retrieve_line());
        Ok(Package { command: Command::Retrieve, payload: String::new() })
    } else if has_prefix(line, "RETRIEVE ") {
        Err(ParseError::RetrieveSyntaxError)
    } else if n > 8 && has_prefix(line, "PUBLISH ") {
        let body = line.substring_char(8, n - 1);
        Ok(Package { command: Command::Publish, payload: body.to_owned() })
    } else {
        Err(ParseError::NoPatternDetected)
    }
}

/// Parses one line into a `Package`, or says why it cannot. The line is
/// taken as it is; `parse_with_prefix` first removes a leading prefix.
pub fn parse(message: &str) -> (r: Result<Package, ParseError>)
    ensures
        outcome(r) == parse_line(message@),
{
    if is_too_short(message) {
        Err(ParseError::TooShortInput)
    } else {
        classify_str(message)
    }
}

/// Parses one line as `parse` does, after removing a leading `prefix`
/// followed by a space, where the line has them. The length check applies
/// to the line as given.
pub fn parse_with_prefix(message: &str, prefix: &str) -> (r: Result<Package, ParseError>)
    ensures
        outcome(r) == parse_line_with_prefix(message@, prefix@),
{
    if is_too_short(message) {
        return Err(ParseError::TooShortInput);
    }
    let n = message.unicode_len();
    let m = prefix.unicode_len();
    if m < n && has_prefix(message, prefix) && message.get_char(m) == ' ' {
        assert(message@.subrange(0, m + 1) =~= prefix@.push(' '));
        let rest = message.substring_char(m + 1, n);
        assert(without_lead(message@, prefix@) == rest@);
        classify_str(rest)
    } else {
        assert(without_lead(message@, prefix@) == message@) by {
            if starts_with(message@, prefix@.push(' ')) {
                assert(message@.subrange(0, m as int) =~= prefix@.push(' ').subrange(0, m as int));
                assert(prefix@.push(' ').subrange(0, m as int) =~= prefix@);
                assert(message@.subrange(0, m + 1)[m as int] == ' ');
            }
        }
        classify_str(message)
    }
}

} // verus!
