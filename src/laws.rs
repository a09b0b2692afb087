//! Properties of the parser, stated over the model that `parse` and
//! `parse_with_prefix` are specified by.
use vstd::prelude::*;
use vstd::utf8::encode_utf8;

use crate::parser::{
    parse_line, parse_line_with_prefix, publish_lead, retrieve_lead, retrieve_line,
    MIN_INPUT_BYTES,
};
use crate::text::{lemma_utf8_len_bounds, starts_with};
use crate::types::{outcome, Command, Package, ParseError};

verus! {

/// Every line of fewer than eight bytes is too short, whatever prefix is
/// configured.
pub proof fn lemma_short_line_is_too_short(line: Seq<char>, prefix: Seq<char>)
    requires
        encode_utf8(line).len() < MIN_INPUT_BYTES,
    ensures
        parse_line(line) == Err::<(Command, Seq<char>), ParseError>(ParseError::TooShortInput),
        parse_line_with_prefix(line, prefix) == Err::<(Command, Seq<char>), ParseError>(
            ParseError::TooShortInput,
        ),
{
}

/// A line that starts with `RETRIEVE ` is a `RETRIEVE` syntax error,
/// whatever follows the space.
pub proof fn lemma_retrieve_with_argument_is_rejected(rest: Seq<char>)
    ensures
        parse_line(retrieve_lead() + rest) == Err::<(Command, Seq<char>), ParseError>(
            ParseError::RetrieveSyntaxError,
        ),
{
    reveal_strlit("RETRIEVE ");
    reveal_strlit("RETRIEVE\n");
    let line = retrieve_lead() + rest;
    lemma_utf8_len_bounds(line);
    assert(line.subrange(0, 9) =~= retrieve_lead());
    assert(line[8] != retrieve_line()[8]);
}

/// `PUBLISH `, then any text, then a newline, gives a `Publish` package
/// whose payload is exactly that text.
pub proof fn lemma_publish_yields_text(text: Seq<char>)
    ensures
        parse_line(publish_lead() + text + seq!['\n']) == Ok::<(Command, Seq<char>), ParseError>(
            (Command::Publish, text),
        ),
{
    reveal_strlit("PUBLISH ");
    reveal_strlit("RETRIEVE ");
    reveal_strlit("RETRIEVE\n");
    let line = publish_lead() + text + seq!['\n'];
    lemma_utf8_len_bounds(line);
    assert(line[0] == 'P');
    assert(line.subrange(0, 8) =~= publish_lead());
    assert(line.subrange(8, line.len() - 1) =~= text);
}

/// A line of at least eight bytes that starts with none of `RETRIEVE\n`,
/// `RETRIEVE ` and `PUBLISH ` matches no command.
pub proof fn lemma_unknown_line_has_no_pattern(line: Seq<char>)
    requires
        encode_utf8(line).len() >= MIN_INPUT_BYTES,
        !starts_with(line, retrieve_line()),
        !starts_with(line, retrieve_lead()),
        !starts_with(line, publish_lead()),
    ensures
        parse_line(line) == Err::<(Command, Seq<char>), ParseError>(ParseError::NoPatternDetected),
{
    if line == retrieve_line() {
        assert(line.subrange(0, line.len() as int) =~= line);
    }
}

/// Parsing is a function of the line alone: two parses of one line give
/// the same outcome.
pub proof fn lemma_parse_is_deterministic(
    line: Seq<char>,
    first: Result<Package, ParseError>,
    second: Result<Package, ParseError>,
)
    requires
        outcome(first) == parse_line(line),
        outcome(second) == parse_line(line),
    ensures
        outcome(first) == outcome(second),
{
}

} // verus!
