//! The result of parsing a line: a command with its payload, or an error.
use vstd::prelude::*;

verus! {

/// The two instructions a line can carry.
#[derive(Clone, Copy, Debug, PartialEq, Eq, Structural)]
pub enum Command {
    Retrieve,
    Publish,
}

/// A successfully parsed line: the command and the text that came with it
/// (always empty for `Retrieve`).
#[derive(Debug)]
pub struct Package {
    pub command: Command,
    pub payload: String,
}

impl View for Package {
    type V = (Command, Seq<char>);

    open spec fn view(&self) -> (Command, Seq<char>) {
        (self.command, self.payload@)
    }
}

/// Why a line could not be parsed.
#[derive(Clone, Copy, Debug, PartialEq, Eq, Structural)]
pub enum ParseError {
    /// The line has fewer bytes than the shortest command.
    TooShortInput,
    /// The line starts with `RETRIEVE ` instead of `RETRIEVE\n`.
    RetrieveSyntaxError,
    /// The line has the shape of neither command.
    NoPatternDetected,
}

impl ParseError {
    /// The fixed human-readable text of each error.
    pub open spec fn text(self) -> Seq<char> {
        match self {
            ParseError::TooShortInput => "Input message is too short."@,
            ParseError::RetrieveSyntaxError => "Wrong RETRIEVE syntax."@,
            ParseError::NoPatternDetected => "No pattern detected."@,
        }
    }

    /// The error's text, as a static string.
    pub fn description(&self) -> (r: &'static str)
        ensures
            r@ == self.text(),
    {
        match self {
            ParseError::TooShortInput => "Input message is too short.",
            ParseError::RetrieveSyntaxError => "Wrong RETRIEVE syntax.",
            ParseError::NoPatternDetected => "No pattern detected.",
        }
    }

    /// The error's text, as an owned string.
    pub fn to_string(&self) -> (r: String)
        ensures
            r@ == self.text(),
    {
        self.description().to_owned()
    }
}

/// The mathematical value of a parse outcome.
pub open spec fn outcome(r: Result<Package, ParseError>) -> Result<(Command, Seq<char>), ParseError> {
    match r {
        Ok(p) => Ok(p@),
        Err(e) => Err(e),
    }
}

} // verus!
