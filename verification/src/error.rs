//! All ways parsing can fail.

use crate::decimal::{decimal, u64_to_decimal, IntegerError};
use vstd::prelude::*;
use vstd::std_specs::cmp::PartialEqSpecImpl;
use vstd::std_specs::convert::FromSpecImpl;
use vstd::string::StringExecFns;

verus! {

/// A fault in the structure of the INI text, with the place where reading
/// stopped.
#[derive(Debug)]
pub struct IniError {
    /// Number of line breaks read before the fault.
    pub line: usize,
    /// Number of characters read on that line.
    pub col: usize,
    /// What was expected there.
    pub msg: String,
}

/// What an [`IniError`] holds.
pub struct IniErrorView {
    pub line: nat,
    pub col: nat,
    pub msg: Seq<char>,
}

impl View for IniError {
    type V = IniErrorView;

    open spec fn view(&self) -> IniErrorView {
        IniErrorView { line: self.line as nat, col: self.col as nat, msg: self.msg@ }
    }
}

/// All ways parsing can fail.
#[derive(Debug)]
pub enum ParseError {
    /// Specified version was not `2`.
    InvalidVersion(u64),
    /// The whole `[playlist]` section's missing.
    MissingPlaylistSection,
    /// Some required key is missing.
    MissingKey(String),
    /// An integer was not actually an integer.
    InvalidInteger(IntegerError),
    /// Other `.ini` parsing errors.
    Ini(IniError),
}

/// What a [`ParseError`] holds.
pub enum ParseErrorView {
    InvalidVersion(u64),
    MissingPlaylistSection,
    MissingKey(Seq<char>),
    InvalidInteger(IntegerError),
    Ini(IniErrorView),
}

impl View for ParseError {
    type V = ParseErrorView;

    open spec fn view(&self) -> ParseErrorView {
        match self {
            ParseError::InvalidVersion(v) => ParseErrorView::InvalidVersion(*v),
            ParseError::MissingPlaylistSection => ParseErrorView::MissingPlaylistSection,
            ParseError::MissingKey(k) => ParseErrorView::MissingKey(k@),
            ParseError::InvalidInteger(e) => ParseErrorView::InvalidInteger(*e),
            ParseError::Ini(e) => ParseErrorView::Ini(e@),
        }
    }
}

/// The wrapped cause of a [`ParseError`].
#[derive(Debug)]
pub enum ErrorSource<'a> {
    /// The fault in an integer.
    InvalidInteger(&'a IntegerError),
    /// The fault in the INI text.
    Ini(&'a IniError),
}

/// The message of an integer fault.
pub open spec fn integer_message(e: IntegerError) -> Seq<char> {
    match e {
        IntegerError::Empty => "cannot parse integer from empty string"@,
        IntegerError::InvalidDigit => "invalid digit found in string"@,
        IntegerError::PosOverflow => "number too large to fit in target type"@,
    }
}

/// The message of an INI fault: line, colon, column, space, what was expected.
pub open spec fn ini_message(e: IniErrorView) -> Seq<char> {
    decimal(e.line) + ":"@ + decimal(e.col) + " "@ + e.msg
}

/// The message of a parse error.
pub open spec fn error_message(e: ParseErrorView) -> Seq<char> {
    match e {
        ParseErrorView::InvalidVersion(v) => "Invalid version "@ + decimal(v as nat)
            + " specified"@,
        ParseErrorView::MissingPlaylistSection => "Missing [playlist] section"@,
        ParseErrorView::MissingKey(k) => "Key \""@ + k + "\" missing"@,
        ParseErrorView::InvalidInteger(e) => integer_message(e),
        ParseErrorView::Ini(e) => ini_message(e),
    }
}

impl IntegerError {
    /// The human-readable message of this fault.
    pub fn message(&self) -> (r: String)
        ensures
            r@ == integer_message(*self),
    {
        match self {
            IntegerError::Empty => String::from_str("cannot parse integer from empty string"),
            IntegerError::InvalidDigit => String::from_str("invalid digit found in string"),
            IntegerError::PosOverflow => String::from_str(
                "number too large to fit in target type",
            ),
        }
    }
}

impl IniError {
    /// The human-readable message of this fault.
    pub fn message(&self) -> (r: String)
        ensures
            r@ == ini_message(self@),
    {
        let mut r = u64_to_decimal(self.line as u64);
        r.append(":");
        r.append(u64_to_decimal(self.col as u64).as_str());
        r.append(" ");
        r.append(self.msg.as_str());
        r
    }
}

impl Clone for IniError {
    fn clone(&self) -> (r: Self)
        ensures
            r@ == self@,
    {
        IniError { line: self.line, col: self.col, msg: self.msg.clone() }
    }
}

impl ParseError {
    /// The human-readable message of this error.
    pub fn message(&self) -> (r: String)
        ensures
            r@ == error_message(self@),
    {
        match self {
            ParseError::InvalidVersion(v) => {
                let mut r = String::from_str("Invalid version ");
                r.append(u64_to_decimal(*v).as_str());
                r.append(" specified");
                r
            },
            ParseError::MissingPlaylistSection => String::from_str("Missing [playlist] section"),
            ParseError::MissingKey(k) => {
                let mut r = String::from_str("Key \"");
                r.append(k.as_str());
                r.append("\" missing");
                r
            },
            ParseError::InvalidInteger(e) => e.message(),
            ParseError::Ini(e) => e.message(),
        }
    }

    /// The cause that this error wraps: the integer fault or the INI fault.
    /// The other errors wrap none.
    pub fn source(&self) -> (r: Option<ErrorSource<'_>>)
        ensures
            match r {
                Some(ErrorSource::InvalidInteger(e)) => *self == ParseError::InvalidInteger(*e),
                Some(ErrorSource::Ini(e)) => *self == ParseError::Ini(*e),
                None => !(self is InvalidInteger) && !(self is Ini),
            },
    {
        match self {
            ParseError::InvalidInteger(e) => Some(ErrorSource::InvalidInteger(e)),
            ParseError::Ini(e) => Some(ErrorSource::Ini(e)),
            _ => None,
        }
    }
}

impl From<IniError> for ParseError {
    fn from(e: IniError) -> (r: ParseError) {
        ParseError::Ini(e)
    }
}

impl FromSpecImpl<IniError> for ParseError {
    open spec fn obeys_from_spec() -> bool {
        true
    }

    open spec fn from_spec(e: IniError) -> ParseError {
        ParseError::Ini(e)
    }
}

impl From<IntegerError> for ParseError {
    fn from(e: IntegerError) -> (r: ParseError) {
        ParseError::InvalidInteger(e)
    }
}

impl FromSpecImpl<IntegerError> for ParseError {
    open spec fn obeys_from_spec() -> bool {
        true
    }

    open spec fn from_spec(e: IntegerError) -> ParseError {
        ParseError::InvalidInteger(e)
    }
}

impl Clone for ParseError {
    fn clone(&self) -> (r: Self)
        ensures
            r@ == self@,
    {
        match self {
            ParseError::InvalidVersion(v) => ParseError::InvalidVersion(*v),
            ParseError::MissingPlaylistSection => ParseError::MissingPlaylistSection,
            ParseError::MissingKey(k) => ParseError::MissingKey(k.clone()),
            ParseError::InvalidInteger(e) => ParseError::InvalidInteger(*e),
            ParseError::Ini(e) => ParseError::Ini(e.clone()),
        }
    }
}

impl PartialEq for ParseError {
    fn eq(&self, rhs: &ParseError) -> (r: bool) {
        match (self, rhs) {
            (ParseError::InvalidVersion(v), ParseError::InvalidVersion(rv)) => *v == *rv,
            (ParseError::MissingPlaylistSection, ParseError::MissingPlaylistSection) => true,
            (ParseError::MissingKey(k), ParseError::MissingKey(rk)) => *k == *rk,
            (ParseError::InvalidInteger(e), ParseError::InvalidInteger(re)) => *e == *re,
            (ParseError::Ini(e), ParseError::Ini(re)) => e.line == re.line && e.col == re.col
                && e.msg == re.msg,
            (_, _) => false,
        }
    }
}

impl PartialEqSpecImpl for ParseError {
    open spec fn obeys_eq_spec() -> bool {
        true
    }

    open spec fn eq_spec(&self, rhs: &ParseError) -> bool {
        self@ == rhs@
    }
}

} // verus!
