//! Parsing of raw message bytes into email records.

use crate::mime::{default_parser, is_default_parser, parse_with, parsed};
use crate::parsed_email::{fields_of, record, ParsedEmail};
use vstd::prelude::*;

verus! {

/// Why raw bytes could not be turned into a record.
#[derive(Debug, PartialEq)]
pub enum ParseError {
    /// The input is not a message in the expected format.
    InvalidFormat(String),
    /// The input needs a feature that the parser lacks.
    UnsupportedFeature(String),
    /// Any other failure.
    Other(String),
}

/// Mathematical model of [`ParseError`].
pub enum ParseErrorView {
    InvalidFormat(Seq<char>),
    UnsupportedFeature(Seq<char>),
    Other(Seq<char>),
}

impl View for ParseError {
    type V = ParseErrorView;

    open spec fn view(&self) -> ParseErrorView {
        match self {
            ParseError::InvalidFormat(detail) => ParseErrorView::InvalidFormat(detail@),
            ParseError::UnsupportedFeature(detail) => ParseErrorView::UnsupportedFeature(detail@),
            ParseError::Other(detail) => ParseErrorView::Other(detail@),
        }
    }
}

impl ParseErrorView {
    /// The text shown for an error: what kind it is, then its detail.
    pub open spec fn message(self) -> Seq<char> {
        match self {
            ParseErrorView::InvalidFormat(detail) => "Invalid email format: "@ + detail,
            ParseErrorView::UnsupportedFeature(detail) => "Unsupported feature: "@ + detail,
            ParseErrorView::Other(detail) => "Other parsing error: "@ + detail,
        }
    }
}

impl ParseError {
    /// The text shown for this error.
    pub fn message(&self) -> (text: String)
        ensures
            text@ == self@.message(),
    {
        match self {
            ParseError::InvalidFormat(detail) => String::from_str("Invalid email format: ").concat(
                detail.as_str(),
            ),
            ParseError::UnsupportedFeature(detail) => String::from_str(
                "Unsupported feature: ",
            ).concat(detail.as_str()),
            ParseError::Other(detail) => String::from_str("Other parsing error: ").concat(
                detail.as_str(),
            ),
        }
    }
}

/// What parsing `raw` gives: the record of the decoded message in the
/// context that the service assigns (unread, unstarred, folder `"hello"`, no
/// account), or an invalid-format error where the decoder finds no message.
pub open spec fn parse_outcome(raw: Seq<u8>) -> Result<
    crate::parsed_email::ParsedEmailView,
    ParseErrorView,
> {
    match parsed(raw) {
        Some(msg) => Ok(record(fields_of(&msg), false, "hello"@, false, None)),
        None => Err(ParseErrorView::InvalidFormat("Failed to parse email"@)),
    }
}

/// The model of a parse result.
pub open spec fn outcome_view(result: Result<ParsedEmail, ParseError>) -> Result<
    crate::parsed_email::ParsedEmailView,
    ParseErrorView,
> {
    match result {
        Ok(email) => Ok(email@),
        Err(error) => Err(error@),
    }
}

/// Turns raw message bytes into email records, with a decoder that it keeps
/// for reuse.
#[derive(Debug, PartialEq)]
pub struct ParseService {
    parser: mail_parser::MessageParser,
}

impl ParseService {
    /// Every service holds a decoder with the default configuration.
    #[verifier::type_invariant]
    spec fn well_formed(self) -> bool {
        is_default_parser(&self.parser)
    }

    /// A service ready to parse: its decoder has the default configuration.
    pub fn new() -> (service: ParseService)
        ensures
            is_default_parser(&service.decoder()),
    {
        ParseService { parser: default_parser() }
    }

    /// The decoder that the service keeps.
    pub closed spec fn decoder(&self) -> mail_parser::MessageParser {
        self.parser
    }

    /// Parses one raw message.
    ///
    /// Fails only where the decoder finds no message in the bytes; a message
    /// that lacks a field gives a record in which that field is absent. What
    /// counts as a message is the decoder's to say, and it is lenient: for a
    /// line of plain words that is no header it still returns a message, one
    /// without subject, sender or body, and the result is a record in which
    /// every field of the message is absent, not an error. Where it returns
    /// no message, as for no bytes at all, the input is rejected.
    pub fn parse_inc_email(&self, raw_email: &[u8]) -> (result: Result<ParsedEmail, ParseError>)
        ensures
            outcome_view(result) == parse_outcome(raw_email@),
    {
        proof {
            use_type_invariant(self);
        }
        match parse_with(&self.parser, raw_email) {
            Some(msg) => Ok(
                ParsedEmail::from_message(msg, false, String::from_str("hello"), false, None),
            ),
            None => Err(ParseError::InvalidFormat(String::from_str("Failed to parse email"))),
        }
    }
}

impl Default for ParseService {
    /// The same as [`ParseService::new`].
    fn default() -> (service: ParseService)
        ensures
            is_default_parser(&service.decoder()),
    {
        ParseService::new()
    }
}

/// Parses one raw message with a service made for the call.
pub fn parse_email(raw: &[u8]) -> (result: Result<ParsedEmail, ParseError>)
    ensures
        outcome_view(result) == parse_outcome(raw@),
{
    let service = ParseService::new();
    service.parse_inc_email(raw)
}

} // verus!
