//! The failures a run can end with.
use vstd::prelude::*;

verus! {

/// Marks `reqwest::header::InvalidHeaderValue` as a type the verifier carries
/// through without looking inside. It is what `HeaderValue::from_str` fails with.
#[verifier::external_type_specification]
#[verifier::external_body]
pub struct ExInvalidHeaderValue(reqwest::header::InvalidHeaderValue);

/// Marks `reqwest::header::InvalidHeaderName` as a type the verifier carries
/// through without looking inside. It is what `HeaderName::from_str` fails with.
#[verifier::external_type_specification]
#[verifier::external_body]
pub struct ExInvalidHeaderName(reqwest::header::InvalidHeaderName);

/// Every way a run can fail. All of them are terminal.
#[derive(Debug)]
pub enum Error {
    /// The file at this path holds nothing but, at most, one newline.
    FileIsEmpty(String),
    /// No file exists at this path.
    FileNotFound(String),
    /// No zone of the account carries the configured domain name.
    DnsZoneNotFound,
    /// No record of the zone carries the configured domain name.
    DnsRecordNotFound,
    /// The server answered with a status outside 200..=299.
    StatusCodeError { status: u16, body: String },
    /// Reading a file failed; the text is the cause.
    Io(String),
    /// The request never produced a response; the text is the cause.
    Request(String),
    /// A header name was refused.
    InvalidHeaderName(reqwest::header::InvalidHeaderName),
    /// A credential holds a character that no header value may carry.
    InvalidHeaderValue(reqwest::header::InvalidHeaderValue),
    /// A body could not be decoded from, or encoded to, JSON.
    Serde(String),
}

/// What an [`Error`] says, with every text as a sequence of characters.
pub enum ErrorView {
    FileIsEmpty(Seq<char>),
    FileNotFound(Seq<char>),
    DnsZoneNotFound,
    DnsRecordNotFound,
    StatusCodeError { status: u16, body: Seq<char> },
    Io(Seq<char>),
    Request(Seq<char>),
    InvalidHeaderName,
    InvalidHeaderValue,
    Serde(Seq<char>),
}

impl View for Error {
    type V = ErrorView;

    open spec fn view(&self) -> ErrorView {
        match *self {
            Error::FileIsEmpty(path) => ErrorView::FileIsEmpty(path@),
            Error::FileNotFound(path) => ErrorView::FileNotFound(path@),
            Error::DnsZoneNotFound => ErrorView::DnsZoneNotFound,
            Error::DnsRecordNotFound => ErrorView::DnsRecordNotFound,
            Error::StatusCodeError { status, body } => ErrorView::StatusCodeError {
                status,
                body: body@,
            },
            Error::Io(cause) => ErrorView::Io(cause@),
            Error::Request(cause) => ErrorView::Request(cause@),
            Error::InvalidHeaderName(_) => ErrorView::InvalidHeaderName,
            Error::InvalidHeaderValue(_) => ErrorView::InvalidHeaderValue,
            Error::Serde(cause) => ErrorView::Serde(cause@),
        }
    }
}

} // verus!
