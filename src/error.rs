use vstd::prelude::*;
use vstd::string::*;

verus! {

/// Everything that can go wrong in the client.
///
/// Only `InvalidUrl`, `ParseError` and `UrlError` can end a run before the poll
/// loop starts; the rest are reported once and the loop goes on.
#[derive(Debug, Clone)]
pub enum PlurkError {
    /// A key file could not be read or written; holds the file's name.
    IOError(String),
    /// A URL lacks a part that the protocol needs; holds the URL.
    InvalidUrl(String),
    /// A poll response is not wrapped in the comet callback; holds the response.
    InvalidCometData(String),
    /// The payload inside the callback is not a valid batch of events.
    InvalidCometPayload(String),
    /// A response or a URL could not be parsed; holds the parser's message.
    ParseError(String),
    /// The signed request could not be made; holds the transport's message.
    OauthError(String),
    /// A plain request failed on the network or with an error status.
    ReqwestError(String),
    /// A request URL could not be built.
    UrlError,
}

/// The model of a `PlurkError`.
pub enum PlurkErrorView {
    IOError(Seq<char>),
    InvalidUrl(Seq<char>),
    InvalidCometData(Seq<char>),
    InvalidCometPayload(Seq<char>),
    ParseError(Seq<char>),
    OauthError(Seq<char>),
    ReqwestError(Seq<char>),
    UrlError,
}

impl View for PlurkError {
    type V = PlurkErrorView;

    open spec fn view(&self) -> PlurkErrorView {
        match self {
            PlurkError::IOError(s) => PlurkErrorView::IOError(s@),
            PlurkError::InvalidUrl(s) => PlurkErrorView::InvalidUrl(s@),
            PlurkError::InvalidCometData(s) => PlurkErrorView::InvalidCometData(s@),
            PlurkError::InvalidCometPayload(s) => PlurkErrorView::InvalidCometPayload(s@),
            PlurkError::ParseError(s) => PlurkErrorView::ParseError(s@),
            PlurkError::OauthError(s) => PlurkErrorView::OauthError(s@),
            PlurkError::ReqwestError(s) => PlurkErrorView::ReqwestError(s@),
            PlurkError::UrlError => PlurkErrorView::UrlError,
        }
    }
}

impl PlurkError {
    /// A one-line message for the user.
    pub fn describe(&self) -> (r: String)
        ensures
            r@ == self.describe_spec(),
    {
        match self {
            PlurkError::IOError(s) => String::from_str("Invalid file: ").concat(s.as_str()),
            PlurkError::InvalidUrl(s) => String::from_str("Invalid url: ").concat(s.as_str()),
            PlurkError::InvalidCometData(s) => String::from_str("Invalid comet data: ").concat(
                s.as_str(),
            ),
            PlurkError::InvalidCometPayload(s) => String::from_str(
                "Invalid comet payload: ",
            ).concat(s.as_str()),
            PlurkError::ParseError(s) => String::from_str("Parse data error: ").concat(s.as_str()),
            PlurkError::OauthError(s) => String::from_str("oauth1 error: ").concat(s.as_str()),
            PlurkError::ReqwestError(s) => String::from_str("reqwest error: ").concat(s.as_str()),
            PlurkError::UrlError => String::from_str("url error"),
        }
    }

    pub open spec fn describe_spec(&self) -> Seq<char> {
        match self {
            PlurkError::IOError(s) => "Invalid file: "@ + s@,
            PlurkError::InvalidUrl(s) => "Invalid url: "@ + s@,
            PlurkError::InvalidCometData(s) => "Invalid comet data: "@ + s@,
            PlurkError::InvalidCometPayload(s) => "Invalid comet payload: "@ + s@,
            PlurkError::ParseError(s) => "Parse data error: "@ + s@,
            PlurkError::OauthError(s) => "oauth1 error: "@ + s@,
            PlurkError::ReqwestError(s) => "reqwest error: "@ + s@,
            PlurkError::UrlError => "url error"@,
        }
    }
}

} // verus!
