//! Everything that can go wrong between sending a command and reading its
//! answer.
use crate::json::{json_tree, JsonTree};
use vstd::prelude::*;

verus! {

#[derive(Debug)]
pub enum TpLinkHs110Error {
    /// Encrypted response length is too short to hold the length header.
    ShortEncryptedResponse(usize),
    /// The transport failed to connect, write or read; carries its message.
    IO(String),
    /// Mismatch between actual response payload length and payload length
    /// specified in the response header.
    EncryptedPayloadLengthMismatch { payload_len_actual: usize, payload_len_from_header: u32 },
    /// The text given as the network address of the plug is no address;
    /// carries the text.
    AddrParse(String),
    /// The response text is not valid JSON.
    SerdeJson(serde_json::Error),
    /// Given key is not available in the response.
    KeyIsNotAvailable { response: serde_json::Value, key: &'static str },
    /// JSON value represented in unexpected form.
    UnexpectedValueRepresentation,
    /// Smartplug reported the command has failed.
    SmartplugErrCode(i64),
    /// Smartplug network port is not provided.
    PortIsNotProvided,
    /// Smartplug host address is not provided.
    HostIsNotProvided,
}

/// An error as a mathematical value: lengths and codes as integers, texts as
/// sequences of characters, the response as its document.
pub enum ErrorView {
    ShortEncryptedResponse(nat),
    IO(Seq<char>),
    EncryptedPayloadLengthMismatch { payload_len_actual: nat, payload_len_from_header: nat },
    AddrParse(Seq<char>),
    SerdeJson,
    KeyIsNotAvailable { response: JsonTree, key: Seq<char> },
    UnexpectedValueRepresentation,
    SmartplugErrCode(int),
    PortIsNotProvided,
    HostIsNotProvided,
}

impl View for TpLinkHs110Error {
    type V = ErrorView;

    open spec fn view(&self) -> ErrorView {
        match *self {
            TpLinkHs110Error::ShortEncryptedResponse(len) => ErrorView::ShortEncryptedResponse(
                len as nat,
            ),
            TpLinkHs110Error::IO(message) => ErrorView::IO(message@),
            TpLinkHs110Error::EncryptedPayloadLengthMismatch {
                payload_len_actual,
                payload_len_from_header,
            } => ErrorView::EncryptedPayloadLengthMismatch {
                payload_len_actual: payload_len_actual as nat,
                payload_len_from_header: payload_len_from_header as nat,
            },
            TpLinkHs110Error::AddrParse(message) => ErrorView::AddrParse(message@),
            TpLinkHs110Error::SerdeJson(_) => ErrorView::SerdeJson,
            TpLinkHs110Error::KeyIsNotAvailable { response, key } => ErrorView::KeyIsNotAvailable {
                response: json_tree(response),
                key: key@,
            },
            TpLinkHs110Error::UnexpectedValueRepresentation => {
                ErrorView::UnexpectedValueRepresentation
            },
            TpLinkHs110Error::SmartplugErrCode(code) => ErrorView::SmartplugErrCode(code as int),
            TpLinkHs110Error::PortIsNotProvided => ErrorView::PortIsNotProvided,
            TpLinkHs110Error::HostIsNotProvided => ErrorView::HostIsNotProvided,
        }
    }
}

/// The outcome of an operation that yields a text, as a mathematical value.
pub open spec fn text_outcome(r: Result<String, TpLinkHs110Error>) -> Result<Seq<char>, ErrorView> {
    match r {
        Ok(text) => Ok(text@),
        Err(e) => Err(e@),
    }
}

/// The outcome of an operation that yields a JSON value, as a mathematical
/// value.
pub open spec fn json_outcome(r: Result<serde_json::Value, TpLinkHs110Error>) -> Result<
    JsonTree,
    ErrorView,
> {
    match r {
        Ok(value) => Ok(json_tree(value)),
        Err(e) => Err(e@),
    }
}

/// The outcome of an operation that yields a plain value, as a mathematical
/// value.
pub open spec fn outcome<T>(r: Result<T, TpLinkHs110Error>) -> Result<T, ErrorView> {
    match r {
        Ok(value) => Ok(value),
        Err(e) => Err(e@),
    }
}

} // verus!
