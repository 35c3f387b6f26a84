//! Structured responses: the closed set of result variants a request can
//! return. Exactly one variant is selected per request; selecting it is the
//! terminal action of every handler.

use vstd::prelude::*;

verus! {

/// Status of a successful call that nevertheless reports a caller-fault
/// condition. Such a response is an ordinary successful result, never a
/// call-level failure.
#[derive(Debug, Clone, Copy, PartialEq, Eq, Structural)]
pub enum ClientErrorCode {
    /// A mutating request was made without the write permission.
    Forbidden,
    /// The requested file does not exist.
    NotFound,
}

/// The response to a GET, PUT or DELETE request. A content response always
/// carries the success status OK.
#[derive(Debug, Clone, PartialEq, Eq)]
pub enum Response {
    /// Success with a payload: a MIME type and the exact body bytes.
    Content { mime_type: String, body: Vec<u8> },
    /// Success without a payload (a completed PUT or DELETE).
    NoContent,
    /// Success whose payload is a caller-fault status code.
    ClientError { code: ClientErrorCode },
    /// A correction pointing the caller at a directory's slash-terminated
    /// form.
    Redirect { location: String, is_permanent: bool, switch_to_get: bool },
}

/// Mathematical image of a [`Response`].
pub enum ResponseView {
    Content { mime_type: Seq<char>, body: Seq<u8> },
    NoContent,
    ClientError { code: ClientErrorCode },
    Redirect { location: Seq<char>, is_permanent: bool, switch_to_get: bool },
}

impl View for Response {
    type V = ResponseView;

    open spec fn view(&self) -> ResponseView {
        match self {
            Response::Content { mime_type, body } => ResponseView::Content {
                mime_type: mime_type@,
                body: body@,
            },
            Response::NoContent => ResponseView::NoContent,
            Response::ClientError { code } => ResponseView::ClientError { code: *code },
            Response::Redirect { location, is_permanent, switch_to_get } => {
                ResponseView::Redirect {
                    location: location@,
                    is_permanent: *is_permanent,
                    switch_to_get: *switch_to_get,
                }
            },
        }
    }
}

} // verus!
