//! The request and response shapes the engine works on, and their ghost
//! images used throughout the contracts.

use vstd::prelude::*;

verus! {

/// Per-request transport policy.  Constructed fresh for every call; nothing
/// is shared or cached across requests.
#[derive(Debug, Clone)]
pub struct RequestSettings {
    /// When false, the transport must not follow any redirect, even one hop.
    pub follow_redirects: bool,
    /// When false, certificate and hostname verification are disabled for
    /// this call only.
    pub verify_ssl: bool,
}

/// One form field of a multipart body.  `enabled` gates inclusion.
#[derive(Debug, Clone)]
pub struct KeyValueItem {
    pub key: String,
    pub value: String,
    pub enabled: bool,
}

/// Ghost image of a form field.
pub ghost struct KvView {
    pub key: Seq<char>,
    pub value: Seq<char>,
    pub enabled: bool,
}

impl DeepView for KeyValueItem {
    type V = KvView;

    open spec fn deep_view(&self) -> KvView {
        KvView { key: self.key@, value: self.value@, enabled: self.enabled }
    }
}

/// A full request description, as handed in by the caller.
///
/// `body_type` selects the body encoding: `"raw"` and
/// `"x-www-form-urlencoded"` attach `body` verbatim, `"form-data"` builds a
/// multipart body from `form_data`, and any other tag means no body.
#[derive(Debug, Clone)]
pub struct HttpRequest {
    pub method: String,
    pub url: String,
    pub headers: Vec<(String, String)>,
    pub body_type: String,
    pub body: Option<String>,
    pub form_data: Vec<KeyValueItem>,
    pub settings: RequestSettings,
}

/// The normalized result of a call.
#[derive(Debug, Clone)]
pub struct HttpResponse {
    pub status: u16,
    /// Canonical reason phrase for `status`, or empty when unknown.
    pub status_text: String,
    /// One entry per header value instance; duplicates stay separate.
    pub headers: Vec<(String, String)>,
    /// The response payload decoded as text.
    pub body: String,
}

/// The classified ways a call can fail.  Every failure is terminal: no
/// retries, no partial response.
#[derive(Debug, Clone)]
pub enum ErrorKind {
    /// The method text is not a valid HTTP verb token.
    InvalidMethod,
    /// The transport client could not be built under the requested policy.
    TransportConfigError(String),
    /// Network-level failure during send, with the underlying cause text.
    RequestFailed(String),
    /// The response payload is not decodable as text.
    BodyDecodeError,
}

impl ErrorKind {
    /// A short description of the failure class, used as the prefix of the
    /// message shown to the caller.
    pub fn describe(&self) -> (r: &'static str)
        ensures
            self is InvalidMethod ==> r@ == "invalid method"@,
            self is TransportConfigError ==> r@ == "client build failed"@,
            self is RequestFailed ==> r@ == "request failed"@,
            self is BodyDecodeError ==> r@ == "read body failed"@,
    {
        match self {
            ErrorKind::InvalidMethod => "invalid method",
            ErrorKind::TransportConfigError(_) => "client build failed",
            ErrorKind::RequestFailed(_) => "request failed",
            ErrorKind::BodyDecodeError => "read body failed",
        }
    }
}

} // verus!
