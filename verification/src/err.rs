//! Errors of the Bare server, their codes, HTTP statuses and JSON form.
use vstd::prelude::*;
use vstd::string::StringExecFns;
use crate::json::{json_quote, spec_json_quoted};
use crate::text::push_str;

verus! {

/// The error codes of the Bare (TOMP) protocol.
#[allow(non_camel_case_types)]
#[derive(Debug, Clone, Copy, PartialEq, Eq, Structural)]
pub enum BareErrorCode {
    UNKNOWN,
    HOST_NOT_FOUND,
    CONNECTION_RESET,
    CONNECTION_REFUSED,
    CONNECTION_TIMEOUT,
    MISSING_BARE_HEADER,
    INVALID_BARE_HEADER,
    UNKNOWN_BARE_HEADER,
    INVALID_HEADER,
    FORBIDDEN_BARE_HEADER,
}

impl BareErrorCode {
    /// The code as it is written on the wire: the variant's name.
    pub open spec fn spec_str(self) -> Seq<char> {
        match self {
            BareErrorCode::UNKNOWN => "UNKNOWN"@,
            BareErrorCode::HOST_NOT_FOUND => "HOST_NOT_FOUND"@,
            BareErrorCode::CONNECTION_RESET => "CONNECTION_RESET"@,
            BareErrorCode::CONNECTION_REFUSED => "CONNECTION_REFUSED"@,
            BareErrorCode::CONNECTION_TIMEOUT => "CONNECTION_TIMEOUT"@,
            BareErrorCode::MISSING_BARE_HEADER => "MISSING_BARE_HEADER"@,
            BareErrorCode::INVALID_BARE_HEADER => "INVALID_BARE_HEADER"@,
            BareErrorCode::UNKNOWN_BARE_HEADER => "UNKNOWN_BARE_HEADER"@,
            BareErrorCode::INVALID_HEADER => "INVALID_HEADER"@,
            BareErrorCode::FORBIDDEN_BARE_HEADER => "FORBIDDEN_BARE_HEADER"@,
        }
    }

    /// The HTTP status that answers an error with this code.
    pub open spec fn spec_status(self) -> u16 {
        match self {
            BareErrorCode::UNKNOWN | BareErrorCode::HOST_NOT_FOUND
            | BareErrorCode::CONNECTION_RESET | BareErrorCode::CONNECTION_REFUSED
            | BareErrorCode::CONNECTION_TIMEOUT => 500,
            BareErrorCode::MISSING_BARE_HEADER | BareErrorCode::INVALID_BARE_HEADER
            | BareErrorCode::UNKNOWN_BARE_HEADER | BareErrorCode::INVALID_HEADER => 400,
            BareErrorCode::FORBIDDEN_BARE_HEADER => 403,
        }
    }

    /// The code as it is written on the wire.
    pub fn to_str(&self) -> (s: &str)
        ensures
            s@ == self.spec_str(),
    {
        match self {
            BareErrorCode::UNKNOWN => "UNKNOWN",
            BareErrorCode::HOST_NOT_FOUND => "HOST_NOT_FOUND",
            BareErrorCode::CONNECTION_RESET => "CONNECTION_RESET",
            BareErrorCode::CONNECTION_REFUSED => "CONNECTION_REFUSED",
            BareErrorCode::CONNECTION_TIMEOUT => "CONNECTION_TIMEOUT",
            BareErrorCode::MISSING_BARE_HEADER => "MISSING_BARE_HEADER",
            BareErrorCode::INVALID_BARE_HEADER => "INVALID_BARE_HEADER",
            BareErrorCode::UNKNOWN_BARE_HEADER => "UNKNOWN_BARE_HEADER",
            BareErrorCode::INVALID_HEADER => "INVALID_HEADER",
            BareErrorCode::FORBIDDEN_BARE_HEADER => "FORBIDDEN_BARE_HEADER",
        }
    }

    /// The HTTP status code (500 for failures to reach the remote, 400 for
    /// bad requests, 403 for forbidden headers).
    pub fn to_status(&self) -> (s: u16)
        ensures
            s == self.spec_status(),
    {
        match self {
            BareErrorCode::UNKNOWN | BareErrorCode::HOST_NOT_FOUND
            | BareErrorCode::CONNECTION_RESET | BareErrorCode::CONNECTION_REFUSED
            | BareErrorCode::CONNECTION_TIMEOUT => 500,
            BareErrorCode::MISSING_BARE_HEADER | BareErrorCode::INVALID_BARE_HEADER
            | BareErrorCode::UNKNOWN_BARE_HEADER | BareErrorCode::INVALID_HEADER => 400,
            BareErrorCode::FORBIDDEN_BARE_HEADER => 403,
        }
    }
}

/// An error answered to a Bare client.
#[derive(Debug, Clone)]
pub struct BareError {
    pub code: BareErrorCode,
    pub id: String,
    pub message: String,
}

/// The JSON object `{"code":…,"id":…,"message":…}` that describes an error.
pub open spec fn spec_error_json(code: Seq<char>, id: Seq<char>, message: Seq<char>) -> Seq<char> {
    "{\"code\":"@ + spec_json_quoted(code) + ",\"id\":"@ + spec_json_quoted(id) + ",\"message\":"@
        + spec_json_quoted(message) + "}"@
}

/// What answers an error: status, headers, body.
#[derive(Debug)]
pub struct ErrorResponse {
    pub status: u16,
    pub headers: Vec<(String, String)>,
    pub body: String,
}

impl BareError {
    /// The error as a JSON object with its members in the order `code`,
    /// `id`, `message`, written compactly.
    pub fn into_json_str(&self) -> (s: String)
        ensures
            s@ == spec_error_json(self.code.spec_str(), self.id@, self.message@),
    {
        let mut s = String::from_str("{\"code\":");
        let code = json_quote(self.code.to_str());
        push_str(&mut s, code.as_str());
        push_str(&mut s, ",\"id\":");
        let id = json_quote(self.id.as_str());
        push_str(&mut s, id.as_str());
        push_str(&mut s, ",\"message\":");
        let message = json_quote(self.message.as_str());
        push_str(&mut s, message.as_str());
        push_str(&mut s, "}");
        s
    }

    /// The error as text: its JSON object (what `Display` writes for it).
    pub fn to_string(&self) -> (s: String)
        ensures
            s@ == spec_error_json(self.code.spec_str(), self.id@, self.message@),
    {
        self.into_json_str()
    }

    /// The response that answers this error: the status of its code, the
    /// JSON content type, the three `X-Bare-Error-*` headers and the error as
    /// a JSON object.
    pub fn into_response(self) -> (r: ErrorResponse)
        ensures
            r.status == self.code.spec_status(),
            r.headers@.len() == 4,
            r.headers@[0].0@ == "Content-Type"@ && r.headers@[0].1@ == "application/json"@,
            r.headers@[1].0@ == "X-Bare-Error-Code"@ && r.headers@[1].1@ == self.code.spec_str(),
            r.headers@[2].0@ == "X-Bare-Error-ID"@ && r.headers@[2].1@ == self.id@,
            r.headers@[3].0@ == "X-Bare-Error-Message"@ && r.headers@[3].1@ == self.message@,
            r.body@ == spec_error_json(self.code.spec_str(), self.id@, self.message@),
    {
        let body = self.into_json_str();
        let mut headers: Vec<(String, String)> = Vec::new();
        headers.push((String::from_str("Content-Type"), String::from_str("application/json")));
        headers.push((String::from_str("X-Bare-Error-Code"), String::from_str(self.code.to_str())));
        headers.push((String::from_str("X-Bare-Error-ID"), self.id.clone()));
        headers.push((String::from_str("X-Bare-Error-Message"), self.message.clone()));
        ErrorResponse { status: self.code.to_status(), headers, body }
    }
}

} // verus!

verus! {

/// An error as its code, id and message.
pub type ErrorView = (BareErrorCode, Seq<char>, Seq<char>);

impl View for BareError {
    type V = ErrorView;

    open spec fn view(&self) -> ErrorView {
        (self.code, self.id@, self.message@)
    }
}

/// A new error.
pub fn bare_error(code: BareErrorCode, id: &str, message: String) -> (e: BareError)
    ensures
        e@ == (code, id@, message@),
{
    BareError { code, id: String::from_str(id), message }
}

} // verus!
