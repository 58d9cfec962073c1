//! Status/message pairs returned by every mutating handler, together with the
//! HTTP status class each one is sent with.

use vstd::prelude::*;

verus! {

use vstd::string::StringExecFns;

/// The HTTP status classes this service ever answers with.
#[derive(Clone, Copy, PartialEq, Eq, Structural, Debug)]
pub enum StatusClass {
    Success,
    BadRequest,
    Unauthorized,
    ServerError,
}

impl StatusClass {
    /// The numeric HTTP status code of this class.
    pub fn code(&self) -> (c: u16)
        ensures
            c == self.spec_code(),
    {
        match self {
            StatusClass::Success => 200,
            StatusClass::BadRequest => 400,
            StatusClass::Unauthorized => 401,
            StatusClass::ServerError => 500,
        }
    }

    pub open spec fn spec_code(self) -> u16 {
        match self {
            StatusClass::Success => 200,
            StatusClass::BadRequest => 400,
            StatusClass::Unauthorized => 401,
            StatusClass::ServerError => 500,
        }
    }
}

/// Mathematical value of an [`ApiResponse`].
pub struct ResponseView {
    pub class: StatusClass,
    pub status: Seq<char>,
    pub message: Seq<char>,
}

/// A `status`/`message` body plus the status class it is sent with.
pub struct ApiResponse {
    pub class: StatusClass,
    pub status: String,
    pub message: String,
}

impl View for ApiResponse {
    type V = ResponseView;

    open spec fn view(&self) -> ResponseView {
        ResponseView { class: self.class, status: self.status@, message: self.message@ }
    }
}

impl ApiResponse {
    /// Builds a response from literal parts.
    pub fn of(class: StatusClass, status: &str, message: &str) -> (r: ApiResponse)
        ensures
            r@ == (ResponseView { class, status: status@, message: message@ }),
    {
        ApiResponse {
            class,
            status: String::from_str(status),
            message: String::from_str(message),
        }
    }
}

} // verus!
