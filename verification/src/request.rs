//! Requests to the API, and what the status of an answer means for each.
//!
//! The crate sends nothing itself. An operation of the [`Client`] produces a
//! [`Request`]; whoever sends it learns from [`Request::verdict`] what to do
//! with the answer, and from [`Request::failure`] which error a refused
//! request ends with.
//!
//! [`Client`]: crate::client::Client

use crate::error::{Failure, HeatzyError};
use crate::status::{status_line, HttpStatus};
use crate::text::{decimal, lemma_start_of_start, text_of};
use vstd::prelude::*;

verus! {

/// The HTTP method of a request.
#[derive(Debug, Clone, Copy, PartialEq, Eq, Structural)]
pub enum Method {
    Get,
    Post,
}

/// One header line of a request.
#[derive(Debug)]
pub struct Header {
    pub name: String,
    pub value: String,
}

impl View for Header {
    type V = (Seq<char>, Seq<char>);

    open spec fn view(&self) -> (Seq<char>, Seq<char>) {
        (self.name@, self.value@)
    }
}

/// The operation a request belongs to. The operations on one device carry its
/// identifier.
#[derive(Debug)]
pub enum Operation {
    Login,
    ListDevices,
    GetDevice(String),
    GetDeviceMode(String),
    SetDeviceMode(String),
}

/// An [`Operation`] as mathematical text.
pub enum OperationView {
    Login,
    ListDevices,
    GetDevice(Seq<char>),
    GetDeviceMode(Seq<char>),
    SetDeviceMode(Seq<char>),
}

impl View for Operation {
    type V = OperationView;

    open spec fn view(&self) -> OperationView {
        match self {
            Operation::Login => OperationView::Login,
            Operation::ListDevices => OperationView::ListDevices,
            Operation::GetDevice(id) => OperationView::GetDevice(id@),
            Operation::GetDeviceMode(id) => OperationView::GetDeviceMode(id@),
            Operation::SetDeviceMode(id) => OperationView::SetDeviceMode(id@),
        }
    }
}

/// What the status of an answer calls for.
#[derive(Debug, Clone, Copy, PartialEq, Eq, Structural)]
pub enum Verdict {
    /// The request succeeded: the body of the answer holds the result.
    Success,
    /// The device does not exist. The body is of no interest.
    NotFound,
    /// The request was refused: the text of the body says why.
    Refused,
}

impl OperationView {
    /// The device that the operation is about, if it is about one.
    pub open spec fn device(self) -> Option<Seq<char>> {
        match self {
            OperationView::Login => None,
            OperationView::ListDevices => None,
            OperationView::GetDevice(id) => Some(id),
            OperationView::GetDeviceMode(id) => Some(id),
            OperationView::SetDeviceMode(id) => Some(id),
        }
    }

    /// How the description of a refusal of this operation begins.
    pub open spec fn refusal_prefix(self) -> Seq<char> {
        match self {
            OperationView::Login => "Login failed with status "@,
            OperationView::ListDevices => "Failed to list devices with status "@,
            OperationView::GetDevice(_) => "Failed to get device with status "@,
            OperationView::GetDeviceMode(_) => "Failed to get device data with status "@,
            OperationView::SetDeviceMode(_) => "Failed to control device with status "@,
        }
    }

    /// What an answer with status `code` calls for: the codes from 200 to 299
    /// are a success; 404 answers an operation on a device that does not
    /// exist; every other code is a refusal.
    pub open spec fn verdict(self, code: u16) -> Verdict {
        if self.device() is Some && code == 404 {
            Verdict::NotFound
        } else if HttpStatus::success(code) {
            Verdict::Success
        } else {
            Verdict::Refused
        }
    }

    /// The error that a refusal ends the operation with, where `status` is
    /// the status as shown to a user and `body` is the text of the answer's
    /// body, or `None` if the body could not be read. A refused login is an
    /// `Auth` error, any other refusal an `Api` error.
    pub open spec fn refusal(self, status: Seq<char>, body: Option<Seq<char>>) -> Failure {
        let detail = self.refusal_prefix() + status + ": "@ + match body {
            Some(text) => text,
            None => "Unknown error"@,
        };
        match self {
            OperationView::Login => Failure::Auth(detail),
            _ => Failure::Api(detail),
        }
    }

    /// The error that an answer with status `code` ends the operation with,
    /// if the answer is no success.
    pub open spec fn failure(self, code: u16, body: Option<Seq<char>>) -> Failure {
        match self.device() {
            Some(id) if code == 404 => Failure::NotFound("Device '"@ + id + "' not found"@),
            _ => self.refusal(status_line(code), body),
        }
    }
}

/// A request to the API: everything needed to send it.
#[derive(Debug)]
pub struct Request {
    pub operation: Operation,
    pub method: Method,
    pub url: String,
    pub headers: Vec<Header>,
    /// The JSON text to send as the body, if the request has one.
    pub body: Option<String>,
    /// The time, in seconds, after which the request is given up.
    pub timeout_secs: u64,
}

/// A [`Request`] as mathematical text.
pub struct RequestView {
    pub operation: OperationView,
    pub method: Method,
    pub url: Seq<char>,
    pub headers: Seq<(Seq<char>, Seq<char>)>,
    pub body: Option<Seq<char>>,
    pub timeout_secs: u64,
}

impl View for Request {
    type V = RequestView;

    open spec fn view(&self) -> RequestView {
        RequestView {
            operation: self.operation@,
            method: self.method,
            url: self.url@,
            headers: self.headers@.map_values(|header: Header| header@),
            body: text_of(self.body),
            timeout_secs: self.timeout_secs,
        }
    }
}

impl Request {
    /// What the status of the answer to this request calls for.
    pub fn verdict(&self, status: HttpStatus) -> (r: Verdict)
        ensures
            r == self@.operation.verdict(status.code()),
    {
        let about_device = match &self.operation {
            Operation::Login => false,
            Operation::ListDevices => false,
            _ => true,
        };
        if about_device && status.as_u16() == 404 {
            Verdict::NotFound
        } else if status.is_success() {
            Verdict::Success
        } else {
            Verdict::Refused
        }
    }

    /// The error this request ends with when it was refused: `status` is the
    /// status of the answer as shown to a user, `body` the text of the
    /// answer's body, or `None` if it could not be read.
    pub fn refusal(&self, status: &str, body: Option<String>) -> (r: HeatzyError)
        ensures
            r@ == self@.operation.refusal(status@, text_of(body)),
            (self@.operation.refusal_prefix() + status@).is_prefix_of(r@.detail()),
    {
        let prefix = match &self.operation {
            Operation::Login => "Login failed with status ",
            Operation::ListDevices => "Failed to list devices with status ",
            Operation::GetDevice(_) => "Failed to get device with status ",
            Operation::GetDeviceMode(_) => "Failed to get device data with status ",
            Operation::SetDeviceMode(_) => "Failed to control device with status ",
        };
        let start = String::from_str(prefix).concat(status).concat(": ");
        let detail = match body {
            Some(text) => start.concat(text.as_str()),
            None => start.concat("Unknown error"),
        };
        assert(prefix@ + status@ =~= detail@.subrange(0, (prefix@ + status@).len() as int));
        match &self.operation {
            Operation::Login => HeatzyError::Auth(detail),
            _ => HeatzyError::Api(detail),
        }
    }

    /// The error this request ends with when the answer has the status
    /// `status`, which is no success. `body` is the text of the answer's
    /// body, or `None` if it could not be read; an answer that says the
    /// device does not exist is not asked for its body. Unless the device
    /// does not exist, the description of the error names the status by its
    /// number.
    pub fn failure(&self, status: HttpStatus, body: Option<String>) -> (r: HeatzyError)
        ensures
            r@ == self@.operation.failure(status.code(), text_of(body)),
            !(r@ is NotFound) ==> (self@.operation.refusal_prefix() + decimal(status.code() as int)
                + seq![' ']).is_prefix_of(r@.detail()),
    {
        let missing = match &self.operation {
            Operation::Login => None,
            Operation::ListDevices => None,
            Operation::GetDevice(id) => Some(id),
            Operation::GetDeviceMode(id) => Some(id),
            Operation::SetDeviceMode(id) => Some(id),
        };
        match missing {
            Some(id) if status.as_u16() == 404 => HeatzyError::NotFound(
                String::from_str("Device '").concat(id.as_str()).concat("' not found"),
            ),
            _ => {
                let line = status.to_string();
                let error = self.refusal(line.as_str(), body);
                proof {
                    lemma_start_of_start(
                        self@.operation.refusal_prefix(),
                        decimal(status.code() as int) + seq![' '],
                        line@,
                        error@.detail(),
                    );
                }
                error
            },
        }
    }
}

/// The status of an answer decides alike what to do with it and which error
/// it ends with: an answer that says the device is missing ends with
/// `NotFound`, a refused login with `Auth`, and any other refusal with `Api`.
pub proof fn lemma_failure_follows_verdict(
    operation: OperationView,
    code: u16,
    body: Option<Seq<char>>,
)
    ensures
        operation.verdict(code) == Verdict::NotFound <==> operation.failure(code, body) is NotFound,
        operation.verdict(code) == Verdict::Refused ==> (if operation is Login {
            operation.failure(code, body) is Auth
        } else {
            operation.failure(code, body) is Api
        }),
        operation.verdict(code) == Verdict::Success <==> HttpStatus::success(code),
{
}

} // verus!
