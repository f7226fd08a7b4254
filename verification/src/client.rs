//! The session with the API: which requests it may make, and how.

use crate::error::{Failure, HeatzyError};
use crate::models::{AuthResponse, ControlRequest, Device, DeviceMode, LoginCredentials};
use crate::request::{Header, Method, Operation, OperationView, Request, RequestView};
use crate::text::text_of;
use vstd::prelude::*;

verus! {

/// Where the API lives.
pub const BASE_URL: &'static str = "https://euapi.gizwits.com/app";

/// The identity of this application, which every request carries.
pub const APP_ID: &'static str = "c70a66ff039d41b4a220e198b0fcc8b3";

/// The header that names the application.
pub const APP_ID_HEADER: &'static str = "X-Gizwits-Application-Id";

/// The header that carries the token of the session.
pub const USER_TOKEN_HEADER: &'static str = "X-Gizwits-User-token";

/// The header that declares what the body of a request is.
pub const CONTENT_TYPE_HEADER: &'static str = "content-type";

/// What the body of every request is declared to be.
pub const JSON_CONTENT: &'static str = "application/json";

/// The time, in seconds, after which every request is given up.
pub const REQUEST_TIMEOUT_SECS: u64 = 30;

/// A session with the API. It starts without a token; once a token is
/// installed the session is authenticated, and stays so.
pub struct Client {
    base_url: String,
    token: Option<String>,
}

/// A [`Client`] as mathematical text.
pub struct ClientView {
    pub base_url: Seq<char>,
    pub token: Option<Seq<char>>,
}

impl View for Client {
    type V = ClientView;

    closed spec fn view(&self) -> ClientView {
        ClientView { base_url: self.base_url@, token: text_of(self.token) }
    }
}

impl ClientView {
    /// The headers of a request that needs no token.
    pub open spec fn plain_headers() -> Seq<(Seq<char>, Seq<char>)> {
        seq![(APP_ID_HEADER@, APP_ID@), (CONTENT_TYPE_HEADER@, JSON_CONTENT@)]
    }

    /// The headers of a request made with the token `token`.
    pub open spec fn token_headers(token: Seq<char>) -> Seq<(Seq<char>, Seq<char>)> {
        Self::plain_headers().push((USER_TOKEN_HEADER@, token))
    }

    /// The request that logs in with the given credentials.
    pub open spec fn login(self, username: Seq<char>, password: Seq<char>) -> RequestView {
        RequestView {
            operation: OperationView::Login,
            method: Method::Post,
            url: self.base_url + "/login"@,
            headers: Self::plain_headers(),
            body: Some(LoginCredentials::json(username, password)),
            timeout_secs: REQUEST_TIMEOUT_SECS,
        }
    }

    /// The request for `operation` at `path`, which needs the session's
    /// token: without a token there is no request.
    pub open spec fn authenticated(
        self,
        operation: OperationView,
        method: Method,
        path: Seq<char>,
        body: Option<Seq<char>>,
    ) -> Result<RequestView, Failure> {
        match self.token {
            Some(token) => Ok(
                RequestView {
                    operation,
                    method,
                    url: self.base_url + path,
                    headers: Self::token_headers(token),
                    body,
                    timeout_secs: REQUEST_TIMEOUT_SECS,
                },
            ),
            None => Err(Failure::NoToken),
        }
    }

    /// The request that lists the devices of the account.
    pub open spec fn list_devices(self) -> Result<RequestView, Failure> {
        self.authenticated(
            OperationView::ListDevices,
            Method::Get,
            "/bindings?limit=100&skip=0"@,
            None,
        )
    }

    /// The request that looks up the device `id`.
    pub open spec fn get_device(self, id: Seq<char>) -> Result<RequestView, Failure> {
        self.authenticated(OperationView::GetDevice(id), Method::Get, "/devices/"@ + id, None)
    }

    /// The request that reads the latest data of the device `id`.
    pub open spec fn get_device_mode(self, id: Seq<char>) -> Result<RequestView, Failure> {
        self.authenticated(
            OperationView::GetDeviceMode(id),
            Method::Get,
            "/devdata/"@ + id + "/latest"@,
            None,
        )
    }

    /// The request that switches the device `id` to `mode`.
    pub open spec fn set_device_mode(self, id: Seq<char>, mode: DeviceMode) -> Result<
        RequestView,
        Failure,
    > {
        self.authenticated(
            OperationView::SetDeviceMode(id),
            Method::Post,
            "/control/"@ + id,
            Some(ControlRequest::json(mode.code())),
        )
    }
}

/// A result with the request and the error each replaced by its view.
pub open spec fn planned(r: Result<Request, HeatzyError>) -> Result<RequestView, Failure> {
    match r {
        Ok(request) => Ok(request@),
        Err(error) => Err(error@),
    }
}

/// Whether `index` is the place of the first device named `name`.
pub open spec fn is_first_named(devices: Seq<Device>, name: Seq<char>, index: int) -> bool {
    &&& 0 <= index < devices.len()
    &&& devices[index].is_named(name)
    &&& forall|j: int| 0 <= j < index ==> !(#[trigger] devices[j]).is_named(name)
}

/// Whether no device is named `name`.
pub open spec fn none_named(devices: Seq<Device>, name: Seq<char>) -> bool {
    forall|j: int| 0 <= j < devices.len() ==> !(#[trigger] devices[j]).is_named(name)
}

/// Without a token no operation but the login yields a request: each of the
/// others fails with `NoToken`.
pub proof fn lemma_token_required(session: ClientView, id: Seq<char>, mode: DeviceMode)
    requires
        session.token is None,
    ensures
        session.list_devices() == Err::<RequestView, Failure>(Failure::NoToken),
        session.get_device(id) == Err::<RequestView, Failure>(Failure::NoToken),
        session.get_device_mode(id) == Err::<RequestView, Failure>(Failure::NoToken),
        session.set_device_mode(id, mode) == Err::<RequestView, Failure>(Failure::NoToken),
{
}

/// With a token installed every operation yields a request, and the request
/// carries the token in the header for it.
pub proof fn lemma_token_attached(
    session: ClientView,
    token: Seq<char>,
    id: Seq<char>,
    mode: DeviceMode,
)
    requires
        session.token == Some(token),
    ensures
        session.list_devices() matches Ok(request) && request.headers.contains(
            (USER_TOKEN_HEADER@, token),
        ),
        session.get_device(id) matches Ok(request) && request.headers.contains(
            (USER_TOKEN_HEADER@, token),
        ),
        session.get_device_mode(id) matches Ok(request) && request.headers.contains(
            (USER_TOKEN_HEADER@, token),
        ),
        session.set_device_mode(id, mode) matches Ok(request) && request.headers.contains(
            (USER_TOKEN_HEADER@, token),
        ),
{
    assert(ClientView::token_headers(token)[2] == (USER_TOKEN_HEADER@, token));
}

fn header(name: &str, value: &str) -> (r: Header)
    ensures
        r@ == (name@, value@),
{
    Header { name: String::from_str(name), value: String::from_str(value) }
}

fn plain_headers() -> (r: Vec<Header>)
    ensures
        r@.map_values(|header: Header| header@) == ClientView::plain_headers(),
{
    let mut headers: Vec<Header> = Vec::new();
    headers.push(header(APP_ID_HEADER, APP_ID));
    headers.push(header(CONTENT_TYPE_HEADER, JSON_CONTENT));
    proof {
        assert(headers@.map_values(|header: Header| header@) =~= ClientView::plain_headers());
    }
    headers
}

impl Client {
    /// A session without a token.
    pub fn new() -> (r: Client)
        ensures
            r@ == (ClientView { base_url: BASE_URL@, token: None }),
    {
        Client { base_url: String::from_str(BASE_URL), token: None }
    }

    /// Installs a token: the session is authenticated from now on.
    pub fn set_token(&mut self, token: String)
        ensures
            final(self)@ == (ClientView { base_url: old(self)@.base_url, token: Some(token@) }),
    {
        self.token = Some(token);
    }

    /// Installs the token that a login answered with.
    pub fn connect(&mut self, auth: AuthResponse)
        ensures
            final(self)@ == (ClientView {
                base_url: old(self)@.base_url,
                token: Some(auth.token@),
            }),
    {
        self.set_token(auth.token);
    }

    /// Whether a token is installed.
    pub fn is_authenticated(&self) -> (r: bool)
        ensures
            r == self@.token is Some,
    {
        self.token.is_some()
    }

    /// The token of the session, if one is installed.
    pub fn token(&self) -> (r: Option<&str>)
        ensures
            match r {
                Some(token) => self@.token == Some(token@),
                None => self@.token is None,
            },
    {
        match &self.token {
            Some(token) => Some(token.as_str()),
            None => None,
        }
    }

    /// The address that every path of the API is appended to.
    pub fn base_url(&self) -> (r: &str)
        ensures
            r@ == self@.base_url,
    {
        self.base_url.as_str()
    }

    fn ensure_authenticated(&self) -> (r: Result<(), HeatzyError>)
        ensures
            match r {
                Ok(_) => self@.token is Some,
                Err(error) => self@.token is None && error@ == Failure::NoToken,
            },
    {
        if self.token.is_none() {
            return Err(HeatzyError::NoToken);
        }
        Ok(())
    }

    fn authenticated_request(
        &self,
        operation: Operation,
        method: Method,
        path: String,
        body: Option<String>,
    ) -> (r: Result<Request, HeatzyError>)
        ensures
            planned(r) == self@.authenticated(operation@, method, path@, text_of(body)),
    {
        match &self.token {
            Some(token) => {
                let mut headers = plain_headers();
                headers.push(header(USER_TOKEN_HEADER, token.as_str()));
                let url = String::from_str(self.base_url.as_str()).concat(path.as_str());
                let request = Request {
                    operation,
                    method,
                    url,
                    headers,
                    body,
                    timeout_secs: REQUEST_TIMEOUT_SECS,
                };
                proof {
                    assert(request@.headers =~= ClientView::token_headers(token@));
                }
                Ok(request)
            },
            None => Err(HeatzyError::NoToken),
        }
    }

    fn authenticated_get(&self, operation: Operation, path: String) -> (r: Result<
        Request,
        HeatzyError,
    >)
        ensures
            planned(r) == self@.authenticated(operation@, Method::Get, path@, None),
    {
        self.authenticated_request(operation, Method::Get, path, None)
    }

    fn authenticated_post(&self, operation: Operation, path: String, body: String) -> (r: Result<
        Request,
        HeatzyError,
    >)
        ensures
            planned(r) == self@.authenticated(operation@, Method::Post, path@, Some(body@)),
    {
        self.authenticated_request(operation, Method::Post, path, Some(body))
    }

    /// The request that logs in with the given credentials. It needs no
    /// token and leaves the session as it is: install the token of the answer
    /// with [`Client::connect`] or [`Client::set_token`].
    pub fn login(&self, username: &str, password: &str) -> (r: Request)
        ensures
            r@ == self@.login(username@, password@),
    {
        let credentials = LoginCredentials {
            username: String::from_str(username),
            password: String::from_str(password),
        };
        Request {
            operation: Operation::Login,
            method: Method::Post,
            url: String::from_str(self.base_url.as_str()).concat("/login"),
            headers: plain_headers(),
            body: Some(credentials.to_json()),
            timeout_secs: REQUEST_TIMEOUT_SECS,
        }
    }

    /// The request that lists the devices of the account: the first hundred
    /// of them. Without a token it fails with `NoToken`.
    pub fn list_devices(&self) -> (r: Result<Request, HeatzyError>)
        ensures
            planned(r) == self@.list_devices(),
    {
        self.ensure_authenticated()?;
        self.authenticated_get(
            Operation::ListDevices,
            String::from_str("/bindings?limit=100&skip=0"),
        )
    }

    /// Picks from a listing the first device that the user named `name`. If
    /// there is none it fails with `NotFound`.
    pub fn get_device_by_name(devices: Vec<Device>, name: &str) -> (r: Result<Device, HeatzyError>)
        ensures
            match r {
                Ok(device) => exists|index: int|
                    is_first_named(devices@, name@, index) && devices@[index] == device,
                Err(error) => none_named(devices@, name@) && error@ == Failure::NotFound(
                    "Device with name '"@ + name@ + "' not found"@,
                ),
            },
    {
        let mut rest = devices;
        let mut index: usize = 0;
        while index < rest.len()
            invariant
                rest@ == devices@,
                index <= rest.len(),
                forall|j: int| 0 <= j < index ==> !(#[trigger] devices@[j]).is_named(name@),
            decreases rest.len() - index,
        {
            if rest[index].has_name(name) {
                let device = rest.swap_remove(index);
                assert(is_first_named(devices@, name@, index as int));
                return Ok(device);
            }
            index += 1;
        }
        Err(
            HeatzyError::NotFound(
                String::from_str("Device with name '").concat(name).concat("' not found"),
            ),
        )
    }

    /// The request that looks up a device by its identifier. Without a token
    /// it fails with `NoToken`.
    pub fn get_device(&self, device_id: &str) -> (r: Result<Request, HeatzyError>)
        ensures
            planned(r) == self@.get_device(device_id@),
    {
        self.ensure_authenticated()?;
        self.authenticated_get(
            Operation::GetDevice(String::from_str(device_id)),
            String::from_str("/devices/").concat(device_id),
        )
    }

    /// The request that reads the latest data of a device, its mode among
    /// them. Without a token it fails with `NoToken`.
    pub fn get_device_mode(&self, device_id: &str) -> (r: Result<Request, HeatzyError>)
        ensures
            planned(r) == self@.get_device_mode(device_id@),
    {
        self.ensure_authenticated()?;
        self.authenticated_get(
            Operation::GetDeviceMode(String::from_str(device_id)),
            String::from_str("/devdata/").concat(device_id).concat("/latest"),
        )
    }

    /// The request that switches a device to `mode`. Without a token it fails
    /// with `NoToken`.
    pub fn set_device_mode(&self, device_id: &str, mode: DeviceMode) -> (r: Result<
        Request,
        HeatzyError,
    >)
        ensures
            planned(r) == self@.set_device_mode(device_id@, mode),
    {
        self.ensure_authenticated()?;
        let control = ControlRequest::new(mode);
        self.authenticated_post(
            Operation::SetDeviceMode(String::from_str(device_id)),
            String::from_str("/control/").concat(device_id),
            control.to_json(),
        )
    }
}

} // verus!
