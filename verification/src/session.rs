//! Establishing the session: what the secure channel is set up with, and the
//! mount handshake that follows the connection.

use vstd::prelude::*;
use crate::message::{Operation, Request, RequestView, Response, ResponseView};

verus! {

/// The server's well-known port.
pub const PORT: u16 = 4413;

/// Seconds of silence after which the connection is dropped.
pub const IDLE_TIMEOUT_SECS: u64 = 10;

/// How the one connection of a session is opened.
#[derive(Clone, Debug, PartialEq, Eq)]
pub struct SessionPlan {
    /// Path of the single certificate that is trusted.
    pub trust_anchor: String,
    /// Whether the client presents a credential of its own. It does not: the
    /// server alone is authenticated.
    pub client_credential: bool,
    /// The only application protocol offered on the secure channel.
    pub protocol: String,
    /// Seconds of silence after which the connection is dropped.
    pub idle_timeout_secs: u64,
    /// The local address to bind: any address, any free port.
    pub local: String,
    /// The server's address, as the user gave it.
    pub server: String,
    /// The server's port.
    pub port: u16,
    /// The name that the server's certificate must carry.
    pub server_name: String,
}

/// What a [`SessionPlan`] is, as a mathematical value.
pub struct SessionPlanView {
    pub trust_anchor: Seq<char>,
    pub client_credential: bool,
    pub protocol: Seq<char>,
    pub idle_timeout_secs: u64,
    pub local: Seq<char>,
    pub server: Seq<char>,
    pub port: u16,
    pub server_name: Seq<char>,
}

impl View for SessionPlan {
    type V = SessionPlanView;

    open spec fn view(&self) -> SessionPlanView {
        SessionPlanView {
            trust_anchor: self.trust_anchor@,
            client_credential: self.client_credential,
            protocol: self.protocol@,
            idle_timeout_secs: self.idle_timeout_secs,
            local: self.local@,
            server: self.server@,
            port: self.port,
            server_name: self.server_name@,
        }
    }
}

/// The plan for a session with `server`: everything but the address is fixed.
pub open spec fn plan_for(server: Seq<char>) -> SessionPlanView {
    SessionPlanView {
        trust_anchor: "../pyxis-key.pub"@,
        client_credential: false,
        protocol: "hq-29"@,
        idle_timeout_secs: IDLE_TIMEOUT_SECS,
        local: "[::]:0"@,
        server,
        port: PORT,
        server_name: "pyxis"@,
    }
}

/// The greeting that the mount request carries.
pub open spec fn greeting() -> Seq<char> {
    "Mounting PyxisFS\n"@
}

/// Why a session did not start.
#[derive(Clone, Copy, Debug, PartialEq, Eq, Structural)]
pub enum StartupError {
    /// The server refused the mount with this code.
    Refused(i32),
    /// The server answered the mount with the success of another operation.
    Unexpected(Operation),
    /// No mount request was outstanding.
    NotHandshaking,
}

/// What the handshake yields for `response`: the mount identifier, or the
/// reason for which the session does not start.
pub open spec fn handshake_of(response: ResponseView) -> Result<Seq<char>, StartupError> {
    match response {
        ResponseView::Mount(id) => Ok(id),
        ResponseView::Error(code) => Err(StartupError::Refused(code)),
        _ => Err(StartupError::Unexpected(response.answers().unwrap())),
    }
}

/// `outcome` is what `expected` describes.
pub open spec fn handshake_is(
    outcome: Result<String, StartupError>,
    expected: Result<Seq<char>, StartupError>,
) -> bool {
    match expected {
        Ok(id) => outcome matches Ok(s) && s@ == id,
        Err(e) => outcome == Err::<String, StartupError>(e),
    }
}

impl SessionPlan {
    /// The plan for a session with `server`.
    pub fn new(server: &str) -> (plan: SessionPlan)
        ensures
            plan@ == plan_for(server@),
    {
        SessionPlan {
            trust_anchor: "../pyxis-key.pub".to_owned(),
            client_credential: false,
            protocol: "hq-29".to_owned(),
            idle_timeout_secs: IDLE_TIMEOUT_SECS,
            local: "[::]:0".to_owned(),
            server: server.to_owned(),
            port: PORT,
            server_name: "pyxis".to_owned(),
        }
    }
}

/// The request that opens the session.
pub fn mount_request() -> (request: Request)
    ensures
        request@ == RequestView::Mount(greeting()),
{
    Request::Mount("Mounting PyxisFS\n".to_owned())
}

/// Reads the server's answer to the mount request. Only the mount response
/// starts the session; the error response refuses it with its code.
pub fn handshake(response: Response) -> (outcome: Result<String, StartupError>)
    ensures
        handshake_is(outcome, handshake_of(response@)),
{
    match response {
        Response::Mount(id) => Ok(id),
        Response::Error(code) => Err(StartupError::Refused(code)),
        other => {
            let answered = other.answers();
            Err(StartupError::Unexpected(answered.unwrap()))
        },
    }
}

} // verus!
