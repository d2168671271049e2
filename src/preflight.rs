//! The preflight handshake, run once before the UI is shown: connect, query
//! the daemon's status, register this launcher if needed and agreed, and
//! resolve the daemon's service endpoint.
//!
//! [`Preflight`] holds the decisions only. Its owner performs each
//! [`PreflightAction`] (opening the connection, a request and its reply, the
//! consent dialog) and hands back what happened as a [`PreflightEvent`].
//! A refused consent ends the handshake with an error: no registration is sent.

use vstd::prelude::*;
use crate::json::JsonValue;
use crate::status::{
    activation_of, activator_command, check_app_runtime, get_activator_command, get_goxlr_host,
    host_of, registered_program, Activation, Endpoint, Platform, PreflightError,
};

verus! {

/// The text of the status query: the JSON string `"GetStatus"`.
pub open spec fn status_query() -> Seq<char> {
    "\"GetStatus\""@
}

/// The status query, as sent on the control channel.
pub fn status_request() -> (r: String)
    ensures
        r@ == status_query(),
{
    "\"GetStatus\"".to_string()
}

/// Where the handshake stands.
#[derive(Debug)]
pub enum PreflightState {
    /// Opening the connection to the daemon.
    Connecting,
    /// The status query is out; waiting for its reply.
    Querying,
    /// Waiting for the user's answer; holds the status reply.
    Consenting(JsonValue),
    /// The registration command is out; holds the status reply.
    Registering(JsonValue),
    /// The handshake is over.
    Finished,
}

/// What happened since the last action.
#[derive(Debug)]
pub enum PreflightEvent {
    Connected,
    ConnectFailed,
    /// The reply to the last request, decoded.
    Reply(JsonValue),
    /// The request could not be sent, or no decodable reply came.
    NoReply,
    /// The user's answer to the consent question.
    Consent(bool),
}

/// What the owner does next.
#[derive(Debug)]
pub enum PreflightAction {
    /// Send this JSON text as one frame, then read one reply.
    Request(String),
    /// Ask the user whether this app should control the device.
    AskConsent,
    /// The handshake is over, with this outcome.
    Finish(Result<Endpoint, PreflightError>),
}

/// Whether `event` is one that can follow the action taken in `state`.
pub open spec fn expects(state: PreflightState, event: PreflightEvent) -> bool {
    match state {
        PreflightState::Connecting => event is Connected || event is ConnectFailed,
        PreflightState::Querying => event is Reply || event is NoReply,
        PreflightState::Consenting(_) => event is Consent,
        PreflightState::Registering(_) => event is Reply || event is NoReply,
        PreflightState::Finished => false,
    }
}

/// `action` ends the handshake with the endpoint (or error) that `found` gives.
pub open spec fn finishes_with(
    action: PreflightAction,
    found: Result<(Seq<char>, u64), PreflightError>,
) -> bool {
    match found {
        Ok((host, port)) => action matches PreflightAction::Finish(Ok(e)) && e.host@ == host
            && e.port == port,
        Err(e) => action == PreflightAction::Finish(Err(e)),
    }
}

/// One transition of the handshake for the launcher `exe`.
pub open spec fn transition(
    state: PreflightState,
    event: PreflightEvent,
    exe: Seq<char>,
    platform: Platform,
    next: PreflightState,
    action: PreflightAction,
) -> bool {
    match (state, event) {
        (PreflightState::Connecting, PreflightEvent::Connected) => {
            &&& next is Querying
            &&& action matches PreflightAction::Request(t) && t@ == status_query()
        },
        (PreflightState::Connecting, _) => next is Finished && action == PreflightAction::Finish(
            Err(PreflightError::DaemonUnavailable),
        ),
        (PreflightState::Querying, PreflightEvent::Reply(status)) => match activation_of(
            status,
            exe,
            platform,
        ) {
            Err(e) => next is Finished && action == PreflightAction::Finish(Err(e)),
            Ok(Activation::ConsentRequired) => next == PreflightState::Consenting(status)
                && action is AskConsent,
            Ok(_) => next is Finished && finishes_with(action, host_of(status)),
        },
        (PreflightState::Querying, _) => next is Finished && action == PreflightAction::Finish(
            Err(PreflightError::NoStatus),
        ),
        (PreflightState::Consenting(status), PreflightEvent::Consent(true)) => {
            &&& next == PreflightState::Registering(status)
            &&& action matches PreflightAction::Request(t) && t@ == activator_command(
                platform,
                Some(exe),
            )
        },
        (PreflightState::Consenting(_), _) => next is Finished && action
            == PreflightAction::Finish(Err(PreflightError::ConsentDenied)),
        (PreflightState::Registering(status), _) => next is Finished && finishes_with(
            action,
            host_of(status),
        ),
        (PreflightState::Finished, _) => next is Finished,
    }
}

/// The handshake of the launcher at `exe`.
#[derive(Debug)]
pub struct Preflight {
    exe: String,
    platform: Platform,
    state: PreflightState,
}

fn finish_with(status: &JsonValue) -> (r: PreflightAction)
    ensures
        finishes_with(r, host_of(*status)),
{
    PreflightAction::Finish(get_goxlr_host(status))
}

impl Preflight {
    pub closed spec fn state(&self) -> PreflightState {
        self.state
    }

    pub closed spec fn exe(&self) -> Seq<char> {
        self.exe@
    }

    pub closed spec fn platform(&self) -> Platform {
        self.platform
    }

    /// A handshake about to connect, for the launcher at `exe`.
    pub fn new(exe: String, platform: Platform) -> (r: Preflight)
        ensures
            r.state() is Connecting,
            r.exe() == exe@,
            r.platform() == platform,
    {
        Preflight { exe, platform, state: PreflightState::Connecting }
    }

    pub fn is_finished(&self) -> (r: bool)
        ensures
            r == self.state() is Finished,
    {
        match self.state {
            PreflightState::Finished => true,
            _ => false,
        }
    }

    pub fn accepts(&self, event: &PreflightEvent) -> (r: bool)
        ensures
            r == expects(self.state(), *event),
    {
        match (&self.state, event) {
            (PreflightState::Connecting, PreflightEvent::Connected) => true,
            (PreflightState::Connecting, PreflightEvent::ConnectFailed) => true,
            (PreflightState::Querying, PreflightEvent::Reply(_)) => true,
            (PreflightState::Querying, PreflightEvent::NoReply) => true,
            (PreflightState::Consenting(_), PreflightEvent::Consent(_)) => true,
            (PreflightState::Registering(_), PreflightEvent::Reply(_)) => true,
            (PreflightState::Registering(_), PreflightEvent::NoReply) => true,
            _ => false,
        }
    }

    /// Takes what happened and decides what comes next.
    pub fn step(self, event: PreflightEvent) -> (r: (Preflight, PreflightAction))
        requires
            expects(self.state(), event),
        ensures
            r.0.exe() == self.exe(),
            r.0.platform() == self.platform(),
            transition(self.state(), event, self.exe(), self.platform(), r.0.state(), r.1),
    {
        let Preflight { exe, platform, state } = self;
        let (next, action) = match (state, event) {
            (PreflightState::Connecting, PreflightEvent::Connected) => {
                (PreflightState::Querying, PreflightAction::Request(status_request()))
            },
            (PreflightState::Connecting, _) => {
                (
                    PreflightState::Finished,
                    PreflightAction::Finish(Err(PreflightError::DaemonUnavailable)),
                )
            },
            (PreflightState::Querying, PreflightEvent::Reply(status)) => {
                match check_app_runtime(&status, &exe, platform) {
                    Err(e) => (PreflightState::Finished, PreflightAction::Finish(Err(e))),
                    Ok(Activation::ConsentRequired) => {
                        (PreflightState::Consenting(status), PreflightAction::AskConsent)
                    },
                    Ok(_) => {
                        let action = finish_with(&status);
                        (PreflightState::Finished, action)
                    },
                }
            },
            (PreflightState::Querying, _) => {
                (PreflightState::Finished, PreflightAction::Finish(Err(PreflightError::NoStatus)))
            },
            (PreflightState::Consenting(status), PreflightEvent::Consent(true)) => {
                let command = get_activator_command(platform, Some(&exe));
                (PreflightState::Registering(status), PreflightAction::Request(command))
            },
            (PreflightState::Consenting(_), _) => {
                (
                    PreflightState::Finished,
                    PreflightAction::Finish(Err(PreflightError::ConsentDenied)),
                )
            },
            (PreflightState::Registering(status), _) => {
                let action = finish_with(&status);
                (PreflightState::Finished, action)
            },
            (PreflightState::Finished, _) => {
                (PreflightState::Finished, PreflightAction::Finish(Err(PreflightError::NoStatus)))
            },
        };
        (Preflight { exe, platform, state: next }, action)
    }
}

/// A reply that names this executable as the registered launcher (after
/// tokenizing the reported command line) takes the handshake straight to
/// resolving the endpoint: no consent is asked for.
pub proof fn lemma_registered_launcher_skips_consent(
    status: JsonValue,
    exe: Seq<char>,
    platform: Platform,
    next: PreflightState,
    action: PreflightAction,
)
    requires
        status.field("Status"@) matches Some(st) && st.field("config"@) matches Some(config)
            && config.field("activation"@) matches Some(activation) && activation.field(
            "active_path"@,
        ) matches Some(path) && registered_program(path, platform) == Some(exe),
        transition(PreflightState::Querying, PreflightEvent::Reply(status), exe, platform, next, action),
    ensures
        !(action is AskConsent),
        next is Finished,
        finishes_with(action, host_of(status)),
{
}

} // verus!
