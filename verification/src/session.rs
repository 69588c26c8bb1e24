//! Per-connection authentication session state.
//!
//! One session exists per connection, owned by that connection alone, and
//! tracks progress through a multi-step login.  The credential-handler
//! state inside an in-progress session is an opaque token: it is produced
//! and consumed only by the resolver's authentication operations and is
//! never inspected here.

use vstd::prelude::*;

use crate::messages::AuthStepOutcome;
use crate::messages::OutcomeV;
use crate::messages::RespV;
use crate::messages::Response;

verus! {

/// Opaque credential-handler state carried between authentication steps.
#[derive(Debug, PartialEq, Eq)]
pub struct CredentialState {
    /// The resolver's token; owned by the session, never read here.
    pub token: Vec<u8>,
}

impl View for CredentialState {
    type V = Seq<u8>;

    open spec fn view(&self) -> Seq<u8> {
        self.token@
    }
}

/// Spec-level model of a session.
pub enum SessionV {
    Uninitialized,
    InProgress { account: Seq<u8>, handler: Seq<u8> },
    Success,
    Denied,
}

/// The authentication session of one connection.
#[derive(Debug, PartialEq, Eq)]
pub enum AuthSession {
    /// No login attempt is under way.
    Uninitialized,
    /// A login attempt is between steps.
    InProgress { account_id: Vec<u8>, cred_handler: CredentialState },
    /// The last login attempt succeeded; terminal for that attempt.
    Success,
    /// The last login attempt was denied; terminal for that attempt.
    Denied,
}

impl View for AuthSession {
    type V = SessionV;

    open spec fn view(&self) -> SessionV {
        match self {
            AuthSession::Uninitialized => SessionV::Uninitialized,
            AuthSession::InProgress { account_id, cred_handler } => SessionV::InProgress {
                account: account_id@,
                handler: cred_handler@,
            },
            AuthSession::Success => SessionV::Success,
            AuthSession::Denied => SessionV::Denied,
        }
    }
}

impl AuthSession {
    /// A fresh session for one accepted connection.
    pub fn new() -> (s: AuthSession)
        ensures
            s@ == SessionV::Uninitialized,
    {
        AuthSession::Uninitialized
    }
}

/// The session that follows a successful begin-authentication call.
pub open spec fn auth_init_next(account: Seq<u8>, handler: Seq<u8>) -> SessionV {
    SessionV::InProgress { account, handler }
}

/// Records the resolver's successful begin-authentication call: the session
/// enters `InProgress` for that account with the resolver's fresh handler
/// state, and the provider's first challenge is relayed to the peer.
pub fn settle_auth_init(
    session: &mut AuthSession,
    account_id: Vec<u8>,
    cred_handler: CredentialState,
    challenge: Vec<u8>,
) -> (r: Response)
    ensures
        final(session)@ == auth_init_next(account_id@, cred_handler@),
        r@ == RespV::AuthStepResult(OutcomeV::Challenge(challenge@)),
{
    *session = AuthSession::InProgress { account_id, cred_handler };
    Response::AuthStepResult(AuthStepOutcome::Challenge(challenge))
}

/// The session that follows an advance-authentication call: terminal
/// outcomes end the attempt; a further challenge keeps it in progress with
/// the handler state the resolver handed back.
pub open spec fn auth_step_next(account: Seq<u8>, handler: Seq<u8>, outcome: OutcomeV) -> SessionV {
    match outcome {
        OutcomeV::Success => SessionV::Success,
        OutcomeV::Denied => SessionV::Denied,
        OutcomeV::Challenge(_) => SessionV::InProgress { account, handler },
    }
}

/// Records the resolver's advance-authentication call and relays its
/// outcome to the peer.
pub fn settle_auth_step(
    session: &mut AuthSession,
    account_id: Vec<u8>,
    cred_handler: CredentialState,
    outcome: AuthStepOutcome,
) -> (r: Response)
    ensures
        final(session)@ == auth_step_next(account_id@, cred_handler@, outcome@),
        r@ == RespV::AuthStepResult(outcome@),
{
    match &outcome {
        AuthStepOutcome::Success => {
            *session = AuthSession::Success;
        },
        AuthStepOutcome::Denied => {
            *session = AuthSession::Denied;
        },
        AuthStepOutcome::Challenge(_) => {
            *session = AuthSession::InProgress { account_id, cred_handler };
        },
    }
    Response::AuthStepResult(outcome)
}

} // verus!
