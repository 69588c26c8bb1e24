//! The connection handler's decision core.
//!
//! For each accepted connection the surrounding loop verifies the peer,
//! builds one fresh session, and then, for every decoded request, asks
//! `plan_request` what to do: answer at once, or run one resolver
//! operation under the shared facade lock and feed its result back through
//! the settle functions of this crate.  The loop itself only moves bytes
//! and performs the one operation it was handed; every decision stands
//! here.

use vstd::prelude::*;

use crate::hex::copy_bytes;
use crate::messages::ReqV;
use crate::messages::RespV;
use crate::messages::Request;
use crate::messages::Response;
use crate::session::AuthSession;
use crate::session::CredentialState;
use crate::session::SessionV;

verus! {

/// Spec-level model of one resolver operation.
pub enum CallV {
    AuthInit { account: Seq<u8> },
    AuthStep { account: Seq<u8>, handler: Seq<u8>, payload: Seq<u8> },
    AccountsEnumerate,
    AccountByName { name: Seq<u8> },
    AccountByNumericId { id: u32 },
    GroupsEnumerate,
    GroupByName { name: Seq<u8> },
    GroupByNumericId { id: u32 },
    AccountAuthorized { account: Seq<u8> },
}

/// One resolver operation the connection loop must run under the shared
/// facade lock before the current request can be answered.
#[derive(Debug, PartialEq, Eq)]
pub enum FacadeCall {
    /// Begin authentication for the named account.
    AuthInit { account_id: Vec<u8> },
    /// Advance the in-progress authentication; the handler state is the
    /// session's opaque token, threaded through the resolver.
    AuthStep { account_id: Vec<u8>, cred_handler: CredentialState, payload: Vec<u8> },
    /// Enumerate account records.
    AccountsEnumerate,
    /// Look one account up by name.
    AccountByName { name: Vec<u8> },
    /// Look one account up by numeric id.
    AccountByNumericId { id: u32 },
    /// Enumerate group records.
    GroupsEnumerate,
    /// Look one group up by name.
    GroupByName { name: Vec<u8> },
    /// Look one group up by numeric id.
    GroupByNumericId { id: u32 },
    /// Ask whether the named account may authenticate.
    AccountAuthorized { account_id: Vec<u8> },
}

impl View for FacadeCall {
    type V = CallV;

    open spec fn view(&self) -> CallV {
        match self {
            FacadeCall::AuthInit { account_id } => CallV::AuthInit { account: account_id@ },
            FacadeCall::AuthStep { account_id, cred_handler, payload } => CallV::AuthStep {
                account: account_id@,
                handler: cred_handler@,
                payload: payload@,
            },
            FacadeCall::AccountsEnumerate => CallV::AccountsEnumerate,
            FacadeCall::AccountByName { name } => CallV::AccountByName { name: name@ },
            FacadeCall::AccountByNumericId { id } => CallV::AccountByNumericId { id: *id },
            FacadeCall::GroupsEnumerate => CallV::GroupsEnumerate,
            FacadeCall::GroupByName { name } => CallV::GroupByName { name: name@ },
            FacadeCall::GroupByNumericId { id } => CallV::GroupByNumericId { id: *id },
            FacadeCall::AccountAuthorized { account_id } => CallV::AccountAuthorized {
                account: account_id@,
            },
        }
    }
}

/// Spec-level model of what a request requires of the loop.
pub enum PlannedV {
    Respond(RespV),
    Call(CallV),
}

/// What the loop must do for one decoded request: reply at once, or run
/// one resolver operation and settle its result.
#[derive(Debug, PartialEq, Eq)]
pub enum Planned {
    /// Answer the peer now; no resolver operation runs.
    Respond(Response),
    /// Run this one operation under the facade lock, then settle.
    Call(FacadeCall),
}

impl View for Planned {
    type V = PlannedV;

    open spec fn view(&self) -> PlannedV {
        match self {
            Planned::Respond(r) => PlannedV::Respond(r@),
            Planned::Call(c) => PlannedV::Call(c@),
        }
    }
}

/// The session after a request is planned, and what the loop must do.
///
/// Authentication requests are gated by the session: a step outside a live
/// session is rejected without touching any state, and an init while a
/// session is active fails closed, resetting to `Uninitialized`.  Every
/// other request is dispatched to the resolver regardless of the session,
/// and a session-begin notification is always acknowledged at once.
pub open spec fn plan_spec(s: SessionV, r: ReqV) -> (SessionV, PlannedV) {
    match r {
        ReqV::AuthenticateInit(a) => if s is Uninitialized {
            (s, PlannedV::Call(CallV::AuthInit { account: a }))
        } else {
            (SessionV::Uninitialized, PlannedV::Respond(RespV::Error))
        },
        ReqV::AuthenticateStep(p) => match s {
            SessionV::InProgress { account, handler } => (
                s,
                PlannedV::Call(CallV::AuthStep { account, handler, payload: p }),
            ),
            _ => (s, PlannedV::Respond(RespV::Error)),
        },
        ReqV::AccountsEnumerate => (s, PlannedV::Call(CallV::AccountsEnumerate)),
        ReqV::AccountByName(x) => (s, PlannedV::Call(CallV::AccountByName { name: x })),
        ReqV::AccountByNumericId(n) => (s, PlannedV::Call(CallV::AccountByNumericId { id: n })),
        ReqV::GroupsEnumerate => (s, PlannedV::Call(CallV::GroupsEnumerate)),
        ReqV::GroupByName(x) => (s, PlannedV::Call(CallV::GroupByName { name: x })),
        ReqV::GroupByNumericId(n) => (s, PlannedV::Call(CallV::GroupByNumericId { id: n })),
        ReqV::AccountAuthorized(a) => (s, PlannedV::Call(CallV::AccountAuthorized { account: a })),
        ReqV::AccountSessionBegin(_) => (s, PlannedV::Respond(RespV::Success)),
    }
}

/// Decides one decoded request against the connection's session.
pub fn plan_request(session: &mut AuthSession, req: Request) -> (r: Planned)
    ensures
        final(session)@ == plan_spec(old(session)@, req@).0,
        r@ == plan_spec(old(session)@, req@).1,
{
    match req {
        Request::AuthenticateInit(a) => match session {
            AuthSession::Uninitialized => Planned::Call(FacadeCall::AuthInit { account_id: a }),
            _ => {
                *session = AuthSession::Uninitialized;
                Planned::Respond(Response::Error)
            },
        },
        Request::AuthenticateStep(p) => match session {
            AuthSession::InProgress { account_id, cred_handler } => {
                let account = copy_bytes(account_id);
                let handler = CredentialState { token: copy_bytes(&cred_handler.token) };
                Planned::Call(
                    FacadeCall::AuthStep {
                        account_id: account,
                        cred_handler: handler,
                        payload: p,
                    },
                )
            },
            _ => Planned::Respond(Response::Error),
        },
        Request::AccountsEnumerate => Planned::Call(FacadeCall::AccountsEnumerate),
        Request::AccountByName(x) => Planned::Call(FacadeCall::AccountByName { name: x }),
        Request::AccountByNumericId(n) => Planned::Call(FacadeCall::AccountByNumericId { id: n }),
        Request::GroupsEnumerate => Planned::Call(FacadeCall::GroupsEnumerate),
        Request::GroupByName(x) => Planned::Call(FacadeCall::GroupByName { name: x }),
        Request::GroupByNumericId(n) => Planned::Call(FacadeCall::GroupByNumericId { id: n }),
        Request::AccountAuthorized(a) => Planned::Call(
            FacadeCall::AccountAuthorized { account_id: a },
        ),
        Request::AccountSessionBegin(_) => Planned::Respond(Response::Success),
    }
}

/// Settles an account lookup: the record payload when one was found, and a
/// structured error when the account is absent from cache and provider.
pub fn settle_account_lookup(records: Option<Vec<u8>>) -> (r: Response)
    ensures
        records matches Some(p) ==> r@ == RespV::Accounts(p@),
        records is None ==> r@ == RespV::Error,
{
    match records {
        Some(p) => Response::Accounts(p),
        None => Response::Error,
    }
}

/// Settles a group lookup, as `settle_account_lookup` does for accounts.
pub fn settle_group_lookup(records: Option<Vec<u8>>) -> (r: Response)
    ensures
        records matches Some(p) ==> r@ == RespV::Groups(p@),
        records is None ==> r@ == RespV::Error,
{
    match records {
        Some(p) => Response::Groups(p),
        None => Response::Error,
    }
}

/// Settles an is-this-account-allowed check.
pub fn settle_account_authorized(allowed: bool) -> (r: Response)
    ensures
        r@ == (if allowed {
            RespV::Success
        } else {
            RespV::Error
        }),
{
    if allowed {
        Response::Success
    } else {
        Response::Error
    }
}

/// Peer credentials of a connecting local process, as the transport
/// reported them at accept time.
#[derive(Debug, PartialEq, Eq)]
pub struct PeerCredentials {
    /// The peer process's user id.
    pub uid: u32,
    /// The peer process's group id.
    pub gid: u32,
}

/// Admits or refuses one accepted connection.
///
/// A connection is handed a request loop exactly when the transport could
/// retrieve the peer's credentials; the session it starts with is fresh
/// and uninitialized.  With no retrievable credentials there is no
/// session, and so no decode attempt and no request loop.
pub fn admit_connection(peer: Option<PeerCredentials>) -> (r: Option<AuthSession>)
    ensures
        r is Some <==> peer is Some,
        r matches Some(s) ==> s@ == SessionV::Uninitialized,
{
    match peer {
        Some(_) => Some(AuthSession::new()),
        None => None,
    }
}

/// Law: on any connection, however many requests came before, an
/// authentication step issued while the session is `Uninitialized`,
/// `Success` or `Denied` yields `Error`, runs no resolver operation, and
/// leaves the session exactly as it was.
pub proof fn lemma_step_outside_session_rejected(s: SessionV, payload: Seq<u8>)
    requires
        !(s is InProgress),
    ensures
        plan_spec(s, ReqV::AuthenticateStep(payload)) == (s, PlannedV::Respond(RespV::Error)),
{
}

/// Law: an authentication init issued while a session is in progress fails
/// closed: the session resets to `Uninitialized`, the peer gets `Error`,
/// and no resolver operation runs.
pub proof fn lemma_double_init_fails_closed(s: SessionV, account: Seq<u8>)
    requires
        s is InProgress,
    ensures
        plan_spec(s, ReqV::AuthenticateInit(account)) == (
            SessionV::Uninitialized,
            PlannedV::Respond(RespV::Error),
        ),
{
}

/// Law: a successful init followed by a successful terminal step reaches
/// `Success` exactly once — neither earlier state is `Success`, the
/// terminal step lands on it — and every later step on that connection
/// yields `Error` and leaves `Success` untouched.
pub proof fn lemma_login_success_reached_once(
    account: Seq<u8>,
    handler0: Seq<u8>,
    payload: Seq<u8>,
    handler1: Seq<u8>,
    later: Seq<u8>,
)
    ensures
        plan_spec(SessionV::Uninitialized, ReqV::AuthenticateInit(account)) == (
            SessionV::Uninitialized,
            PlannedV::Call(CallV::AuthInit { account }),
        ),
        !(crate::session::auth_init_next(account, handler0) is Success),
        plan_spec(
            crate::session::auth_init_next(account, handler0),
            ReqV::AuthenticateStep(payload),
        ) == (
            crate::session::auth_init_next(account, handler0),
            PlannedV::Call(CallV::AuthStep { account, handler: handler0, payload }),
        ),
        crate::session::auth_step_next(account, handler1, crate::messages::OutcomeV::Success)
            == SessionV::Success,
        plan_spec(SessionV::Success, ReqV::AuthenticateStep(later)) == (
            SessionV::Success,
            PlannedV::Respond(RespV::Error),
        ),
{
}

/// The sessions of all live connections after one connection's session
/// moves to a next state; every step of the handler — planning a request
/// or settling a resolver result — changes a session only through this.
pub open spec fn sessions_after_step(
    sessions: Map<nat, SessionV>,
    c: nat,
    next: SessionV,
) -> Map<nat, SessionV> {
    sessions.insert(c, next)
}

/// Law: sessions are isolated per connection.  Whatever one connection
/// does — whichever request it planned, whichever resolver result it
/// settled — every other connection's session is exactly what it was.
pub proof fn lemma_session_isolation(
    sessions: Map<nat, SessionV>,
    c: nat,
    next: SessionV,
    other: nat,
)
    requires
        other != c,
        sessions.dom().contains(other),
    ensures
        sessions_after_step(sessions, c, next)[other] == sessions[other],
{
}

/// The sessions of all live connections after a whole interleaving of
/// steps, each step naming the connection whose session it moves.
pub open spec fn sessions_after_steps(
    sessions: Map<nat, SessionV>,
    steps: Seq<(nat, SessionV)>,
) -> Map<nat, SessionV>
    decreases steps.len(),
{
    if steps.len() == 0 {
        sessions
    } else {
        sessions_after_steps(
            sessions_after_step(sessions, steps[0].0, steps[0].1),
            steps.drop_first(),
        )
    }
}

/// Law: however many connections interleave however many authentication
/// sequences, a connection none of those steps belongs to ends with its
/// session exactly as it began.
pub proof fn lemma_session_isolation_over_steps(
    sessions: Map<nat, SessionV>,
    steps: Seq<(nat, SessionV)>,
    other: nat,
)
    requires
        sessions.dom().contains(other),
        forall|i: int| 0 <= i < steps.len() ==> (#[trigger] steps[i]).0 != other,
    ensures
        sessions_after_steps(sessions, steps).dom().contains(other),
        sessions_after_steps(sessions, steps)[other] == sessions[other],
    decreases steps.len(),
{
    if steps.len() > 0 {
        lemma_session_isolation_over_steps(
            sessions_after_step(sessions, steps[0].0, steps[0].1),
            steps.drop_first(),
            other,
        );
    }
}

} // verus!
