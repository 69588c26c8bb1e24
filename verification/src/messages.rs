//! Request and response messages exchanged with a connected peer.
//!
//! Each message is a tagged variant from a closed set.  Account and group
//! names, step payloads and record payloads are carried as byte strings:
//! their meaning belongs to the resolver's collaborators and is opaque to
//! this core.

use vstd::prelude::*;

verus! {

/// Spec-level model of a request.
pub enum ReqV {
    AuthenticateInit(Seq<u8>),
    AuthenticateStep(Seq<u8>),
    AccountsEnumerate,
    AccountByName(Seq<u8>),
    AccountByNumericId(u32),
    GroupsEnumerate,
    GroupByName(Seq<u8>),
    GroupByNumericId(u32),
    AccountAuthorized(Seq<u8>),
    AccountSessionBegin(Seq<u8>),
}

/// One request from a connected peer.
#[derive(Debug, PartialEq, Eq)]
pub enum Request {
    /// Begin a multi-step authentication for the named account.
    AuthenticateInit(Vec<u8>),
    /// Advance the in-progress authentication with an opaque payload.
    AuthenticateStep(Vec<u8>),
    /// Enumerate all account records.
    AccountsEnumerate,
    /// Look one account up by name.
    AccountByName(Vec<u8>),
    /// Look one account up by numeric id.
    AccountByNumericId(u32),
    /// Enumerate all group records.
    GroupsEnumerate,
    /// Look one group up by name.
    GroupByName(Vec<u8>),
    /// Look one group up by numeric id.
    GroupByNumericId(u32),
    /// Ask whether the named account is allowed to authenticate.
    AccountAuthorized(Vec<u8>),
    /// Session-open notification; always trivially acknowledged.
    AccountSessionBegin(Vec<u8>),
}

impl View for Request {
    type V = ReqV;

    open spec fn view(&self) -> ReqV {
        match self {
            Request::AuthenticateInit(a) => ReqV::AuthenticateInit(a@),
            Request::AuthenticateStep(p) => ReqV::AuthenticateStep(p@),
            Request::AccountsEnumerate => ReqV::AccountsEnumerate,
            Request::AccountByName(n) => ReqV::AccountByName(n@),
            Request::AccountByNumericId(id) => ReqV::AccountByNumericId(*id),
            Request::GroupsEnumerate => ReqV::GroupsEnumerate,
            Request::GroupByName(n) => ReqV::GroupByName(n@),
            Request::GroupByNumericId(id) => ReqV::GroupByNumericId(*id),
            Request::AccountAuthorized(a) => ReqV::AccountAuthorized(a@),
            Request::AccountSessionBegin(a) => ReqV::AccountSessionBegin(a@),
        }
    }
}

/// Spec-level model of one authentication-step outcome.
pub enum OutcomeV {
    Success,
    Denied,
    Challenge(Seq<u8>),
}

/// Outcome of one authentication step, as reported by the resolver.
#[derive(Debug, PartialEq, Eq)]
pub enum AuthStepOutcome {
    /// The login attempt has succeeded.
    Success,
    /// The login attempt has been denied.
    Denied,
    /// The provider demands another round; the payload is its challenge.
    Challenge(Vec<u8>),
}

impl View for AuthStepOutcome {
    type V = OutcomeV;

    open spec fn view(&self) -> OutcomeV {
        match self {
            AuthStepOutcome::Success => OutcomeV::Success,
            AuthStepOutcome::Denied => OutcomeV::Denied,
            AuthStepOutcome::Challenge(c) => OutcomeV::Challenge(c@),
        }
    }
}

/// Spec-level model of a response.
pub enum RespV {
    Success,
    Error,
    AuthStepResult(OutcomeV),
    Accounts(Seq<u8>),
    Groups(Seq<u8>),
}

/// One response sent back to a connected peer.
#[derive(Debug, PartialEq, Eq)]
pub enum Response {
    /// The request was carried out.
    Success,
    /// The request was rejected; the connection stays open.
    Error,
    /// Result of an authentication init or step.
    AuthStepResult(AuthStepOutcome),
    /// Account record payload, produced by the resolver's lookups.
    Accounts(Vec<u8>),
    /// Group record payload, produced by the resolver's lookups.
    Groups(Vec<u8>),
}

impl View for Response {
    type V = RespV;

    open spec fn view(&self) -> RespV {
        match self {
            Response::Success => RespV::Success,
            Response::Error => RespV::Error,
            Response::AuthStepResult(o) => RespV::AuthStepResult(o@),
            Response::Accounts(r) => RespV::Accounts(r@),
            Response::Groups(r) => RespV::Groups(r@),
        }
    }
}

} // verus!
