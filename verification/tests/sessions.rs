//! Tests of the authentication session machine, request dispatch,
//! admission, and the end-to-end request/response scenarios.

use himmelblaud::admit_connection;
use himmelblaud::plan_request;
use himmelblaud::settle_account_authorized;
use himmelblaud::settle_account_lookup;
use himmelblaud::settle_auth_init;
use himmelblaud::settle_auth_step;
use himmelblaud::settle_group_lookup;
use himmelblaud::AuthSession;
use himmelblaud::AuthStepOutcome;
use himmelblaud::ClientCodec;
use himmelblaud::CredentialState;
use himmelblaud::FacadeCall;
use himmelblaud::PeerCredentials;
use himmelblaud::Planned;
use himmelblaud::Request;
use himmelblaud::Resolver;
use himmelblaud::Response;

fn handler(token: &[u8]) -> CredentialState {
    CredentialState { token: token.to_vec() }
}

#[test]
fn step_without_session_yields_error() {
    // A step in Uninitialized, Success or Denied is rejected without
    // touching the state, on every such session.
    let mut session = AuthSession::new();
    let planned = plan_request(&mut session, Request::AuthenticateStep(b"x".to_vec()));
    assert_eq!(planned, Planned::Respond(Response::Error));
    assert_eq!(session, AuthSession::Uninitialized);

    let mut session = AuthSession::Success;
    let planned = plan_request(&mut session, Request::AuthenticateStep(b"x".to_vec()));
    assert_eq!(planned, Planned::Respond(Response::Error));
    assert_eq!(session, AuthSession::Success);

    let mut session = AuthSession::Denied;
    let planned = plan_request(&mut session, Request::AuthenticateStep(b"x".to_vec()));
    assert_eq!(planned, Planned::Respond(Response::Error));
    assert_eq!(session, AuthSession::Denied);
}

#[test]
fn double_init_fails_closed() {
    let mut session = AuthSession::new();
    let resp = settle_auth_init(&mut session, b"alice".to_vec(), handler(b"h0"), b"c".to_vec());
    assert_eq!(resp, Response::AuthStepResult(AuthStepOutcome::Challenge(b"c".to_vec())));

    // A second init while the session is active resets it and errors.
    let planned = plan_request(&mut session, Request::AuthenticateInit(b"mallory".to_vec()));
    assert_eq!(planned, Planned::Respond(Response::Error));
    assert_eq!(session, AuthSession::Uninitialized);
}

#[test]
fn login_success_flow_reaches_success_once() {
    let mut session = AuthSession::new();

    let planned = plan_request(&mut session, Request::AuthenticateInit(b"alice".to_vec()));
    assert_eq!(planned, Planned::Call(FacadeCall::AuthInit { account_id: b"alice".to_vec() }));
    assert_eq!(session, AuthSession::Uninitialized);

    let resp = settle_auth_init(&mut session, b"alice".to_vec(), handler(b"h0"), b"pw?".to_vec());
    assert_eq!(resp, Response::AuthStepResult(AuthStepOutcome::Challenge(b"pw?".to_vec())));
    assert!(!matches!(session, AuthSession::Success));

    let planned = plan_request(&mut session, Request::AuthenticateStep(b"secret".to_vec()));
    assert_eq!(
        planned,
        Planned::Call(FacadeCall::AuthStep {
            account_id: b"alice".to_vec(),
            cred_handler: handler(b"h0"),
            payload: b"secret".to_vec(),
        })
    );

    let resp = settle_auth_step(
        &mut session,
        b"alice".to_vec(),
        handler(b"h1"),
        AuthStepOutcome::Success,
    );
    assert_eq!(resp, Response::AuthStepResult(AuthStepOutcome::Success));
    assert_eq!(session, AuthSession::Success);

    // Any further step yields Error and leaves Success untouched.
    let planned = plan_request(&mut session, Request::AuthenticateStep(b"more".to_vec()));
    assert_eq!(planned, Planned::Respond(Response::Error));
    assert_eq!(session, AuthSession::Success);
}

#[test]
fn multi_round_login_keeps_new_handler_state() {
    let mut session = AuthSession::new();
    settle_auth_init(&mut session, b"alice".to_vec(), handler(b"h0"), b"pw?".to_vec());

    // A non-terminal step outcome keeps the session in progress with the
    // handler state the resolver handed back.
    let resp = settle_auth_step(
        &mut session,
        b"alice".to_vec(),
        handler(b"h1"),
        AuthStepOutcome::Challenge(b"second factor?".to_vec()),
    );
    assert_eq!(
        resp,
        Response::AuthStepResult(AuthStepOutcome::Challenge(b"second factor?".to_vec()))
    );
    assert_eq!(
        session,
        AuthSession::InProgress { account_id: b"alice".to_vec(), cred_handler: handler(b"h1") }
    );
}

#[test]
fn denied_login_is_terminal() {
    let mut session = AuthSession::new();
    settle_auth_init(&mut session, b"alice".to_vec(), handler(b"h0"), b"pw?".to_vec());
    let resp = settle_auth_step(
        &mut session,
        b"alice".to_vec(),
        handler(b"h1"),
        AuthStepOutcome::Denied,
    );
    assert_eq!(resp, Response::AuthStepResult(AuthStepOutcome::Denied));
    assert_eq!(session, AuthSession::Denied);

    let planned = plan_request(&mut session, Request::AuthenticateStep(b"again".to_vec()));
    assert_eq!(planned, Planned::Respond(Response::Error));
    assert_eq!(session, AuthSession::Denied);
}

#[test]
fn sessions_are_isolated_per_connection() {
    // Two connections drive interleaved authentication sequences; each owns
    // its session, and neither observes the other's state.
    let mut first = AuthSession::new();
    let mut second = AuthSession::new();

    settle_auth_init(&mut first, b"alice".to_vec(), handler(b"ha"), b"pw?".to_vec());
    let snapshot_first = AuthSession::InProgress {
        account_id: b"alice".to_vec(),
        cred_handler: handler(b"ha"),
    };
    assert_eq!(second, AuthSession::Uninitialized);

    settle_auth_init(&mut second, b"bob".to_vec(), handler(b"hb"), b"pw?".to_vec());
    assert_eq!(first, snapshot_first);

    settle_auth_step(&mut second, b"bob".to_vec(), handler(b"hb2"), AuthStepOutcome::Denied);
    assert_eq!(first, snapshot_first);
    assert_eq!(second, AuthSession::Denied);

    settle_auth_step(&mut first, b"alice".to_vec(), handler(b"ha2"), AuthStepOutcome::Success);
    assert_eq!(first, AuthSession::Success);
    assert_eq!(second, AuthSession::Denied);
}

#[test]
fn admission_requires_peer_credentials() {
    // No retrievable peer credentials: refused, no session, no loop.
    assert_eq!(admit_connection(None), None);

    let admitted = admit_connection(Some(PeerCredentials { uid: 1000, gid: 1000 }));
    assert_eq!(admitted, Some(AuthSession::Uninitialized));
}

#[test]
fn lookup_requests_ignore_session_state() {
    let mut session = AuthSession::Denied;
    let planned = plan_request(&mut session, Request::AccountsEnumerate);
    assert_eq!(planned, Planned::Call(FacadeCall::AccountsEnumerate));
    assert_eq!(session, AuthSession::Denied);

    let planned = plan_request(&mut session, Request::GroupByNumericId(1024));
    assert_eq!(planned, Planned::Call(FacadeCall::GroupByNumericId { id: 1024 }));

    let planned = plan_request(&mut session, Request::AccountSessionBegin(b"alice".to_vec()));
    assert_eq!(planned, Planned::Respond(Response::Success));
}

#[test]
fn settle_lookup_results() {
    assert_eq!(settle_account_lookup(Some(b"rec".to_vec())), Response::Accounts(b"rec".to_vec()));
    assert_eq!(settle_account_lookup(None), Response::Error);
    assert_eq!(settle_group_lookup(Some(b"grp".to_vec())), Response::Groups(b"grp".to_vec()));
    assert_eq!(settle_group_lookup(None), Response::Error);
    assert_eq!(settle_account_authorized(true), Response::Success);
    assert_eq!(settle_account_authorized(false), Response::Error);
}

#[test]
fn resolver_keeps_its_identity() {
    let resolver = Resolver::new(b"example.com".to_vec(), b"tenant-1".to_vec());
    assert_eq!(resolver.realm, b"example.com".to_vec());
    assert_eq!(resolver.tenant_id, b"tenant-1".to_vec());
}

#[test]
fn scenario_wire_level_login() {
    // AuthenticateInit("alice") -> challenge; correct answer -> Success;
    // one more step -> Error.
    let codec = ClientCodec::new();
    let mut session = AuthSession::new();

    let mut buf = b"{\"AuthenticateInit\":\"616c696365\"}".to_vec();
    let req = codec.decode(&mut buf).expect("one complete init request");
    let planned = plan_request(&mut session, req);
    assert_eq!(planned, Planned::Call(FacadeCall::AuthInit { account_id: b"alice".to_vec() }));

    // The resolver begins the session and hands back its first challenge.
    let resp = settle_auth_init(
        &mut session,
        b"alice".to_vec(),
        handler(b"h0"),
        b"password?".to_vec(),
    );
    let mut out = Vec::new();
    codec.encode(&resp, &mut out);
    assert_eq!(out, b"{\"AuthStepResult\":{\"Challenge\":\"70617373776f72643f\"}}".to_vec());

    let mut buf = b"{\"AuthenticateStep\":\"736563726574\"}".to_vec();
    let req = codec.decode(&mut buf).expect("one complete step request");
    match plan_request(&mut session, req) {
        Planned::Call(FacadeCall::AuthStep { account_id, payload, .. }) => {
            assert_eq!(account_id, b"alice".to_vec());
            assert_eq!(payload, b"secret".to_vec());
        }
        other => panic!("expected a resolver step call, got {:?}", other),
    }
    let resp = settle_auth_step(
        &mut session,
        b"alice".to_vec(),
        handler(b"h1"),
        AuthStepOutcome::Success,
    );
    let mut out = Vec::new();
    codec.encode(&resp, &mut out);
    assert_eq!(out, b"{\"AuthStepResult\":\"Success\"}".to_vec());

    let mut buf = b"{\"AuthenticateStep\":\"7077\"}".to_vec();
    let req = codec.decode(&mut buf).expect("one complete step request");
    let planned = plan_request(&mut session, req);
    assert_eq!(planned, Planned::Respond(Response::Error));
}

#[test]
fn scenario_step_then_lookup_on_open_connection() {
    // A step with no prior init is answered with Error, and the connection
    // can still issue an enumeration.
    let codec = ClientCodec::new();
    let mut session = AuthSession::new();

    let mut buf = b"{\"AuthenticateStep\":\"7077\"}".to_vec();
    let req = codec.decode(&mut buf).expect("one complete step request");
    let planned = plan_request(&mut session, req);
    assert_eq!(planned, Planned::Respond(Response::Error));

    let mut buf = b"\"AccountsEnumerate\"".to_vec();
    let req = codec.decode(&mut buf).expect("one complete enumerate request");
    let planned = plan_request(&mut session, req);
    assert_eq!(planned, Planned::Call(FacadeCall::AccountsEnumerate));
}

#[test]
fn scenario_absent_account_yields_error() {
    // AccountByName("bob") for an account absent from cache and provider.
    let codec = ClientCodec::new();
    let mut session = AuthSession::new();

    let mut buf = b"{\"AccountByName\":\"626f62\"}".to_vec();
    let req = codec.decode(&mut buf).expect("one complete lookup request");
    let planned = plan_request(&mut session, req);
    assert_eq!(planned, Planned::Call(FacadeCall::AccountByName { name: b"bob".to_vec() }));

    // Neither the cache nor the provider knows the account.
    let resp = settle_account_lookup(None);
    let mut out = Vec::new();
    codec.encode(&resp, &mut out);
    assert_eq!(out, b"\"Error\"".to_vec());

    // The connection stays open and serves the next request.
    let planned = plan_request(&mut session, Request::GroupsEnumerate);
    assert_eq!(planned, Planned::Call(FacadeCall::GroupsEnumerate));
}

#[test]
fn numeric_id_bytes_round_trip() {
    for id in [0u32, 1, 255, 256, 65_536, 1_000_000, u32::MAX] {
        let bytes = himmelblaud::u32_to_be_bytes(id);
        assert_eq!(bytes.len(), 4);
        assert_eq!(himmelblaud::u32_from_be_bytes(&bytes), id);
    }
}
