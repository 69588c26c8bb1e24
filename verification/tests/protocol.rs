//! Tests of the protocol codec: decoding requests, encoding responses.

use himmelblaud::AuthStepOutcome;
use himmelblaud::ClientCodec;
use himmelblaud::Request;
use himmelblaud::Response;

fn decode_all(bytes: &[u8]) -> (Option<Request>, Vec<u8>) {
    let codec = ClientCodec::new();
    let mut buf = bytes.to_vec();
    let r = codec.decode(&mut buf);
    (r, buf)
}

fn encode_one(resp: Response) -> Vec<u8> {
    let codec = ClientCodec::new();
    let mut out = Vec::new();
    codec.encode(&resp, &mut out);
    out
}

#[test]
fn decode_unit_requests() {
    let (r, buf) = decode_all(b"\"AccountsEnumerate\"");
    assert_eq!(r, Some(Request::AccountsEnumerate));
    assert!(buf.is_empty());

    let (r, buf) = decode_all(b"\"GroupsEnumerate\"");
    assert_eq!(r, Some(Request::GroupsEnumerate));
    assert!(buf.is_empty());
}

#[test]
fn decode_authenticate_init() {
    // "alice" as hex
    let (r, buf) = decode_all(b"{\"AuthenticateInit\":\"616c696365\"}");
    assert_eq!(r, Some(Request::AuthenticateInit(b"alice".to_vec())));
    assert!(buf.is_empty());
}

#[test]
fn decode_lookups_by_name() {
    let (r, _) = decode_all(b"{\"AccountByName\":\"626f62\"}");
    assert_eq!(r, Some(Request::AccountByName(b"bob".to_vec())));

    let (r, _) = decode_all(b"{\"GroupByName\":\"7573657273\"}");
    assert_eq!(r, Some(Request::GroupByName(b"users".to_vec())));

    let (r, _) = decode_all(b"{\"AccountAuthorized\":\"626f62\"}");
    assert_eq!(r, Some(Request::AccountAuthorized(b"bob".to_vec())));

    let (r, _) = decode_all(b"{\"AccountSessionBegin\":\"626f62\"}");
    assert_eq!(r, Some(Request::AccountSessionBegin(b"bob".to_vec())));
}

#[test]
fn decode_numeric_ids() {
    let (r, _) = decode_all(b"{\"AccountByNumericId\":\"000003e8\"}");
    assert_eq!(r, Some(Request::AccountByNumericId(1000)));

    let (r, _) = decode_all(b"{\"GroupByNumericId\":\"00000400\"}");
    assert_eq!(r, Some(Request::GroupByNumericId(1024)));

    let (r, _) = decode_all(b"{\"AccountByNumericId\":\"ffffffff\"}");
    assert_eq!(r, Some(Request::AccountByNumericId(u32::MAX)));
}

#[test]
fn decode_empty_payload() {
    let (r, _) = decode_all(b"{\"AuthenticateStep\":\"\"}");
    assert_eq!(r, Some(Request::AuthenticateStep(Vec::new())));
}

#[test]
fn decode_partial_message_keeps_buffer() {
    // An incomplete message parses to nothing and consumes nothing, so the
    // same buffer can be retried once more bytes arrive.
    let partial: &[u8] = b"{\"AuthenticateInit\":\"61";
    let (r, buf) = decode_all(partial);
    assert_eq!(r, None);
    assert_eq!(buf, partial.to_vec());
}

#[test]
fn decode_rejects_malformed() {
    let cases: &[&[u8]] = &[
        b"",
        b"hello",
        b"\"NoSuchRequest\"",
        b"{\"NoSuchRequest\":\"61\"}",
        // odd number of hex digits
        b"{\"AccountByName\":\"6f2\"}",
        // uppercase digits are not the canonical image
        b"{\"AccountByName\":\"6F\"}",
        // a numeric id must be exactly four bytes wide
        b"{\"AccountByNumericId\":\"03e8\"}",
        b"{\"AccountByNumericId\":\"00000003e8\"}",
        // trailing garbage after a complete message
        b"{\"AccountByName\":\"626f62\"}x",
    ];
    for case in cases {
        let (r, buf) = decode_all(case);
        assert_eq!(r, None);
        assert_eq!(&buf, case);
    }
}

#[test]
fn encode_success_and_error() {
    assert_eq!(encode_one(Response::Success), b"\"Success\"".to_vec());
    assert_eq!(encode_one(Response::Error), b"\"Error\"".to_vec());
}

#[test]
fn encode_auth_step_results() {
    assert_eq!(
        encode_one(Response::AuthStepResult(AuthStepOutcome::Success)),
        b"{\"AuthStepResult\":\"Success\"}".to_vec()
    );
    assert_eq!(
        encode_one(Response::AuthStepResult(AuthStepOutcome::Denied)),
        b"{\"AuthStepResult\":\"Denied\"}".to_vec()
    );
    assert_eq!(
        encode_one(Response::AuthStepResult(AuthStepOutcome::Challenge(b"pw".to_vec()))),
        b"{\"AuthStepResult\":{\"Challenge\":\"7077\"}}".to_vec()
    );
}

#[test]
fn encode_record_payloads() {
    assert_eq!(
        encode_one(Response::Accounts(b"rec".to_vec())),
        b"{\"Accounts\":\"726563\"}".to_vec()
    );
    assert_eq!(
        encode_one(Response::Groups(b"rec".to_vec())),
        b"{\"Groups\":\"726563\"}".to_vec()
    );
}

#[test]
fn encode_appends_after_existing_bytes() {
    let codec = ClientCodec::new();
    let mut out = b"x".to_vec();
    codec.encode(&Response::Success, &mut out);
    assert_eq!(out, b"x\"Success\"".to_vec());
}
