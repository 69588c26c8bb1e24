//! Protocol codec: turns buffered bytes into exactly one request message,
//! and a response message into bytes.
//!
//! Each message is one textual, self-describing value: a unit variant is a
//! quoted tag, and a variant with data is a one-entry object whose key is
//! the tag and whose value is a quoted string holding the hex image of the
//! payload bytes (numeric ids travel as the hex image of their four
//! big-endian bytes).  Message boundaries carry no length prefix, so
//! decoding consumes the whole buffer when it parses, and nothing
//! otherwise; `decode` succeeds on exactly the encodings that
//! `spec_encode_request` describes.

use vstd::prelude::*;
use vstd::string::*;

use crate::hex::append_bytes;
use crate::hex::bytes_eq;
use crate::hex::hex_decode;
use crate::hex::hex_encode_into;
use crate::hex::hex_of;
use crate::hex::lemma_hex_of_injective;
use crate::hex::lemma_hex_of_len;
use crate::messages::AuthStepOutcome;
use crate::messages::OutcomeV;
use crate::messages::ReqV;
use crate::messages::Request;
use crate::messages::RespV;
use crate::messages::Response;

verus! {

/// The four big-endian bytes of a numeric id.
pub open spec fn u32_be_bytes(n: u32) -> Seq<u8> {
    seq![(n >> 24) as u8, (n >> 16) as u8, (n >> 8) as u8, n as u8]
}

/// The executable big-endian bytes of a numeric id.
pub fn u32_to_be_bytes(n: u32) -> (r: Vec<u8>)
    ensures
        r@ == u32_be_bytes(n),
{
    let mut out: Vec<u8> = Vec::new();
    out.push(#[verifier::truncate] ((n >> 24) as u8));
    out.push(#[verifier::truncate] ((n >> 16) as u8));
    out.push(#[verifier::truncate] ((n >> 8) as u8));
    out.push(#[verifier::truncate] (n as u8));
    proof {
        assert(out@ =~= u32_be_bytes(n));
    }
    out
}

/// The numeric id whose big-endian bytes a four-byte string is.
pub fn u32_from_be_bytes(p: &Vec<u8>) -> (n: u32)
    requires
        p@.len() == 4,
    ensures
        u32_be_bytes(n) == p@,
{
    let b0 = p[0] as u32;
    let b1 = p[1] as u32;
    let b2 = p[2] as u32;
    let b3 = p[3] as u32;
    let n = (b0 << 24) | (b1 << 16) | (b2 << 8) | b3;
    proof {
        assert((((b0 << 24) | (b1 << 16) | (b2 << 8) | b3) >> 24) as u8 == b0 as u8) by (bit_vector)
            requires b0 < 256 && b1 < 256 && b2 < 256 && b3 < 256;
        assert((((b0 << 24) | (b1 << 16) | (b2 << 8) | b3) >> 16) as u8 == b1 as u8) by (bit_vector)
            requires b0 < 256 && b1 < 256 && b2 < 256 && b3 < 256;
        assert((((b0 << 24) | (b1 << 16) | (b2 << 8) | b3) >> 8) as u8 == b2 as u8) by (bit_vector)
            requires b0 < 256 && b1 < 256 && b2 < 256 && b3 < 256;
        assert(((b0 << 24) | (b1 << 16) | (b2 << 8) | b3) as u8 == b3 as u8) by (bit_vector)
            requires b0 < 256 && b1 < 256 && b2 < 256 && b3 < 256;
        assert(u32_be_bytes(n) =~= p@);
    }
    n
}

/// Cancelling equal framing around two payload images.
proof fn lemma_tagged_cancel(pre: Seq<u8>, x: Seq<u8>, y: Seq<u8>, suf: Seq<u8>)
    requires
        pre + x + suf == pre + y + suf,
    ensures
        x == y,
{
    assert((pre + x + suf).len() == pre.len() + x.len() + suf.len());
    assert((pre + y + suf).len() == pre.len() + y.len() + suf.len());
    assert(x.len() == y.len());
    assert forall|i: int| 0 <= i < x.len() implies x[i] == y[i] by {
        assert((pre + x + suf)[pre.len() + i] == x[i]);
        assert((pre + y + suf)[pre.len() + i] == y[i]);
    };
    assert(x =~= y);
}

/// Whether `pat` stands letter for letter inside `buf` at `off`.
fn matches_at(buf: &Vec<u8>, off: usize, pat: &Vec<u8>) -> (r: bool)
    requires
        off + pat@.len() <= buf@.len(),
    ensures
        r <==> (forall|k: int| 0 <= k < pat@.len() ==> buf@[off + k] == pat@[k]),
{
    let nb = buf.len();
    let mut i: usize = 0;
    while i < pat.len()
        invariant
            0 <= i <= pat@.len(),
            nb == buf@.len(),
            off + pat@.len() <= buf@.len(),
            forall|k: int| 0 <= k < i ==> buf@[off + k] == pat@[k],
        decreases pat@.len() - i,
    {
        if buf[off + i] != pat[i] {
            return false;
        }
        i = i + 1;
    }
    true
}

/// Parses `buf` as `pre`, then the hex image of some payload, then `suf`.
///
/// Succeeds exactly on buffers of that shape, returning the payload.
fn parse_tagged(buf: &Vec<u8>, pre: &Vec<u8>, suf: &Vec<u8>) -> (r: Option<Vec<u8>>)
    ensures
        r matches Some(p) ==> buf@ == pre@ + hex_of(p@) + suf@,
        r is None ==> forall|p: Seq<u8>| buf@ != pre@ + hex_of(p) + suf@,
{
    let n = buf.len();
    let a = pre.len();
    let b = suf.len();
    if n < a || n - a < b {
        proof {
            assert forall|p: Seq<u8>| buf@ != pre@ + hex_of(p) + suf@ by {
                lemma_hex_of_len(p);
            };
        }
        return None;
    }
    if !matches_at(buf, 0, pre) {
        proof {
            assert forall|p: Seq<u8>| buf@ != pre@ + hex_of(p) + suf@ by {
                if buf@ == pre@ + hex_of(p) + suf@ {
                    assert(forall|k: int|
                        0 <= k < pre@.len() ==> (pre@ + hex_of(p) + suf@)[k] == pre@[k]);
                }
            };
        }
        return None;
    }
    if !matches_at(buf, n - b, suf) {
        proof {
            assert forall|p: Seq<u8>| buf@ != pre@ + hex_of(p) + suf@ by {
                if buf@ == pre@ + hex_of(p) + suf@ {
                    lemma_hex_of_len(p);
                    assert(forall|k: int|
                        0 <= k < suf@.len() ==> (pre@ + hex_of(p) + suf@)[(n - b) + k]
                            == suf@[k]);
                }
            };
        }
        return None;
    }
    let mut mid: Vec<u8> = Vec::new();
    let mut i: usize = a;
    while i < n - b
        invariant
            a <= i <= n - b,
            n == buf@.len(),
            a == pre@.len(),
            b == suf@.len(),
            mid@ == buf@.subrange(a as int, i as int),
        decreases n - b - i,
    {
        mid.push(buf[i]);
        proof {
            assert(mid@ =~= buf@.subrange(a as int, i + 1));
        }
        i = i + 1;
    }
    match hex_decode(&mid) {
        Some(p) => {
            proof {
                assert(buf@ =~= pre@ + mid@ + suf@);
            }
            Some(p)
        },
        None => {
            proof {
                assert forall|p: Seq<u8>| buf@ != pre@ + hex_of(p) + suf@ by {
                    if buf@ == pre@ + hex_of(p) + suf@ {
                        lemma_hex_of_len(p);
                        assert(mid@ =~= hex_of(p));
                    }
                };
            }
            None
        },
    }
}

/// Spec bytes of the framing around each tagged payload.
pub open spec fn spec_obj_end() -> Seq<u8> {
    "\"}".spec_bytes()
}

pub open spec fn spec_pre_authenticate_init() -> Seq<u8> {
    "{\"AuthenticateInit\":\"".spec_bytes()
}

pub open spec fn spec_pre_authenticate_step() -> Seq<u8> {
    "{\"AuthenticateStep\":\"".spec_bytes()
}

pub open spec fn spec_pre_account_by_name() -> Seq<u8> {
    "{\"AccountByName\":\"".spec_bytes()
}

pub open spec fn spec_pre_account_by_numeric_id() -> Seq<u8> {
    "{\"AccountByNumericId\":\"".spec_bytes()
}

pub open spec fn spec_pre_group_by_name() -> Seq<u8> {
    "{\"GroupByName\":\"".spec_bytes()
}

pub open spec fn spec_pre_group_by_numeric_id() -> Seq<u8> {
    "{\"GroupByNumericId\":\"".spec_bytes()
}

pub open spec fn spec_pre_account_authorized() -> Seq<u8> {
    "{\"AccountAuthorized\":\"".spec_bytes()
}

pub open spec fn spec_pre_account_session_begin() -> Seq<u8> {
    "{\"AccountSessionBegin\":\"".spec_bytes()
}

pub open spec fn spec_lit_accounts_enumerate() -> Seq<u8> {
    "\"AccountsEnumerate\"".spec_bytes()
}

pub open spec fn spec_lit_groups_enumerate() -> Seq<u8> {
    "\"GroupsEnumerate\"".spec_bytes()
}

/// The one byte string a request is sent as.
pub open spec fn spec_encode_request(m: ReqV) -> Seq<u8> {
    match m {
        ReqV::AuthenticateInit(x) => spec_pre_authenticate_init() + hex_of(x) + spec_obj_end(),
        ReqV::AuthenticateStep(x) => spec_pre_authenticate_step() + hex_of(x) + spec_obj_end(),
        ReqV::AccountsEnumerate => spec_lit_accounts_enumerate(),
        ReqV::AccountByName(x) => spec_pre_account_by_name() + hex_of(x) + spec_obj_end(),
        ReqV::AccountByNumericId(n) => spec_pre_account_by_numeric_id() + hex_of(u32_be_bytes(n))
            + spec_obj_end(),
        ReqV::GroupsEnumerate => spec_lit_groups_enumerate(),
        ReqV::GroupByName(x) => spec_pre_group_by_name() + hex_of(x) + spec_obj_end(),
        ReqV::GroupByNumericId(n) => spec_pre_group_by_numeric_id() + hex_of(u32_be_bytes(n))
            + spec_obj_end(),
        ReqV::AccountAuthorized(x) => spec_pre_account_authorized() + hex_of(x) + spec_obj_end(),
        ReqV::AccountSessionBegin(x) => spec_pre_account_session_begin() + hex_of(x)
            + spec_obj_end(),
    }
}

/// The one byte string a response is sent as.
pub open spec fn spec_encode_response(m: RespV) -> Seq<u8> {
    match m {
        RespV::Success => "\"Success\"".spec_bytes(),
        RespV::Error => "\"Error\"".spec_bytes(),
        RespV::AuthStepResult(o) => match o {
            OutcomeV::Success => "{\"AuthStepResult\":\"Success\"}".spec_bytes(),
            OutcomeV::Denied => "{\"AuthStepResult\":\"Denied\"}".spec_bytes(),
            OutcomeV::Challenge(c) => "{\"AuthStepResult\":{\"Challenge\":\"".spec_bytes()
                + hex_of(c) + "\"}}".spec_bytes(),
        },
        RespV::Accounts(r) => "{\"Accounts\":\"".spec_bytes() + hex_of(r) + spec_obj_end(),
        RespV::Groups(r) => "{\"Groups\":\"".spec_bytes() + hex_of(r) + spec_obj_end(),
    }
}

/// The leading bytes that identify a request's variant on the wire: the
/// whole literal for a unit variant, the object prefix otherwise.
spec fn wire_tag(m: ReqV) -> Seq<u8> {
    match m {
        ReqV::AuthenticateInit(_) => spec_pre_authenticate_init(),
        ReqV::AuthenticateStep(_) => spec_pre_authenticate_step(),
        ReqV::AccountsEnumerate => spec_lit_accounts_enumerate(),
        ReqV::AccountByName(_) => spec_pre_account_by_name(),
        ReqV::AccountByNumericId(_) => spec_pre_account_by_numeric_id(),
        ReqV::GroupsEnumerate => spec_lit_groups_enumerate(),
        ReqV::GroupByName(_) => spec_pre_group_by_name(),
        ReqV::GroupByNumericId(_) => spec_pre_group_by_numeric_id(),
        ReqV::AccountAuthorized(_) => spec_pre_account_authorized(),
        ReqV::AccountSessionBegin(_) => spec_pre_account_session_begin(),
    }
}

/// What follows the identifying bytes: the payload image and the closing
/// frame, or nothing for a unit variant.
spec fn wire_rest(m: ReqV) -> Seq<u8> {
    match m {
        ReqV::AuthenticateInit(x) => hex_of(x) + spec_obj_end(),
        ReqV::AuthenticateStep(x) => hex_of(x) + spec_obj_end(),
        ReqV::AccountsEnumerate => Seq::empty(),
        ReqV::AccountByName(x) => hex_of(x) + spec_obj_end(),
        ReqV::AccountByNumericId(n) => hex_of(u32_be_bytes(n)) + spec_obj_end(),
        ReqV::GroupsEnumerate => Seq::empty(),
        ReqV::GroupByName(x) => hex_of(x) + spec_obj_end(),
        ReqV::GroupByNumericId(n) => hex_of(u32_be_bytes(n)) + spec_obj_end(),
        ReqV::AccountAuthorized(x) => hex_of(x) + spec_obj_end(),
        ReqV::AccountSessionBegin(x) => hex_of(x) + spec_obj_end(),
    }
}

/// Reveals every wire literal: lengths, and the bytes that tell the ten
/// variants' identifying prefixes apart.
proof fn lemma_wire_literal_facts()
    ensures
        forall|m: ReqV| #[trigger] wire_tag(m).len() >= 15,
        spec_lit_accounts_enumerate()[0] == 34,
        spec_lit_accounts_enumerate()[1] == 65,
        spec_lit_groups_enumerate()[0] == 34,
        spec_lit_groups_enumerate()[1] == 71,
        spec_pre_authenticate_init()[0] == 123,
        spec_pre_authenticate_init()[2] == 65,
        spec_pre_authenticate_init()[3] == 117,
        spec_pre_authenticate_init()[14] == 73,
        spec_pre_authenticate_step()[0] == 123,
        spec_pre_authenticate_step()[2] == 65,
        spec_pre_authenticate_step()[3] == 117,
        spec_pre_authenticate_step()[14] == 83,
        spec_pre_account_by_name()[0] == 123,
        spec_pre_account_by_name()[2] == 65,
        spec_pre_account_by_name()[3] == 99,
        spec_pre_account_by_name()[9] == 66,
        spec_pre_account_by_name()[12] == 97,
        spec_pre_account_by_numeric_id()[0] == 123,
        spec_pre_account_by_numeric_id()[2] == 65,
        spec_pre_account_by_numeric_id()[3] == 99,
        spec_pre_account_by_numeric_id()[9] == 66,
        spec_pre_account_by_numeric_id()[12] == 117,
        spec_pre_group_by_name()[0] == 123,
        spec_pre_group_by_name()[2] == 71,
        spec_pre_group_by_name()[10] == 97,
        spec_pre_group_by_numeric_id()[0] == 123,
        spec_pre_group_by_numeric_id()[2] == 71,
        spec_pre_group_by_numeric_id()[10] == 117,
        spec_pre_account_authorized()[0] == 123,
        spec_pre_account_authorized()[2] == 65,
        spec_pre_account_authorized()[3] == 99,
        spec_pre_account_authorized()[9] == 65,
        spec_pre_account_session_begin()[0] == 123,
        spec_pre_account_session_begin()[2] == 65,
        spec_pre_account_session_begin()[3] == 99,
        spec_pre_account_session_begin()[9] == 83,
{
    reveal_strlit("{\"AuthenticateInit\":\"");
    reveal_strlit("{\"AuthenticateStep\":\"");
    reveal_strlit("{\"AccountByName\":\"");
    reveal_strlit("{\"AccountByNumericId\":\"");
    reveal_strlit("{\"GroupByName\":\"");
    reveal_strlit("{\"GroupByNumericId\":\"");
    reveal_strlit("{\"AccountAuthorized\":\"");
    reveal_strlit("{\"AccountSessionBegin\":\"");
    reveal_strlit("\"AccountsEnumerate\"");
    reveal_strlit("\"GroupsEnumerate\"");
    assert(is_ascii("{\"AuthenticateInit\":\""));
    assert(is_ascii("{\"AuthenticateStep\":\""));
    assert(is_ascii("{\"AccountByName\":\""));
    assert(is_ascii("{\"AccountByNumericId\":\""));
    assert(is_ascii("{\"GroupByName\":\""));
    assert(is_ascii("{\"GroupByNumericId\":\""));
    assert(is_ascii("{\"AccountAuthorized\":\""));
    assert(is_ascii("{\"AccountSessionBegin\":\""));
    assert(is_ascii("\"AccountsEnumerate\""));
    assert(is_ascii("\"GroupsEnumerate\""));
    broadcast use is_ascii_spec_bytes;

    assert forall|m: ReqV| #[trigger] wire_tag(m).len() >= 15 by {
        match m {
            ReqV::AuthenticateInit(_) => assert(wire_tag(m).len() == 21),
            ReqV::AuthenticateStep(_) => assert(wire_tag(m).len() == 21),
            ReqV::AccountsEnumerate => assert(wire_tag(m).len() == 19),
            ReqV::AccountByName(_) => assert(wire_tag(m).len() == 18),
            ReqV::AccountByNumericId(_) => assert(wire_tag(m).len() == 23),
            ReqV::GroupsEnumerate => assert(wire_tag(m).len() == 17),
            ReqV::GroupByName(_) => assert(wire_tag(m).len() == 16),
            ReqV::GroupByNumericId(_) => assert(wire_tag(m).len() == 21),
            ReqV::AccountAuthorized(_) => assert(wire_tag(m).len() == 22),
            ReqV::AccountSessionBegin(_) => assert(wire_tag(m).len() == 24),
        }
    };
}

/// Every encoding is its identifying bytes followed by its rest.
proof fn lemma_wire_shape(m: ReqV)
    ensures
        spec_encode_request(m) == wire_tag(m) + wire_rest(m),
        wire_tag(m).len() >= 15,
{
    lemma_wire_literal_facts();
    assert(spec_encode_request(m) =~= wire_tag(m) + wire_rest(m));
}

/// The numeric-id bytes are unambiguous.
proof fn lemma_u32_be_bytes_injective(n1: u32, n2: u32)
    requires
        u32_be_bytes(n1) == u32_be_bytes(n2),
    ensures
        n1 == n2,
{
    assert(u32_be_bytes(n1)[0] == u32_be_bytes(n2)[0]);
    assert(u32_be_bytes(n1)[1] == u32_be_bytes(n2)[1]);
    assert(u32_be_bytes(n1)[2] == u32_be_bytes(n2)[2]);
    assert(u32_be_bytes(n1)[3] == u32_be_bytes(n2)[3]);
    assert(n1 == n2) by (bit_vector)
        requires
            (n1 >> 24) as u8 == (n2 >> 24) as u8,
            (n1 >> 16) as u8 == (n2 >> 16) as u8,
            (n1 >> 8) as u8 == (n2 >> 8) as u8,
            n1 as u8 == n2 as u8,
    ;
}

/// Law: the wire language is unambiguous.  No byte string is the encoding
/// of two different requests, so whatever `decode` accepts is the one
/// request the peer sent.
pub proof fn lemma_request_encoding_injective(m1: ReqV, m2: ReqV)
    requires
        spec_encode_request(m1) == spec_encode_request(m2),
    ensures
        m1 == m2,
{
    lemma_wire_literal_facts();
    broadcast use is_ascii_spec_bytes;

    lemma_wire_shape(m1);
    lemma_wire_shape(m2);
    assert forall|i: int| 0 <= i < 15 implies wire_tag(m1)[i] == wire_tag(m2)[i] by {
        assert((wire_tag(m1) + wire_rest(m1))[i] == wire_tag(m1)[i]);
        assert((wire_tag(m2) + wire_rest(m2))[i] == wire_tag(m2)[i]);
    };
    assert(wire_tag(m1)[0] == wire_tag(m2)[0]);
    assert(wire_tag(m1)[1] == wire_tag(m2)[1]);
    assert(wire_tag(m1)[2] == wire_tag(m2)[2]);
    assert(wire_tag(m1)[3] == wire_tag(m2)[3]);
    assert(wire_tag(m1)[9] == wire_tag(m2)[9]);
    assert(wire_tag(m1)[10] == wire_tag(m2)[10]);
    assert(wire_tag(m1)[12] == wire_tag(m2)[12]);
    assert(wire_tag(m1)[14] == wire_tag(m2)[14]);
    match m1 {
        ReqV::AuthenticateInit(x1) => {
            assert(m2 is AuthenticateInit);
            lemma_tagged_cancel(
                spec_pre_authenticate_init(),
                hex_of(x1),
                hex_of(m2->AuthenticateInit_0),
                spec_obj_end(),
            );
            lemma_hex_of_injective(x1, m2->AuthenticateInit_0);
        },
        ReqV::AuthenticateStep(x1) => {
            assert(m2 is AuthenticateStep);
            lemma_tagged_cancel(
                spec_pre_authenticate_step(),
                hex_of(x1),
                hex_of(m2->AuthenticateStep_0),
                spec_obj_end(),
            );
            lemma_hex_of_injective(x1, m2->AuthenticateStep_0);
        },
        ReqV::AccountsEnumerate => {
            assert(m2 is AccountsEnumerate);
        },
        ReqV::AccountByName(x1) => {
            assert(m2 is AccountByName);
            lemma_tagged_cancel(
                spec_pre_account_by_name(),
                hex_of(x1),
                hex_of(m2->AccountByName_0),
                spec_obj_end(),
            );
            lemma_hex_of_injective(x1, m2->AccountByName_0);
        },
        ReqV::AccountByNumericId(n1) => {
            assert(m2 is AccountByNumericId);
            lemma_tagged_cancel(
                spec_pre_account_by_numeric_id(),
                hex_of(u32_be_bytes(n1)),
                hex_of(u32_be_bytes(m2->AccountByNumericId_0)),
                spec_obj_end(),
            );
            lemma_hex_of_injective(u32_be_bytes(n1), u32_be_bytes(m2->AccountByNumericId_0));
            lemma_u32_be_bytes_injective(n1, m2->AccountByNumericId_0);
        },
        ReqV::GroupsEnumerate => {
            assert(m2 is GroupsEnumerate);
        },
        ReqV::GroupByName(x1) => {
            assert(m2 is GroupByName);
            lemma_tagged_cancel(
                spec_pre_group_by_name(),
                hex_of(x1),
                hex_of(m2->GroupByName_0),
                spec_obj_end(),
            );
            lemma_hex_of_injective(x1, m2->GroupByName_0);
        },
        ReqV::GroupByNumericId(n1) => {
            assert(m2 is GroupByNumericId);
            lemma_tagged_cancel(
                spec_pre_group_by_numeric_id(),
                hex_of(u32_be_bytes(n1)),
                hex_of(u32_be_bytes(m2->GroupByNumericId_0)),
                spec_obj_end(),
            );
            lemma_hex_of_injective(u32_be_bytes(n1), u32_be_bytes(m2->GroupByNumericId_0));
            lemma_u32_be_bytes_injective(n1, m2->GroupByNumericId_0);
        },
        ReqV::AccountAuthorized(x1) => {
            assert(m2 is AccountAuthorized);
            lemma_tagged_cancel(
                spec_pre_account_authorized(),
                hex_of(x1),
                hex_of(m2->AccountAuthorized_0),
                spec_obj_end(),
            );
            lemma_hex_of_injective(x1, m2->AccountAuthorized_0);
        },
        ReqV::AccountSessionBegin(x1) => {
            assert(m2 is AccountSessionBegin);
            lemma_tagged_cancel(
                spec_pre_account_session_begin(),
                hex_of(x1),
                hex_of(m2->AccountSessionBegin_0),
                spec_obj_end(),
            );
            lemma_hex_of_injective(x1, m2->AccountSessionBegin_0);
        },
    }
}

/// The per-connection protocol codec.
pub struct ClientCodec {}

impl ClientCodec {
    /// A fresh codec for one accepted connection.
    pub fn new() -> (c: ClientCodec) {
        ClientCodec {  }
    }

    /// Attempts to parse the buffered bytes as exactly one complete request.
    ///
    /// On success the entire buffer is consumed and the one request whose
    /// encoding the buffer was is returned — by the unambiguity of the
    /// wire language, no other request encodes to that buffer.  Otherwise
    /// nothing is consumed, and no byte string in the buffer was the
    /// encoding of any request, so it can be retried once more bytes
    /// arrive.
    pub fn decode(&self, src: &mut Vec<u8>) -> (r: Option<Request>)
        ensures
            r matches Some(m) ==> old(src)@ == spec_encode_request(m@) && final(src)@.len() == 0
                && (forall|m2: ReqV| old(src)@ == spec_encode_request(m2) ==> m2 == m@),
            r is None ==> final(src)@ == old(src)@ && (forall|m: ReqV| old(src)@
                != spec_encode_request(m)),
    {
        let r = self.decode_one(src);
        proof {
            if r is Some {
                assert forall|m2: ReqV| old(src)@ == spec_encode_request(m2) implies m2
                    == r->Some_0@ by {
                    lemma_request_encoding_injective(r->Some_0@, m2);
                }
            }
        }
        r
    }

    /// The parse itself: one pass over the closed set of message shapes.
    fn decode_one(&self, src: &mut Vec<u8>) -> (r: Option<Request>)
        ensures
            r matches Some(m) ==> old(src)@ == spec_encode_request(m@) && final(src)@.len()
                == 0,
            r is None ==> final(src)@ == old(src)@ && (forall|m: ReqV| old(src)@
                != spec_encode_request(m)),
    {
        let lit_ae = "\"AccountsEnumerate\"".as_bytes_vec();
        if bytes_eq(&*src, &lit_ae) {
            src.clear();
            return Some(Request::AccountsEnumerate);
        }
        let lit_ge = "\"GroupsEnumerate\"".as_bytes_vec();
        if bytes_eq(&*src, &lit_ge) {
            src.clear();
            return Some(Request::GroupsEnumerate);
        }
        let suf = "\"}".as_bytes_vec();

        let pre_ai = "{\"AuthenticateInit\":\"".as_bytes_vec();
        let r_ai = parse_tagged(&*src, &pre_ai, &suf);
        if let Some(p) = r_ai {
            src.clear();
            return Some(Request::AuthenticateInit(p));
        }
        let pre_as = "{\"AuthenticateStep\":\"".as_bytes_vec();
        let r_as = parse_tagged(&*src, &pre_as, &suf);
        if let Some(p) = r_as {
            src.clear();
            return Some(Request::AuthenticateStep(p));
        }
        let pre_abn = "{\"AccountByName\":\"".as_bytes_vec();
        let r_abn = parse_tagged(&*src, &pre_abn, &suf);
        if let Some(p) = r_abn {
            src.clear();
            return Some(Request::AccountByName(p));
        }
        let pre_gbn = "{\"GroupByName\":\"".as_bytes_vec();
        let r_gbn = parse_tagged(&*src, &pre_gbn, &suf);
        if let Some(p) = r_gbn {
            src.clear();
            return Some(Request::GroupByName(p));
        }
        let pre_aa = "{\"AccountAuthorized\":\"".as_bytes_vec();
        let r_aa = parse_tagged(&*src, &pre_aa, &suf);
        if let Some(p) = r_aa {
            src.clear();
            return Some(Request::AccountAuthorized(p));
        }
        let pre_asb = "{\"AccountSessionBegin\":\"".as_bytes_vec();
        let r_asb = parse_tagged(&*src, &pre_asb, &suf);
        if let Some(p) = r_asb {
            src.clear();
            return Some(Request::AccountSessionBegin(p));
        }

        let pre_abi = "{\"AccountByNumericId\":\"".as_bytes_vec();
        let r_abi = parse_tagged(&*src, &pre_abi, &suf);
        match &r_abi {
            Some(p) => {
                if p.len() == 4 {
                    let idn = u32_from_be_bytes(p);
                    src.clear();
                    return Some(Request::AccountByNumericId(idn));
                }
                proof {
                    assert forall|nn: u32| src@ != spec_encode_request(
                        ReqV::AccountByNumericId(nn),
                    ) by {
                        if src@ == spec_pre_account_by_numeric_id() + hex_of(u32_be_bytes(nn))
                            + spec_obj_end() {
                            lemma_tagged_cancel(
                                spec_pre_account_by_numeric_id(),
                                hex_of(r_abi->Some_0@),
                                hex_of(u32_be_bytes(nn)),
                                spec_obj_end(),
                            );
                            lemma_hex_of_injective(r_abi->Some_0@, u32_be_bytes(nn));
                        }
                    };
                }
            },
            None => {},
        }
        let pre_gbi = "{\"GroupByNumericId\":\"".as_bytes_vec();
        let r_gbi = parse_tagged(&*src, &pre_gbi, &suf);
        match &r_gbi {
            Some(p) => {
                if p.len() == 4 {
                    let idn = u32_from_be_bytes(p);
                    src.clear();
                    return Some(Request::GroupByNumericId(idn));
                }
                proof {
                    assert forall|nn: u32| src@ != spec_encode_request(
                        ReqV::GroupByNumericId(nn),
                    ) by {
                        if src@ == spec_pre_group_by_numeric_id() + hex_of(u32_be_bytes(nn))
                            + spec_obj_end() {
                            lemma_tagged_cancel(
                                spec_pre_group_by_numeric_id(),
                                hex_of(r_gbi->Some_0@),
                                hex_of(u32_be_bytes(nn)),
                                spec_obj_end(),
                            );
                            lemma_hex_of_injective(r_gbi->Some_0@, u32_be_bytes(nn));
                        }
                    };
                }
            },
            None => {},
        }

        proof {
            assert forall|m: ReqV| src@ != spec_encode_request(m) by {
                match m {
                    ReqV::AuthenticateInit(x) => {
                        assert(spec_encode_request(m) == spec_pre_authenticate_init() + hex_of(x)
                            + spec_obj_end());
                    },
                    ReqV::AuthenticateStep(x) => {
                        assert(spec_encode_request(m) == spec_pre_authenticate_step() + hex_of(x)
                            + spec_obj_end());
                    },
                    ReqV::AccountsEnumerate => {},
                    ReqV::AccountByName(x) => {
                        assert(spec_encode_request(m) == spec_pre_account_by_name() + hex_of(x)
                            + spec_obj_end());
                    },
                    ReqV::AccountByNumericId(nn) => {
                        assert(src@ != spec_encode_request(ReqV::AccountByNumericId(nn)));
                    },
                    ReqV::GroupsEnumerate => {},
                    ReqV::GroupByName(x) => {
                        assert(spec_encode_request(m) == spec_pre_group_by_name() + hex_of(x)
                            + spec_obj_end());
                    },
                    ReqV::GroupByNumericId(nn) => {
                        assert(src@ != spec_encode_request(ReqV::GroupByNumericId(nn)));
                    },
                    ReqV::AccountAuthorized(x) => {
                        assert(spec_encode_request(m) == spec_pre_account_authorized() + hex_of(x)
                            + spec_obj_end());
                    },
                    ReqV::AccountSessionBegin(x) => {
                        assert(spec_encode_request(m) == spec_pre_account_session_begin()
                            + hex_of(x) + spec_obj_end());
                    },
                }
            };
        }
        None
    }

    /// Serializes a response and appends its bytes to the outbound buffer.
    ///
    /// Encoding a well-formed response never fails, and the bytes appended
    /// are exactly the encoding that `spec_encode_response` describes.
    pub fn encode(&self, msg: &Response, dst: &mut Vec<u8>)
        ensures
            final(dst)@ == old(dst)@ + spec_encode_response(msg@),
    {
        match msg {
            Response::Success => {
                let lit = "\"Success\"".as_bytes_vec();
                append_bytes(&lit, dst);
            },
            Response::Error => {
                let lit = "\"Error\"".as_bytes_vec();
                append_bytes(&lit, dst);
            },
            Response::AuthStepResult(o) => match o {
                AuthStepOutcome::Success => {
                    let lit = "{\"AuthStepResult\":\"Success\"}".as_bytes_vec();
                    append_bytes(&lit, dst);
                },
                AuthStepOutcome::Denied => {
                    let lit = "{\"AuthStepResult\":\"Denied\"}".as_bytes_vec();
                    append_bytes(&lit, dst);
                },
                AuthStepOutcome::Challenge(c) => {
                    let pre = "{\"AuthStepResult\":{\"Challenge\":\"".as_bytes_vec();
                    append_bytes(&pre, dst);
                    hex_encode_into(c, dst);
                    let suf = "\"}}".as_bytes_vec();
                    append_bytes(&suf, dst);
                    proof {
                        assert(dst@ =~= old(dst)@ + spec_encode_response(msg@));
                    }
                },
            },
            Response::Accounts(r) => {
                let pre = "{\"Accounts\":\"".as_bytes_vec();
                append_bytes(&pre, dst);
                hex_encode_into(r, dst);
                let suf = "\"}".as_bytes_vec();
                append_bytes(&suf, dst);
                proof {
                    assert(dst@ =~= old(dst)@ + spec_encode_response(msg@));
                }
            },
            Response::Groups(r) => {
                let pre = "{\"Groups\":\"".as_bytes_vec();
                append_bytes(&pre, dst);
                hex_encode_into(r, dst);
                let suf = "\"}".as_bytes_vec();
                append_bytes(&suf, dst);
                proof {
                    assert(dst@ =~= old(dst)@ + spec_encode_response(msg@));
                }
            },
        }
    }
}

} // verus!
