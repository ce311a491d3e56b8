//! Structured protocol messages: encoding requests and notifications,
//! and classifying decoded payloads.

use vstd::prelude::*;

use crate::args::{ArgValue, Args};
use crate::errors::ErrorKind;
use crate::framing;
use crate::wire;

verus! {

/// The JSON object text of an argument map, built up binding by binding.
pub open spec fn obj_of(pairs: Seq<(String, ArgValue)>) -> Seq<char>
    decreases pairs.len(),
{
    if pairs.len() == 0 {
        "{}"@
    } else {
        let rest = obj_of(pairs.drop_last());
        match pairs.last().1 {
            ArgValue::Text(s) => wire::obj_with_text(rest, pairs.last().0@, s@),
            ArgValue::Nat(n) => wire::obj_with_nat(rest, pairs.last().0@, n),
            ArgValue::Flag(b) => wire::obj_with_flag(rest, pairs.last().0@, b),
            ArgValue::List(xs) => wire::obj_with_list(rest, pairs.last().0@, xs.deep_view()),
        }
    }
}

/// Renders an argument map as JSON object text.
pub fn params_json(args: &Args) -> (r: String)
    ensures
        r@ == obj_of(args.pairs@),
{
    let mut out: String = "{}".to_owned();
    let n: usize = args.pairs.len();
    let mut i: usize = 0;
    proof {
        assert(args.pairs@.take(0) =~= Seq::<(String, ArgValue)>::empty());
    }
    while i < n
        invariant
            n == args.pairs@.len(),
            i <= n,
            out@ == obj_of(args.pairs@.take(i as int)),
        decreases n - i,
    {
        proof {
            assert(args.pairs@.take(i as int + 1).drop_last() =~= args.pairs@.take(i as int));
            assert(args.pairs@.take(i as int + 1).last() == args.pairs@[i as int]);
        }
        let pair = &args.pairs[i];
        out = match &pair.1 {
            ArgValue::Text(s) => wire::obj_insert_text(out.as_str(), pair.0.as_str(), s.as_str()),
            ArgValue::Nat(v) => wire::obj_insert_nat(out.as_str(), pair.0.as_str(), *v),
            ArgValue::Flag(b) => wire::obj_insert_flag(out.as_str(), pair.0.as_str(), *b),
            ArgValue::List(xs) => wire::obj_insert_list(out.as_str(), pair.0.as_str(), xs),
        };
        i = i + 1;
    }
    proof {
        assert(args.pairs@.take(n as int) =~= args.pairs@);
    }
    out
}

/// The frame that carries a request with the given identifier, method and
/// parameter object text.
pub open spec fn request_frame_of(id: u64, method: Seq<char>, params: Seq<char>) -> Seq<u8> {
    framing::frame_of(wire::request_payload(id, method, params))
}

/// The frame that carries a notification with the given method and
/// parameter object text.
pub open spec fn note_frame_of(method: Seq<char>, params: Seq<char>) -> Seq<u8> {
    framing::frame_of(wire::note_payload(method, params))
}

/// Encodes one request as a complete frame.
pub fn encode_request(id: u64, method: &str, args: &Args) -> (r: Vec<u8>)
    ensures
        r@ == request_frame_of(id, method@, obj_of(args.pairs@)),
{
    let p = params_json(args);
    let payload = wire::request_payload_bytes(id, method, p.as_str());
    framing::encode_frame(&payload)
}

/// Encodes one notification as a complete frame.
pub fn encode_note(method: &str, args: &Args) -> (r: Vec<u8>)
    ensures
        r@ == note_frame_of(method@, obj_of(args.pairs@)),
{
    let p = params_json(args);
    let payload = wire::note_payload_bytes(method, p.as_str());
    framing::encode_frame(&payload)
}

/// What one decoded response carried: a result, or a reported error.
#[derive(Debug)]
pub enum ResponseOutcome {
    /// The result member, as JSON text.
    Success { result: String },
    /// The error member, as code and message.
    Failure { code: i64, message: String },
}

/// One decoded incoming payload.
#[derive(Debug)]
pub enum Message {
    /// A reply to a request this side sent.
    Response { id: u64, outcome: ResponseOutcome },
    /// A request from the process itself; it expects a reply.
    Incoming { id: u64, method: String },
    /// An unsolicited notification, such as a diagnostics update.
    Note { method: String, params: String },
}

/// Classifies one payload: a response carries an identifier and a result
/// or error and no method, an incoming request carries both identifier
/// and method, a notification carries a method alone. Anything else is
/// malformed. A reported error takes precedence over a result member.
pub fn decode_payload(payload: &Vec<u8>) -> (r: Result<Message, ErrorKind>)
    ensures
        ({
            let id = wire::wire_id(payload@);
            let me = wire::wire_method(payload@);
            let res = wire::wire_result(payload@);
            let err = wire::wire_error(payload@);
            let pa = wire::wire_params(payload@);
            match r {
                Ok(Message::Response { id: rid, outcome }) => {
                    &&& id == Some(rid)
                    &&& me is None
                    &&& match outcome {
                        ResponseOutcome::Failure { code, message } => err matches Some(e) && e.0
                            == code && e.1 == message@,
                        ResponseOutcome::Success { result } => err is None && res == Some(result@),
                    }
                },
                Ok(Message::Incoming { id: rid, method }) => id == Some(rid) && me == Some(method@),
                Ok(Message::Note { method, params }) => {
                    &&& id is None
                    &&& me == Some(method@)
                    &&& match pa {
                        Some(s) => params@ == s,
                        None => params@ == "{}"@,
                    }
                },
                Err(k) => {
                    &&& k == ErrorKind::MalformedMessage
                    &&& (me is None)
                    &&& (id is None || (res is None && err is None))
                },
            }
        }),
{
    let id = wire::wire_id_of(payload);
    let me = wire::wire_method_of(payload);
    match (id, me) {
        (Some(i), None) => {
            if let Some(e) = wire::wire_error_of(payload) {
                Ok(
                    Message::Response {
                        id: i,
                        outcome: ResponseOutcome::Failure { code: e.0, message: e.1 },
                    },
                )
            } else if let Some(res) = wire::wire_result_of(payload) {
                Ok(Message::Response { id: i, outcome: ResponseOutcome::Success { result: res } })
            } else {
                Err(ErrorKind::MalformedMessage)
            }
        },
        (Some(i), Some(m)) => Ok(Message::Incoming { id: i, method: m }),
        (None, Some(m)) => {
            let params = match wire::wire_params_of(payload) {
                Some(s) => s,
                None => "{}".to_owned(),
            };
            Ok(Message::Note { method: m, params })
        },
        (None, None) => Err(ErrorKind::MalformedMessage),
    }
}

} // verus!
