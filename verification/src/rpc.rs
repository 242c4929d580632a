use vstd::prelude::*;

use nanorpc::{JrpcRequest, JrpcResponse};

verus! {

/// `nanorpc::JrpcRequest`, a JSON-RPC request, carried through opaque.
#[verifier::external_type_specification]
#[verifier::external_body]
pub struct ExJrpcRequest(nanorpc::JrpcRequest);

/// `nanorpc::JrpcResponse`, a JSON-RPC response, carried through opaque.
#[verifier::external_type_specification]
#[verifier::external_body]
pub struct ExJrpcResponse(nanorpc::JrpcResponse);

/// `serde_json::Error`, the error of reading or writing JSON, carried through opaque.
#[verifier::external_type_specification]
#[verifier::external_body]
pub struct ExJsonError(serde_json::Error);

/// Why a control call failed.
#[derive(Debug)]
pub enum RpcError {
    /// The request could not be written as JSON.
    Encode(serde_json::Error),
    /// The reply was not a JSON-RPC response.
    Decode(serde_json::Error),
    /// The connection failed; the text says how.
    Transport(String),
    /// No reply within the deadline.
    TimedOut,
}

/// The JSON text that `serde_json::to_string` writes for a request: a function
/// of the request alone.
pub uninterp spec fn request_text(req: JrpcRequest) -> Seq<char>;

/// Calls `serde_json::to_string` on a request. It succeeds: the writer is an
/// in-memory buffer, and a request holds only strings, an `i64` or string id,
/// and JSON values, whose maps have string keys and whose non-finite numbers
/// are written as `null`, so none of the serializer's errors (a failed write, a
/// key that is not a string, an error from a `Serialize` impl) can arise. The
/// contract names its text `request_text`. The compact writer puts no line
/// break between tokens and writes a line feed inside a string as the escape
/// `\n`, so the text holds no line feed; nothing more is stated of it.
#[verifier::external_body]
fn request_json(req: &JrpcRequest) -> (r: Result<String, serde_json::Error>)
    ensures
        r is Ok,
        r matches Ok(text) ==> text@ == request_text(*req),
        r matches Ok(text) ==> !text@.contains('\n'),
{
    serde_json::to_string(req)
}

/// Whether `serde_json::from_str` reads the text as a JSON-RPC response: a
/// function of the text alone.
pub uninterp spec fn parses_as_response(text: Seq<char>) -> bool;

/// The response that `serde_json::from_str` reads from a text, where it reads
/// one: a function of the text alone.
pub uninterp spec fn response_of(text: Seq<char>) -> JrpcResponse;

/// Calls `serde_json::from_str` to read a response. The contract names when it
/// succeeds, `parses_as_response`, and what it reads, `response_of`, both
/// functions of the text; nothing more is stated: the JSON grammar and the
/// response's fields take pages to state.
#[verifier::external_body]
fn response_from_json(text: &str) -> (r: Result<JrpcResponse, serde_json::Error>)
    ensures
        r is Ok <==> parses_as_response(text@),
        r matches Ok(resp) ==> resp == response_of(text@),
{
    serde_json::from_str(text)
}

/// A framed request: the JSON text and a line feed.
pub open spec fn framed(json: Seq<char>) -> Seq<char> {
    json.push('\n')
}

/// Frames a JSON text as one line of the line-delimited protocol.
pub fn frame_line(json: &str) -> (line: String)
    ensures
        line@ == framed(json@),
{
    let line = String::from_str(json).concat("\n");
    proof {
        reveal_strlit("\n");
        assert(line@ =~= framed(json@));
    }
    line
}

/// A text with no line feed, framed, is exactly one line: its only line feed
/// is its last character.
pub proof fn law_frame_is_one_line(json: Seq<char>)
    requires
        !json.contains('\n'),
    ensures
        framed(json).last() == '\n',
        forall|i: int| 0 <= i < framed(json).len() - 1 ==> framed(json)[i] != '\n',
        framed(json).drop_last() == json,
{
    assert forall|i: int| 0 <= i < framed(json).len() - 1 implies framed(json)[i] != '\n' by {
        assert(framed(json)[i] == json[i]);
    }
    assert(framed(json).drop_last() =~= json);
}

/// The transport of control calls to the daemon: one JSON-RPC request per
/// line over TCP to 127.0.0.1 on the control port, one response line back.
/// The connection itself is made by the caller.
pub struct DaemonRpcTransport;

impl DaemonRpcTransport {
    /// The line to send for `req`: its JSON text and a line feed, so exactly
    /// one line (see `law_frame_is_one_line`). Writing a request as JSON
    /// does not fail.
    pub fn encode_request(&self, req: &JrpcRequest) -> (r: Result<String, RpcError>)
        ensures
            r is Ok,
            r matches Ok(line) ==> line@ == framed(request_text(*req)),
            r matches Ok(line) ==> !request_text(*req).contains('\n'),
    {
        match request_json(req) {
            Ok(json) => {
                let line = frame_line(json.as_str());
                Ok(line)
            },
            Err(e) => Err(RpcError::Encode(e)),
        }
    }

    /// Reads the response from the line received (trailing line feed and all):
    /// it succeeds exactly when the text reads as a JSON-RPC response, gives
    /// the response read, and a failure is a decoding failure.
    pub fn decode_response(&self, line: &str) -> (r: Result<JrpcResponse, RpcError>)
        ensures
            r is Ok <==> parses_as_response(line@),
            r matches Ok(resp) ==> resp == response_of(line@),
            r matches Err(e) ==> e is Decode,
    {
        match response_from_json(line) {
            Ok(resp) => Ok(resp),
            Err(e) => Err(RpcError::Decode(e)),
        }
    }

    /// The result of a call that ran under the deadline: its own result, or
    /// `TimedOut` when the deadline passed first (`None`).
    pub fn settle<T>(&self, outcome: Option<Result<T, RpcError>>) -> (r: Result<T, RpcError>)
        ensures
            match outcome {
                Some(res) => r == res,
                None => r matches Err(RpcError::TimedOut),
            },
    {
        match outcome {
            Some(res) => res,
            None => Err(RpcError::TimedOut),
        }
    }
}

} // verus!
