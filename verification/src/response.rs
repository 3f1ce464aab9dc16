//! What a worker answers: a JSON object with a status, a content type, a body
//! and a wish to be restarted, each of which may be missing.

use vstd::prelude::*;
use vstd::slice::slice_to_vec;

use crate::error::{ErrorModel, WorkerError};
use crate::frame::Frame;
use crate::json::{
    json_error_text, value_as_bool, value_as_str, value_as_u64, value_from_slice, value_get,
    value_to_vec, Json,
};

verus! {

/// A worker's answer to a request.
#[derive(Debug)]
pub struct WorkerResponse {
    pub http_status: u16,
    pub content_type: String,
    pub body: Vec<u8>,
    pub restart_worker: bool,
}

/// A [`WorkerResponse`] with its text and its body as sequences.
pub struct ResponseModel {
    pub http_status: u16,
    pub content_type: Seq<char>,
    pub body: Seq<u8>,
    pub restart_worker: bool,
}

impl View for WorkerResponse {
    type V = ResponseModel;

    open spec fn view(&self) -> ResponseModel {
        ResponseModel {
            http_status: self.http_status,
            content_type: self.content_type@,
            body: self.body@,
            restart_worker: self.restart_worker,
        }
    }
}

/// The body of an answer, as it was found.
#[derive(Debug)]
pub enum ReplyBody {
    /// There is none.
    Missing,
    /// A string.
    Text(String),
    /// Any other value, as JSON.
    Encoded(Vec<u8>),
    /// A value that could not be written as JSON.
    Unencodable,
}

/// A [`ReplyBody`] with its text or its bytes as a sequence.
pub enum ReplyBodyModel {
    Missing,
    Text(Seq<char>),
    Encoded(Seq<u8>),
    Unencodable,
}

impl View for ReplyBody {
    type V = ReplyBodyModel;

    open spec fn view(&self) -> ReplyBodyModel {
        match self {
            ReplyBody::Missing => ReplyBodyModel::Missing,
            ReplyBody::Text(s) => ReplyBodyModel::Text(s@),
            ReplyBody::Encoded(b) => ReplyBodyModel::Encoded(b@),
            ReplyBody::Unencodable => ReplyBodyModel::Unencodable,
        }
    }
}

/// The members of an answer that the supervisor reads, each where it is there
/// and of the type that it should have.
#[derive(Debug)]
pub struct Reply {
    pub http_status: Option<u64>,
    pub content_type: Option<String>,
    pub restart_worker: Option<bool>,
    pub body: ReplyBody,
}

/// A [`Reply`] with its text and its body as sequences.
pub struct ReplyModel {
    pub http_status: Option<u64>,
    pub content_type: Option<Seq<char>>,
    pub restart_worker: Option<bool>,
    pub body: ReplyBodyModel,
}

impl View for Reply {
    type V = ReplyModel;

    open spec fn view(&self) -> ReplyModel {
        ReplyModel {
            http_status: self.http_status,
            content_type: match self.content_type {
                Some(s) => Some(s@),
                None => None,
            },
            restart_worker: self.restart_worker,
            body: self.body@,
        }
    }
}

/// The members that the supervisor reads in a JSON value.
pub open spec fn reply_of(tree: Json) -> ReplyModel {
    ReplyModel {
        http_status: match tree.member("http_status"@) {
            Some(Json::Unsigned(n)) => Some(n),
            _ => None,
        },
        content_type: match tree.member("content_type"@) {
            Some(Json::Text(s)) => Some(s),
            _ => None,
        },
        restart_worker: match tree.member("restart_worker"@) {
            Some(Json::Bool(b)) => Some(b),
            _ => None,
        },
        body: match tree.member("body"@) {
            Some(Json::Text(s)) => ReplyBodyModel::Text(s),
            Some(other) => ReplyBodyModel::Encoded(crate::json::json_encode(other)),
            None => ReplyBodyModel::Missing,
        },
    }
}

/// The response that a reply stands for: a bad gateway in JSON, with an empty
/// body and no wish to be restarted, as far as the reply does not say
/// otherwise. Of the status the low sixteen bits count.
pub open spec fn response_of(reply: ReplyModel) -> ResponseModel {
    ResponseModel {
        http_status: match reply.http_status {
            Some(n) => (n % 0x1_0000) as u16,
            None => 502,
        },
        content_type: match reply.content_type {
            Some(s) => s,
            None => "application/json"@,
        },
        restart_worker: match reply.restart_worker {
            Some(b) => b,
            None => false,
        },
        body: match reply.body {
            ReplyBodyModel::Missing => Seq::empty(),
            ReplyBodyModel::Text(s) => vstd::utf8::encode_utf8(s),
            ReplyBodyModel::Encoded(b) => b,
            ReplyBodyModel::Unencodable => vstd::utf8::encode_utf8(
                "{\"error\":\"invalid_worker_body\"}"@,
            ),
        },
    }
}

/// What a payload amounts to as an answer: a response, or the error of a
/// payload that is no JSON.
pub open spec fn payload_response(payload: Seq<u8>) -> Result<ResponseModel, ErrorModel> {
    match crate::json::json_parse(payload) {
        Ok(tree) => Ok(response_of(reply_of(tree))),
        Err(message) => Err(ErrorModel::Protocol(message)),
    }
}

fn utf8_bytes(s: &str) -> (r: Vec<u8>)
    ensures
        r@ == vstd::utf8::encode_utf8(s@),
{
    slice_to_vec(s.as_bytes())
}

/// The members that the supervisor reads in a JSON value.
pub fn read_reply(v: &serde_json::Value) -> (r: Reply)
    ensures
        r@ == reply_of(crate::json::json_tree(*v)),
{
    let http_status: Option<u64> = match value_get(v, "http_status") {
        Some(m) => value_as_u64(m),
        None => None,
    };
    let content_type: Option<String> = match value_get(v, "content_type") {
        Some(m) => match value_as_str(m) {
            Some(s) => Some(s.to_string()),
            None => None,
        },
        None => None,
    };
    let restart_worker: Option<bool> = match value_get(v, "restart_worker") {
        Some(m) => value_as_bool(m),
        None => None,
    };
    let body = match value_get(v, "body") {
        Some(m) => match value_as_str(m) {
            Some(s) => ReplyBody::Text(s.to_string()),
            None => match value_to_vec(m) {
                Ok(b) => ReplyBody::Encoded(b),
                Err(_) => ReplyBody::Unencodable,
            },
        },
        None => ReplyBody::Missing,
    };
    Reply { http_status, content_type, restart_worker, body }
}

/// The response that a reply stands for.
pub fn worker_response(reply: Reply) -> (r: WorkerResponse)
    ensures
        r@ == response_of(reply@),
{
    let http_status: u16 = match reply.http_status {
        Some(n) => {
            assert(#[verifier::truncate] (n as u16) == n % 0x1_0000u64) by (bit_vector);
            #[verifier::truncate]
            (n as u16)
        },
        None => 502,
    };
    let content_type = match reply.content_type {
        Some(s) => s,
        None => "application/json".to_string(),
    };
    let restart_worker: bool = match reply.restart_worker {
        Some(b) => b,
        None => false,
    };
    let body: Vec<u8> = match reply.body {
        ReplyBody::Missing => Vec::new(),
        ReplyBody::Text(s) => utf8_bytes(s.as_str()),
        ReplyBody::Encoded(b) => b,
        ReplyBody::Unencodable => utf8_bytes("{\"error\":\"invalid_worker_body\"}"),
    };
    WorkerResponse { http_status, content_type, body, restart_worker }
}

/// The response in a worker's frame.
pub fn parse_worker_response(frame: Frame) -> (r: Result<WorkerResponse, WorkerError>)
    ensures
        match r {
            Ok(response) => payload_response(frame@.payload) == Ok::<ResponseModel, ErrorModel>(
                response@,
            ),
            Err(e) => payload_response(frame@.payload) == Err::<ResponseModel, ErrorModel>(e@),
        },
{
    match value_from_slice(frame.payload.as_slice()) {
        Ok(v) => Ok(worker_response(read_reply(&v))),
        Err(e) => Err(WorkerError::Protocol(json_error_text(&e))),
    }
}

/// A payload that is no JSON is an error, with the text of what is wrong with
/// it; any other is a response.
pub proof fn law_payload_must_be_json(payload: Seq<u8>)
    ensures
        crate::json::json_parse(payload) matches Err(message) ==> payload_response(payload)
            == Err::<ResponseModel, ErrorModel>(ErrorModel::Protocol(message)),
        crate::json::json_parse(payload) is Ok ==> payload_response(payload) is Ok,
{
}

/// A member of an object is what the object has under its name. A value that is
/// no object has no members.
pub proof fn law_members(tree: Json, key: Seq<char>)
    ensures
        match tree {
            Json::Object(m) => {
                &&& m.contains_key(key) ==> tree.member(key) == Some(m[key])
                &&& !m.contains_key(key) ==> tree.member(key) is None
            },
            _ => tree.member(key) is None,
        },
{
}

/// The body of a response is the string that the payload has as its body, as
/// UTF-8 and as it stands, whatever else the payload says. A body that is
/// something else is written as JSON, and where there is none the body is empty.
pub proof fn law_response_body(payload: Seq<u8>, tree: Json)
    requires
        crate::json::json_parse(payload) == Ok::<Json, Seq<char>>(tree),
    ensures
        ({
            let body = payload_response(payload)->Ok_0.body;
            &&& tree.member("body"@) is None ==> body == Seq::<u8>::empty()
            &&& tree.member("body"@) matches Some(v) ==> {
                &&& v matches Json::Text(s) ==> body == vstd::utf8::encode_utf8(s)
                    && vstd::utf8::valid_utf8(body) && vstd::utf8::decode_utf8(body) == s
                &&& v !is Text ==> body == crate::json::json_encode(v)
            }
        }),
{
    if let Some(Json::Text(s)) = tree.member("body"@) {
        vstd::utf8::encode_utf8_valid_utf8(s);
        vstd::utf8::encode_utf8_decode_utf8(s);
    }
}

/// The status of a response is the number that the payload has as its status, of
/// which the low sixteen bits count; the content type is the string that it has
/// as its content type; and a restart is wished for where it says so. What is
/// missing, or of another type, is a bad gateway, JSON, and no such wish.
pub proof fn law_response_head(payload: Seq<u8>, tree: Json)
    requires
        crate::json::json_parse(payload) == Ok::<Json, Seq<char>>(tree),
    ensures
        ({
            let response = payload_response(payload)->Ok_0;
            let status = tree.member("http_status"@);
            let content_type = tree.member("content_type"@);
            let restart = tree.member("restart_worker"@);
            &&& status is Some && status->0 is Unsigned ==> response.http_status
                == status->0->Unsigned_0 % 0x1_0000
            &&& !(status is Some && status->0 is Unsigned) ==> response.http_status == 502
            &&& content_type is Some && content_type->0 is Text ==> response.content_type
                == content_type->0->Text_0
            &&& !(content_type is Some && content_type->0 is Text) ==> response.content_type
                == "application/json"@
            &&& response.restart_worker <==> restart == Some(Json::Bool(true))
        }),
{
}

/// What is read of a payload stands in the response as it was read, and what was
/// not found there has its default.
pub proof fn law_reply_stands(reply: ReplyModel)
    ensures
        ({
            let r = response_of(reply);
            &&& reply.http_status matches Some(n) ==> r.http_status == n % 0x1_0000
            &&& reply.http_status is None ==> r.http_status == 502
            &&& reply.content_type matches Some(s) ==> r.content_type == s
            &&& reply.content_type is None ==> r.content_type == "application/json"@
            &&& r.restart_worker <==> reply.restart_worker == Some(true)
            &&& reply.body is Missing ==> r.body == Seq::<u8>::empty()
            &&& reply.body matches ReplyBodyModel::Text(s) ==> r.body == vstd::utf8::encode_utf8(s)
            &&& reply.body matches ReplyBodyModel::Encoded(b) ==> r.body == b
            &&& reply.body is Unencodable ==> r.body == vstd::utf8::encode_utf8(
                "{\"error\":\"invalid_worker_body\"}"@,
            )
        }),
{
}

/// A body that is a string is valid UTF-8, and reads as that string: so does
/// the error of a refusal with such a body.
pub proof fn law_text_body_reads_back(reply: ReplyModel, s: Seq<char>)
    requires
        reply.body == ReplyBodyModel::Text(s),
    ensures
        vstd::utf8::valid_utf8(response_of(reply).body),
        vstd::utf8::decode_utf8(response_of(reply).body) == s,
{
    vstd::utf8::encode_utf8_valid_utf8(s);
    vstd::utf8::encode_utf8_decode_utf8(s);
}

} // verus!
