//! The response encoder: a pure, total mapping from an outcome to a
//! wire-level response (status, headers, optional body) plus the one side
//! effect this layer asks of its host, an optional operational log record.

use vstd::prelude::*;

use crate::outcome::RouteResult;
use crate::payload::Serializable;
use crate::payload::SerializeError;

verus! {

/// A wire-level response: the status code, the two headers this layer can
/// set, and the optional body.
#[derive(Debug)]
pub struct HttpResponse {
    /// The HTTP status code; only 200, 201, 400, 401, 404 and 500 occur.
    pub status: u16,
    /// The `Location` header, set only for a created resource.
    pub location: Option<String>,
    /// The `Content-Type` header, set exactly when a body is present.
    pub content_type: Option<String>,
    /// The response body.
    pub body: Option<String>,
}

/// One operational log record, produced only for a server-signaled failure.
/// Writing it somewhere is the host's concern, and best-effort.
#[derive(Debug)]
pub struct LogRecord {
    /// The failure's message.
    pub message: String,
    /// The captured call stack, or an explicit marker that none exists.
    pub trace: String,
}

/// The encoder's whole result: the response to send and the log record to
/// write, if any.
#[derive(Debug)]
pub struct Encoded {
    /// The wire-level response.
    pub response: HttpResponse,
    /// The log record asked of the host.
    pub log: Option<LogRecord>,
}

/// The status code each variant maps to.
pub open spec fn variant_status<T: Serializable>(o: RouteResult<T>) -> u16 {
    match o {
        RouteResult::Success(_) => 200,
        RouteResult::Created(_, _) => 201,
        RouteResult::NotFound => 404,
        RouteResult::BadRequest(_) => 400,
        RouteResult::Forbidden => 401,
        RouteResult::InternalError(_) => 500,
    }
}

/// What the encoder will try to put in the body: `None` when the variant
/// sends no body at all, `Some(w)` when it serializes a payload and `w` is
/// that serialization's outcome.
pub open spec fn body_plan<T: Serializable>(o: RouteResult<T>) -> Option<
    Result<Seq<char>, Seq<char>>,
> {
    match o {
        RouteResult::Success(p) => if T::spec_omits_body() {
            None
        } else {
            Some(p.wire_form())
        },
        RouteResult::Created(p, _) => Some(p.wire_form()),
        RouteResult::BadRequest(d) => match d {
            Some(p) => Some(p.wire_form()),
            None => None,
        },
        _ => None,
    }
}

/// Whether a payload the variant wants to send fails to serialize; the
/// encoder must not emit a malformed body, so it reports a logged internal
/// failure instead.
pub open spec fn encoding_fails<T: Serializable>(o: RouteResult<T>) -> bool {
    body_plan(o) matches Some(w) && w is Err
}

/// The serializer's message when a payload the variant wants to send fails
/// to serialize.
pub open spec fn encoding_failure_message<T: Serializable>(o: RouteResult<T>) -> Seq<char>
    recommends
        encoding_fails(o),
{
    match body_plan(o) {
        Some(w) => match w {
            Err(m) => m,
            Ok(_) => Seq::empty(),
        },
        None => Seq::empty(),
    }
}

/// The status of the encoded response.
pub open spec fn response_status<T: Serializable>(o: RouteResult<T>) -> u16 {
    if encoding_fails(o) {
        500
    } else {
        variant_status(o)
    }
}

/// The body of the encoded response.
pub open spec fn response_body<T: Serializable>(o: RouteResult<T>) -> Option<Seq<char>> {
    if encoding_fails(o) {
        None
    } else {
        match body_plan(o) {
            Some(w) => match w {
                Ok(s) => Some(s),
                Err(_) => None,
            },
            None => None,
        }
    }
}

/// The `Location` header of the encoded response.
pub open spec fn response_location<T: Serializable>(o: RouteResult<T>) -> Option<Seq<char>> {
    match o {
        RouteResult::Created(_, loc) => if encoding_fails(o) {
            None
        } else {
            Some(loc@)
        },
        _ => None,
    }
}

/// The log record the encoder asks the host to write: the failure's message
/// paired with the captured call stack or the explicit no-trace marker. A
/// payload that fails to serialize is a server-signaled failure too, so it
/// is logged like one, under the serializer's message.
pub open spec fn response_log<T: Serializable>(o: RouteResult<T>) -> Option<(Seq<char>, Seq<char>)> {
    if encoding_fails(o) {
        Some((encoding_failure_message(o), "No backtrace available"@))
    } else {
        match o {
            RouteResult::InternalError(c) => Some(
                (
                    c.message@,
                    match c.trace {
                        Some(t) => t@,
                        None => "No backtrace available"@,
                    },
                ),
            ),
            _ => None,
        }
    }
}

/// An encoded response with the given status and nothing else: no headers,
/// no body, no log record.
fn bare(status: u16) -> (r: Encoded)
    ensures
        r.response.status == status,
        r.response.location is None,
        r.response.content_type is None,
        r.response.body is None,
        r.log is None,
{
    Encoded {
        response: HttpResponse { status, location: None, content_type: None, body: None },
        log: None,
    }
}

/// The report of a payload that failed to serialize: the same bare 500 as a
/// server-signaled failure, plus exactly one log record carrying the
/// serializer's message and the no-trace marker.
fn encoding_failure(e: SerializeError) -> (r: Encoded)
    ensures
        r.response.status == 500,
        r.response.location is None,
        r.response.content_type is None,
        r.response.body is None,
        r.log matches Some(lr) && lr.message == e.message && lr.trace@ == "No backtrace available"@,
{
    Encoded {
        response: HttpResponse { status: 500, location: None, content_type: None, body: None },
        log: Some(LogRecord { message: e.message, trace: "No backtrace available".to_owned() }),
    }
}

/// The canonical media type of the wire format.
fn json_media_type() -> (r: String)
    ensures
        r@ == "application/json"@,
{
    "application/json".to_owned()
}

impl<T: Serializable> RouteResult<T> {
    /// Encode this outcome as a wire response plus an optional log record.
    /// The mapping is total: a payload that fails to serialize is reported
    /// as a logged 500 rather than a malformed body, and a server-signaled
    /// failure yields exactly one log record and an empty 500 response.
    pub fn encode(self) -> (r: Encoded)
        ensures
            r.response.status == response_status(self),
            (match response_body(self) {
                Some(s) => r.response.body matches Some(b) && b@ == s,
                None => r.response.body is None,
            }),
            (match response_location(self) {
                Some(l) => r.response.location matches Some(x) && x@ == l,
                None => r.response.location is None,
            }),
            (match response_body(self) {
                Some(_) => r.response.content_type matches Some(c) && c@ == "application/json"@,
                None => r.response.content_type is None,
            }),
            (match response_log(self) {
                Some(rec) => r.log matches Some(lr) && lr.message@ == rec.0 && lr.trace@ == rec.1,
                None => r.log is None,
            }),
    {
        match self {
            RouteResult::Success(p) => {
                if T::omits_body() {
                    bare(200)
                } else {
                    match p.serialize_json() {
                        Ok(text) => Encoded {
                            response: HttpResponse {
                                status: 200,
                                location: None,
                                content_type: Some(json_media_type()),
                                body: Some(text),
                            },
                            log: None,
                        },
                        Err(e) => encoding_failure(e),
                    }
                }
            },
            RouteResult::Created(p, loc) => {
                match p.serialize_json() {
                    Ok(text) => Encoded {
                        response: HttpResponse {
                            status: 201,
                            location: Some(loc),
                            content_type: Some(json_media_type()),
                            body: Some(text),
                        },
                        log: None,
                    },
                    Err(e) => encoding_failure(e),
                }
            },
            RouteResult::NotFound => bare(404),
            RouteResult::BadRequest(d) => {
                match d {
                    Some(p) => {
                        match p.serialize_json() {
                            Ok(text) => Encoded {
                                response: HttpResponse {
                                    status: 400,
                                    location: None,
                                    content_type: Some(json_media_type()),
                                    body: Some(text),
                                },
                                log: None,
                            },
                            Err(e) => encoding_failure(e),
                        }
                    },
                    None => bare(400),
                }
            },
            RouteResult::Forbidden => bare(401),
            RouteResult::InternalError(c) => {
                let trace = match c.trace {
                    Some(t) => t,
                    None => "No backtrace available".to_owned(),
                };
                Encoded {
                    response: HttpResponse {
                        status: 500,
                        location: None,
                        content_type: None,
                        body: None,
                    },
                    log: Some(LogRecord { message: c.message, trace }),
                }
            },
        }
    }
}

} // verus!
