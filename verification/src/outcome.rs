//! The outcome type itself and the propagation adapter that lets handler
//! code chain fallible sub-operations with short-circuit semantics.

use vstd::prelude::*;

use crate::payload::JsonPayload;
use crate::payload::Serializable;

verus! {

/// The cause carried by a server-signaled failure: a human-readable message
/// and, when one was captured, the text of the call stack at the failure.
#[derive(Debug, Clone)]
pub struct FailureCause {
    /// The failure's message, always present.
    pub message: String,
    /// The captured call stack, when the host recorded one.
    pub trace: Option<String>,
}

impl FailureCause {
    /// A cause with the given message and no captured call stack.
    pub fn new(message: String) -> (r: FailureCause)
        ensures
            r.message == message,
            r.trace is None,
    {
        FailureCause { message, trace: None }
    }
}

/// Every route in a project can return this: a `Result` with a variant for
/// each of the most common HTTP status codes. To send no response body, use
/// `RouteResult<NoBody>`.
#[derive(Debug)]
pub enum RouteResult<T: Serializable> {
    /// 200 OK; sends the payload in the response body.
    Success(T),
    /// 201 Created; sends the payload in the response body and the given
    /// location, an opaque URI string, in the `Location` header.
    Created(T, String),
    /// 404 Not Found.
    NotFound,
    /// 400 Bad Request; the optional diagnostic payload is serialized into
    /// the response body to supply details to the client.
    BadRequest(Option<JsonPayload>),
    /// 401 Unauthorized.
    Forbidden,
    /// 500 Internal Server Error; the cause is logged, never sent to the
    /// client.
    InternalError(FailureCause),
}

/// What chaining guarantees when the first step did not succeed: the failure
/// passes through to the chained outcome unchanged, so the final encoding
/// keeps the original status.
pub open spec fn aborts_to<T: Serializable, U: Serializable>(
    o: RouteResult<T>,
    r: RouteResult<U>,
) -> bool {
    &&& (o is NotFound ==> r is NotFound)
    &&& (o matches RouteResult::BadRequest(d) ==> r == RouteResult::<U>::BadRequest(d))
    &&& (o is Forbidden ==> r is Forbidden)
    &&& (o matches RouteResult::InternalError(c) ==> r == RouteResult::<U>::InternalError(c))
}

impl<T: Serializable> RouteResult<T> {
    /// Forward half of the short-circuit protocol: successes unwrap to their
    /// payload (a created resource drops its location, which only matters at
    /// the final encoding step), failures abort with a `FailureCause`. The
    /// client-signaled variants collapse to fixed messages — a diagnostic
    /// payload is dropped in this direction — while a server-signaled
    /// failure keeps its cause.
    pub fn into_result(self) -> (r: Result<Option<T>, FailureCause>)
        ensures
            self matches RouteResult::Success(x) ==> r == Ok::<Option<T>, FailureCause>(Some(x)),
            self matches RouteResult::Created(x, _) ==> r == Ok::<Option<T>, FailureCause>(
                Some(x),
            ),
            self is NotFound ==> (r matches Err(e) && e.message@ == "Not found"@ && e.trace
                is None),
            self is BadRequest ==> (r matches Err(e) && e.message@ == "Bad request"@ && e.trace
                is None),
            self is Forbidden ==> (r matches Err(e) && e.message@ == "Forbidden"@ && e.trace
                is None),
            self matches RouteResult::InternalError(c) ==> r == Err::<Option<T>, FailureCause>(c),
    {
        match self {
            RouteResult::Success(x) => Ok(Some(x)),
            RouteResult::Created(x, _) => Ok(Some(x)),
            RouteResult::NotFound => Err(FailureCause::new("Not found".to_owned())),
            RouteResult::BadRequest(_) => Err(FailureCause::new("Bad request".to_owned())),
            RouteResult::Forbidden => Err(FailureCause::new("Forbidden".to_owned())),
            RouteResult::InternalError(c) => Err(c),
        }
    }

    /// Reverse half of the short-circuit protocol, for an aborted chain:
    /// every abort becomes a server-signaled failure. Deliberately
    /// asymmetric with `into_result`: which client-signaled variant caused
    /// the abort is not reconstructed here.
    pub fn from_error(e: FailureCause) -> (r: RouteResult<T>)
        ensures
            r == RouteResult::<T>::InternalError(e),
    {
        RouteResult::InternalError(e)
    }

    /// Reverse half of the short-circuit protocol, for a completed chain: a
    /// present payload is a success, an absent one is a missing resource.
    pub fn from_ok(v: Option<T>) -> (r: RouteResult<T>)
        ensures
            v matches Some(x) ==> r == RouteResult::<T>::Success(x),
            v is None ==> r is NotFound,
    {
        match v {
            Some(x) => RouteResult::Success(x),
            None => RouteResult::NotFound,
        }
    }

    /// Chain a dependent sub-operation: a success (with or without a
    /// creation location) feeds its payload to `op`, and any failure
    /// short-circuits past `op` unchanged.
    pub fn and_then<U: Serializable, F: FnOnce(T) -> RouteResult<U>>(self, op: F) -> (r:
        RouteResult<U>)
        requires
            self matches RouteResult::Success(x) ==> call_requires(op, (x,)),
            self matches RouteResult::Created(x, _) ==> call_requires(op, (x,)),
        ensures
            self matches RouteResult::Success(x) ==> call_ensures(op, (x,), r),
            self matches RouteResult::Created(x, _) ==> call_ensures(op, (x,), r),
            aborts_to(self, r),
    {
        match self {
            RouteResult::Success(x) => op(x),
            RouteResult::Created(x, _) => op(x),
            RouteResult::NotFound => RouteResult::NotFound,
            RouteResult::BadRequest(d) => RouteResult::BadRequest(d),
            RouteResult::Forbidden => RouteResult::Forbidden,
            RouteResult::InternalError(c) => RouteResult::InternalError(c),
        }
    }
}

impl<T: Serializable> From<Result<Option<T>, FailureCause>> for RouteResult<T> {
    /// Boundary adapter from a service-layer result: an operational error
    /// becomes a server-signaled failure, a found value a success, an
    /// absent value a missing resource.
    fn from(result: Result<Option<T>, FailureCause>) -> (r: RouteResult<T>) {
        match result {
            Ok(Some(payload)) => RouteResult::Success(payload),
            Ok(None) => RouteResult::NotFound,
            Err(e) => RouteResult::InternalError(e),
        }
    }
}

impl<T: Serializable> vstd::std_specs::convert::FromSpecImpl<Result<Option<T>, FailureCause>> for RouteResult<T> {
    open spec fn obeys_from_spec() -> bool {
        true
    }

    open spec fn from_spec(v: Result<Option<T>, FailureCause>) -> RouteResult<T> {
        match v {
            Ok(Some(payload)) => RouteResult::Success(payload),
            Ok(None) => RouteResult::NotFound,
            Err(e) => RouteResult::InternalError(e),
        }
    }
}

} // verus!
