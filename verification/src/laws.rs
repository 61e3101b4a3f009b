//! The algebra's laws, stated over the encoder's specification functions and
//! proved once for all payload types and values.

use vstd::prelude::*;

use crate::outcome::FailureCause;
use crate::outcome::RouteResult;
use crate::outcome::aborts_to;
use crate::payload::JsonPayload;
use crate::payload::Serializable;
use crate::response::encoding_failure_message;
use crate::response::encoding_fails;
use crate::response::response_body;
use crate::response::response_location;
use crate::response::response_log;
use crate::response::response_status;
use vstd::std_specs::convert::FromSpec;

verus! {

/// Two outcomes that encode to the same response and the same log record,
/// component by component.
pub open spec fn encodes_alike<T: Serializable>(a: RouteResult<T>, b: RouteResult<T>) -> bool {
    &&& response_status(a) == response_status(b)
    &&& response_body(a) == response_body(b)
    &&& response_location(a) == response_location(b)
    &&& response_log(a) == response_log(b)
}

/// Encoding a success yields status 200 and the payload's serialization as
/// body, except for the designated bodiless payload type, whose body is
/// absent. (A payload whose serialization fails is excluded: it encodes as a
/// logged 500 instead, see `lemma_serialization_failure_encoding`.)
pub proof fn lemma_success_encoding<T: Serializable>(p: T)
    requires
        T::spec_omits_body() || p.wire_form() is Ok,
    ensures
        response_status(RouteResult::Success(p)) == 200,
        T::spec_omits_body() ==> response_body(RouteResult::Success(p)) is None,
        !T::spec_omits_body() ==> (p.wire_form() matches Ok(s) && response_body(
            RouteResult::Success(p),
        ) == Some(s)),
        response_location(RouteResult::Success(p)) is None,
        response_log(RouteResult::Success(p)) is None,
{
}

/// Encoding a created resource yields status 201, a `Location` header equal
/// to the given location exactly, and the payload's serialization as body.
/// (A payload whose serialization fails is excluded: it encodes as a logged
/// 500 instead, see `lemma_serialization_failure_encoding`.)
pub proof fn lemma_created_encoding<T: Serializable>(p: T, loc: String)
    requires
        p.wire_form() is Ok,
    ensures
        response_status(RouteResult::Created(p, loc)) == 201,
        response_location(RouteResult::Created(p, loc)) == Some(loc@),
        (p.wire_form() matches Ok(s) && response_body(RouteResult::Created(p, loc)) == Some(s)),
        response_log(RouteResult::Created(p, loc)) is None,
{
}

/// Encoding a missing resource yields status 404 and no body, for every
/// payload type.
pub proof fn lemma_not_found_encoding<T: Serializable>()
    ensures
        response_status(RouteResult::<T>::NotFound) == 404,
        response_body(RouteResult::<T>::NotFound) is None,
        response_location(RouteResult::<T>::NotFound) is None,
        response_log(RouteResult::<T>::NotFound) is None,
{
}

/// Encoding a bad request yields status 400; the body is the diagnostic
/// payload's serialization when one was supplied and absent otherwise.
pub proof fn lemma_bad_request_encoding<T: Serializable>(d: Option<JsonPayload>)
    ensures
        response_status(RouteResult::<T>::BadRequest(d)) == 400,
        d is None ==> response_body(RouteResult::<T>::BadRequest(d)) is None,
        d matches Some(p) ==> response_body(RouteResult::<T>::BadRequest(d)) == Some(p.text@),
        response_location(RouteResult::<T>::BadRequest(d)) is None,
        response_log(RouteResult::<T>::BadRequest(d)) is None,
{
}

/// Encoding a forbidden outcome yields status 401 and no body, for every
/// payload type.
pub proof fn lemma_forbidden_encoding<T: Serializable>()
    ensures
        response_status(RouteResult::<T>::Forbidden) == 401,
        response_body(RouteResult::<T>::Forbidden) is None,
        response_location(RouteResult::<T>::Forbidden) is None,
        response_log(RouteResult::<T>::Forbidden) is None,
{
}

/// Encoding a server-signaled failure yields status 500, no body, and
/// exactly one log record: the cause's message paired with its captured
/// call stack, or with the explicit no-trace marker when none exists.
pub proof fn lemma_internal_error_encoding<T: Serializable>(c: FailureCause)
    ensures
        response_status(RouteResult::<T>::InternalError(c)) == 500,
        response_body(RouteResult::<T>::InternalError(c)) is None,
        response_location(RouteResult::<T>::InternalError(c)) is None,
        c.trace matches Some(t) ==> response_log(RouteResult::<T>::InternalError(c)) == Some(
            (c.message@, t@),
        ),
        c.trace is None ==> response_log(RouteResult::<T>::InternalError(c)) == Some(
            (c.message@, "No backtrace available"@),
        ),
{
}

/// A payload that fails to serialize is promoted to the server-signaled
/// class: the outcome encodes to status 500 with no body and no headers, and
/// exactly one log record, carrying the serializer's message and the
/// no-trace marker.
pub proof fn lemma_serialization_failure_encoding<T: Serializable>(o: RouteResult<T>)
    requires
        encoding_fails(o),
    ensures
        response_status(o) == 500,
        response_body(o) is None,
        response_location(o) is None,
        response_log(o) == Some((encoding_failure_message(o), "No backtrace available"@)),
{
}

/// Round trip through the boundary adapter: adapting a service-layer result
/// yields exactly the outcome one would construct directly — a found value a
/// success, an absent value a missing resource, an operational error a
/// server-signaled failure — so the adapted result also encodes exactly as
/// that outcome does.
pub proof fn lemma_adapter_round_trip<T: Serializable>(r: Result<Option<T>, FailureCause>)
    ensures
        r matches Ok(Some(x)) ==> RouteResult::<T>::from_spec(r) == RouteResult::<T>::Success(x),
        r matches Ok(None::<T>) ==> RouteResult::<T>::from_spec(r) == RouteResult::<T>::NotFound,
        r matches Err(e) ==> RouteResult::<T>::from_spec(r) == RouteResult::<T>::InternalError(e),
        r matches Ok(Some(x)) ==> encodes_alike(RouteResult::<T>::from_spec(r), RouteResult::<T>::Success(x)),
        r matches Ok(None::<T>) ==> encodes_alike(RouteResult::<T>::from_spec(r), RouteResult::<T>::NotFound),
        r matches Err(e) ==> encodes_alike(RouteResult::<T>::from_spec(r), RouteResult::<T>::InternalError(e)),
{
    match r {
        Ok(v) => {
            match v {
                Some(x) => {
                    assert(RouteResult::<T>::from_spec(r) == RouteResult::<T>::Success(x));
                },
                None => {
                    assert(RouteResult::<T>::from_spec(r) == RouteResult::<T>::NotFound);
                },
            }
        },
        Err(e) => {
            assert(RouteResult::<T>::from_spec(r) == RouteResult::<T>::InternalError(e));
        },
    }
}

/// A chain whose first step did not succeed aborts: a missing resource stays
/// a missing resource whatever the second step would have done, and the
/// chained outcome still encodes to status 404 with no body.
pub proof fn lemma_chain_short_circuits<T: Serializable, U: Serializable>(
    o: RouteResult<T>,
    r: RouteResult<U>,
)
    requires
        o is NotFound,
        aborts_to(o, r),
    ensures
        r is NotFound,
        response_status(r) == 404,
        response_body(r) is None,
{
}

} // verus!
