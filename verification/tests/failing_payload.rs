//! The encoder's total-mapping edge: a payload that fails to serialize is
//! reported as a logged internal failure, never a malformed body.

use rocket_route_result::RouteResult;
use rocket_route_result::Serializable;
use rocket_route_result::SerializeError;

struct Broken;

impl Serializable for Broken {
    fn wire_form(&self) -> Result<vstd::seq::Seq<char>, vstd::seq::Seq<char>> {
        panic!("specification-only member, never called at run time")
    }

    fn spec_omits_body() -> bool {
        false
    }

    fn omits_body() -> bool {
        false
    }

    fn serialize_json(&self) -> Result<String, SerializeError> {
        Err(SerializeError { message: "cannot serialize".to_string() })
    }

    fn debug_render(&self) -> String {
        "Broken".to_string()
    }
}

#[test]
fn failing_payload_encodes_logged_500() {
    let e = RouteResult::Success(Broken).encode();
    assert_eq!(e.response.status, 500);
    assert!(e.response.body.is_none());
    assert!(e.response.content_type.is_none());
    let log = e.log.expect("exactly one log record");
    assert_eq!(log.message, "cannot serialize");
    assert_eq!(log.trace, "No backtrace available");

    let e = RouteResult::Created(Broken, "/items/9".to_string()).encode();
    assert_eq!(e.response.status, 500);
    assert!(e.response.location.is_none());
    assert!(e.response.body.is_none());
    assert_eq!(e.log.expect("exactly one log record").message, "cannot serialize");
}
