//! The payload capability: what a value must offer to ride in a response
//! body, together with the two payload types the crate supplies itself.

use vstd::prelude::*;

verus! {

/// Error reported when a payload cannot be rendered as JSON text.
#[derive(Debug, Clone, PartialEq, Eq)]
pub struct SerializeError {
    /// The serializer's human-readable account of the failure.
    pub message: String,
}

/// Capability required of anything carried as a response payload: a fallible
/// rendering to the wire format (JSON text) and a debug rendering for logs.
pub trait Serializable: Sized {
    /// What serialization yields: the wire text, or the failure's message
    /// when the payload cannot be rendered.
    spec fn wire_form(&self) -> Result<Seq<char>, Seq<char>>;

    /// Whether this is the designated bodiless payload type, whose
    /// successful responses carry no body at all.
    spec fn spec_omits_body() -> bool;

    /// Executable marker for the bodiless payload type.
    fn omits_body() -> (b: bool)
        ensures
            b == Self::spec_omits_body(),
    ;

    /// Render this payload as JSON text.
    fn serialize_json(&self) -> (r: Result<String, SerializeError>)
        ensures
            match self.wire_form() {
                Ok(s) => r matches Ok(t) && t@ == s,
                Err(m) => r matches Err(e) && e.message@ == m,
            },
    ;

    /// A human-readable rendering, always available, used for logs.
    fn debug_render(&self) -> String;
}

/// The designated empty payload: a successful `RouteResult<NoBody>` sends no
/// response body. Where a body is forced anyway (a created resource), it
/// serializes as the JSON `null`, like the unit value it stands for.
#[derive(Debug, Clone, Copy, PartialEq, Eq)]
pub struct NoBody;

impl Serializable for NoBody {
    open spec fn wire_form(&self) -> Result<Seq<char>, Seq<char>> {
        Ok("null"@)
    }

    open spec fn spec_omits_body() -> bool {
        true
    }

    fn omits_body() -> (b: bool) {
        true
    }

    fn serialize_json(&self) -> (r: Result<String, SerializeError>) {
        Ok("null".to_owned())
    }

    fn debug_render(&self) -> String {
        "()".to_owned()
    }
}

#[verifier::external_type_specification]
#[verifier::external_body]
pub struct ExValue(serde_json::Value);

#[verifier::external_type_specification]
#[verifier::external_body]
pub struct ExJsonError(serde_json::Error);

pub uninterp spec fn json_text_of(v: serde_json::Value) -> Option<Seq<char>>;

/// Relies on `serde_json::to_string`: renders a JSON value as JSON text, a
/// function of the value alone, named `json_text_of` here; failure is
/// reported through the returned `Result` rather than by panicking.
#[verifier::external_body]
fn value_to_json(v: &serde_json::Value) -> (r: Result<String, serde_json::Error>)
    ensures
        match json_text_of(*v) {
            Some(s) => r matches Ok(t) && t@ == s,
            None => r is Err,
        },
{
    serde_json::to_string(v)
}

/// Relies on the `Display` impl of `serde_json::Error`: the error's
/// human-readable message.
#[verifier::external_body]
fn json_error_message(e: &serde_json::Error) -> (r: String) {
    format!("{}", e)
}

/// A type-erased diagnostic or body payload: a JSON document carried as its
/// rendered text. Any value the host can serialize erases into one of these.
#[derive(Debug, Clone, PartialEq, Eq)]
pub struct JsonPayload {
    /// The rendered JSON text.
    pub text: String,
}

impl JsonPayload {
    /// Erase a JSON value into a payload by rendering it once: the payload
    /// carries exactly the value's JSON text. A value the serializer rejects
    /// is reported as a `SerializeError`.
    pub fn from_value(v: &serde_json::Value) -> (r: Result<JsonPayload, SerializeError>)
        ensures
            r matches Ok(p) ==> Some(p.text@) == json_text_of(*v),
            r is Err ==> json_text_of(*v) is None,
    {
        match value_to_json(v) {
            Ok(text) => Ok(JsonPayload { text }),
            Err(e) => Err(SerializeError { message: json_error_message(&e) }),
        }
    }

    /// Wrap already-rendered JSON text directly.
    pub fn from_text(text: String) -> (r: JsonPayload)
        ensures
            r.text@ == text@,
    {
        JsonPayload { text }
    }
}

impl Serializable for JsonPayload {
    open spec fn wire_form(&self) -> Result<Seq<char>, Seq<char>> {
        Ok(self.text@)
    }

    open spec fn spec_omits_body() -> bool {
        false
    }

    fn omits_body() -> (b: bool) {
        false
    }

    fn serialize_json(&self) -> (r: Result<String, SerializeError>) {
        Ok(self.text.clone())
    }

    fn debug_render(&self) -> String {
        self.text.clone()
    }
}

} // verus!
