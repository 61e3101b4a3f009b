//! An HTTP-shaped result algebra for request handlers: a closed set of
//! outcome variants, a pure encoder from outcomes to wire-level responses,
//! and a short-circuit propagation adapter for chaining fallible
//! sub-operations.

pub mod laws;
pub mod outcome;
pub mod payload;
pub mod response;

pub use outcome::FailureCause;
pub use outcome::RouteResult;
pub use payload::JsonPayload;
pub use payload::NoBody;
pub use payload::Serializable;
pub use payload::SerializeError;
pub use response::Encoded;
pub use response::HttpResponse;
pub use response::LogRecord;
