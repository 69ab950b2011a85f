//! A typed Serde HTTP boundary: validated media types, a response
//! representation table with `Accept` negotiation, the response
//! envelope and error contract, and the decisions that render typed
//! results and boundary failures.

pub mod body;
pub mod contract;
pub mod envelope;
pub mod error;
pub mod format;
pub mod media;
pub mod respond;
pub mod table;

pub use contract::HttpErrorContract;
pub use envelope::{ErrorBody, FieldError, ResponseEnvelope, ValidationDetails};
pub use error::{BoundaryError, FormatFailure};
pub use media::{InvalidMediaType, MediaType};
pub use format::{BodyFormat, WireFormat};
pub use table::{
    AcceptMatch, InvalidResponseTable, Negotiated, ResponseMode, ResponseRepresentation, ResponseTable,
};
pub use respond::{BoundaryRejection, ResponsePlan};
pub use body::{ContentTypeHeader, SerdeBody};
