//! The failures of a mail templating service, mapped to one stable,
//! wire-facing error contract.
//!
//! Every subsystem (template loading, parsing, interpolation, rendering,
//! message building, SMTP transport) reports its failures as a closed sum
//! type. Each of them is mapped, totally and deterministically, to an
//! [`ErrorResponse`]: an HTTP status, a stable machine-readable code, a short
//! title and an ordered list of diagnostic strings.
pub mod cause;
pub mod code;
pub mod engine;
pub mod loader;
pub mod message;
pub mod parser;
pub mod record;
pub mod render;
pub mod schema;
pub mod server;
pub mod span;
pub mod text;
pub mod transport;

pub use crate::cause::Cause;
pub use crate::code::{ErrorCode, Origin};
pub use crate::engine::EngineError;
pub use crate::loader::{HttpError, LoaderError, LocalError};
pub use crate::message::MessageError;
pub use crate::parser::ParserError;
pub use crate::record::{ErrorBody, ErrorResponse};
pub use crate::render::RenderError;
pub use crate::server::ServerError;
pub use crate::span::Span;
pub use crate::transport::TransportError;
