//! A log-shipping adapter: records are labelled, buffered up to a threshold,
//! serialized to the push format of a Loki endpoint and handed to a backend.
pub mod auth;
pub mod backend;
pub mod buffer;
pub mod builder;
pub mod endpoint;
pub mod json;
pub mod labels;
pub mod noop;
pub mod policy;
pub mod record;
pub mod request;
pub mod reqwest;
pub mod sink;
pub mod text;
pub mod ureq;
pub mod visitor;

pub use crate::auth::AuthenticationMethod;
pub use crate::backend::{Backend, Delivery, NetworkingBackend};
pub use crate::builder::{ConfigurationError, FenrirBuilder};
pub use crate::endpoint::Endpoint;
pub use crate::json::{json_serializer, noop_serializer, Stream};
pub use crate::labels::Labels;
pub use crate::record::{KvEntry, KvError, Level, LogRecord};
pub use crate::request::{HttpMethod, HttpRequest, SendOutcome};
pub use crate::buffer::EntryBuffer;
pub use crate::sink::{Fenrir, Flush, FlushError, Intake, LogOutcome, SerializationFormat};
pub use crate::visitor::LokiVisitor;
