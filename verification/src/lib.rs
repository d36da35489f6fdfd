//! MozLog-style structured logging: hierarchical context capture and
//! rendering of log events into the fixed MozLog JSON output schema,
//! together with the request-lifecycle tracking that feeds it, and the
//! location domain types used by the request extractors.

pub mod fields;
pub mod level;
pub mod location;
pub mod merge;
pub mod record;
pub mod request;
pub mod render;
pub mod strutil;
pub mod subscriber;

pub use crate::fields::{FieldMap, FieldValue, FieldValueView};
pub use crate::level::Level;
pub use crate::location::{default_location, first_forwarded_address, location_metric_counters, GeoCity, Error, FallbackProvider, FallbackProviderView, Location, LocationBuilder, LocationBuilderView, LocationView};
pub use crate::merge::{ContextFrame, ContextFrameView};
pub use crate::record::{MozLogMessage, MozLogMessageView};
pub use crate::request::{RequestError, RequestErrorView, RequestSpan, RequestSpanView, RequestState};
pub use crate::subscriber::{LayerView, LogEvent, LogEventView, MozLogFormatLayer, NoFallback, TypeFallback};
