//! The value model of a document search engine: the values that a loosely
//! structured document is normalised into before it is bound to an index
//! schema, the stop-word corpus that the tokenizer reads, and the TLS rule
//! of the server that is built on them.

pub mod bindings;
pub mod datetime;
pub mod facet;
pub mod float;
pub mod ip;
pub mod stop_words;
pub mod tls;
pub mod value;
pub mod wrappers;

pub use datetime::{DateTime, FormatError, WellKnownFormat};
pub use facet::{Facet, FacetParseError};
pub use float::Float64;
pub use ip::{Ipv4Address, Ipv6Address};
pub use stop_words::{load_stop_words, StopWords, StopWordsError};
pub use tls::{check_tls_files, TlsError};
pub use value::{DynamicDocument, FieldType, KeyValues, KeyValuesIter, UserDisplayType, Value};
pub use wrappers::{Bytes, Text};
