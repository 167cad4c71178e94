//! A query-to-rows pipeline: a natural-language query is normalized and
//! cached, turned into fetch code and a declared schema by a code-generation
//! client, executed by a sandboxed backend, and the resulting rows are
//! materialized in fixed-size chunks through a pull-based scan protocol.
//!
//! The network and process work (the provider call, the sandboxed run)
//! stays outside the library; callers perform it between the pipeline's
//! stages and hand the outcomes back.

use vstd::prelude::*;

pub mod cache;
pub mod deno_executor;
pub mod errors;
pub mod flags;
pub mod js_executor;
pub mod json;
pub mod llm;
pub mod pipeline;
pub mod rows;
pub mod scan;
pub mod schema;
pub mod text;
pub mod value;

pub use cache::CachedEntry;
pub use cache::ResponseCache;
pub use deno_executor::DenoExecutor;
pub use errors::WizardError;
pub use flags::ParsedQuery;
pub use js_executor::JsExecutor;
pub use llm::LLMClient;
pub use llm::LLMProvider;
pub use llm::LLMResponse;
pub use pipeline::BindStep;
pub use pipeline::BoundResultSet;
pub use rows::Row;
pub use scan::ScanCursor;
pub use schema::ColumnSchema;
pub use value::DynamicValue;
pub use value::FloatValue;
