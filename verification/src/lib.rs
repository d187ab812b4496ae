//! A typed, ordered metadata model with composable filters and optional schemas.
//!
//! [`Metadata`] is an ordered key-value store of typed [`Value`]s, a
//! [`MetadataFilter`] selects metadata objects, and a [`MetadataSchema`]
//! validates both metadata objects and filters.
#![allow(unused_imports)]

pub mod data_type;
pub mod text;
pub mod big;
pub mod float;
pub mod json;
pub mod value;
pub mod policy;
pub mod compare;
pub mod entries;
pub mod error;
pub mod metadata;
pub mod condition;
pub mod expr;
pub mod filter;
pub mod schema;
pub mod wire;
pub mod laws;

pub use data_type::DataType;
pub use big::{BigDecimal, BigInteger};
pub use condition::Condition;
pub use error::{MetadataError, MetadataResult};
pub use filter::{MetadataFilter, MetadataFilterBuilder};
pub use json::{JsonNumber, JsonValue, MetadataValueType};
pub use metadata::Metadata;
pub use policy::{FilterMatchOptions, MissingKeyPolicy, NumberComparisonPolicy};
pub use schema::{MetadataField, MetadataSchema, MetadataSchemaBuilder, UnknownFieldPolicy};
pub use value::{Date, DateTime, Duration, FromValue, Instant, IntoValue, Time, Value};
pub use compare::{compare_i128_u128, compare_i64_u64};
pub use wire::metadata_filter_wire_version;
