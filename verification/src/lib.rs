//! Runtime-defined JSON schemas and the validation of JSON documents against them.
//!
//! A schema ([`MessyJson`]) describes the shape a document must have. A builder pairs a
//! schema with [`MessyJsonSettings`] and turns a generic JSON tree ([`MessyJsonValueRaw`])
//! into a validated [`MessyJsonValue`] tree, or into the first [`MessyJsonError`] met.

pub mod array;
pub mod builder;
pub mod copies;
pub mod entries;
pub mod error;
pub mod join;
pub mod keys;
pub mod laws;
pub mod number;
pub mod object;
pub mod order;
pub mod outcome;
pub mod raw_convert;
pub mod raw_value;
pub mod reconcile;
pub mod scalar;
pub mod schema;
pub mod settings;
pub mod uuids;
pub mod value;

pub use array::MessyJsonArray;
pub use builder::{
    deserialize_node, messy_json_visit_map, visit_seq, MessyJsonBuilder, MessyJsonObjectBuilder,
    MessyJsonObjectTrait,
};
pub use error::{MessyJsonError, MessyJsonKind};
pub use number::{MessyJsonNumberType, MessyJsonNumeric};
pub use object::{gen_key, KeyType, MessyJsonObject, MessyJsonObjectInner};
pub use raw_convert::MessyJsonVariantError;
pub use raw_value::MessyJsonValueRaw;
pub use reconcile::{fill_absent, first_missing};
pub use scalar::MessyJsonScalar;
pub use schema::{MessyJson, MessyJsonExpected, MessyJsonInner};
pub use settings::MessyJsonSettings;
pub use value::{
    MessyJsonArrayValue, MessyJsonNullType, MessyJsonObjectValue, MessyJsonValue,
    MessyJsonValueContainer,
};
