//! Deserialization of MessagePack values through serde's data model.
//!
//! The library holds the decisions that a serde deserializer over a MessagePack
//! value makes, for owned values (`Value`), values borrowed from their input
//! (`ValueRef`) and references to the latter: which visitor event a value turns
//! into, how arrays, maps and extension values are handed out element by element,
//! how an enum is read out of an array, a map or a string, and how the value
//! visitors rebuild a value from the events they are handed.

pub mod value;
pub mod value_ref;
pub mod error;
pub mod seq;
pub mod map;
pub mod ext;
pub mod enum_access;
pub mod deserializer;
pub mod deserializer_ref;
pub mod visitor;
pub mod laws;
