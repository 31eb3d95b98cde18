//! A strongly typed tensor data model for a machine-learning inference
//! client.
//!
//! The model represents multi-dimensional numeric arrays that carry their
//! own element type and shape, validates shape compatibility against a
//! declared model input/output contract, and hands everything an inference
//! engine needs to build its own native tensor object.
//!
//! Element storage itself stays with the producer: a variant records the
//! element kind and the axis lengths of the producer's shared, immutable
//! backing array, which is all the model ever reads of it.

pub mod array;
pub mod class;
pub mod config;
pub mod dynamic;
pub mod error;
pub mod image;
pub mod shape;
pub mod string;
pub mod tensor;
