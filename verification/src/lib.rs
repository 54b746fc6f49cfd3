//! A typed foreign-object protocol for a managed, garbage-collected host
//! runtime.
//!
//! Native code describes each of its types to the host collector with a
//! [`DataType`](typed_data::DataType) record built by a
//! [`DataTypeBuilder`](typed_data::DataTypeBuilder), wraps values of those
//! types into host-managed storage as typed handles
//! ([`Obj`](typed_data::Obj)), and recovers references to them through a
//! checked conversion that validates both the host class and the descriptor
//! identity.  Around that core stand value-kind wrappers for the host's
//! built-in strings, files, rationals and execution-context bindings, and the
//! version gates that decide which collector capabilities are available.

pub mod binding;
pub mod config;
pub mod error;
pub mod r_file;
pub mod r_rational;
pub mod r_string;
pub mod typed_data;
pub mod value;
pub mod version;
