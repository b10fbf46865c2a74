//! Typed values from environment-variable strings.
//!
//! A struct field is described by a [`resolve::FieldDescriptor`]: a lookup
//! key, an optional default literal, an optionality flag, and a scalar kind.
//! Given such a descriptor and the string the environment holds under the key
//! (if any), the resolver produces a typed value or a descriptive error.
//! The [`from_env::FromEnv`] trait offers the same resolution per concrete
//! Rust type, mirroring the per-type entry points callers use directly.
//!
//! Reading the process environment itself is left to the embedding program:
//! every function here takes the environment entry as a plain
//! `Option<String>`.

use vstd::prelude::*;

pub mod kind;
pub mod parse;
pub mod resolve;
pub mod text;
pub mod extract;
pub mod from_env;
pub mod laws;
pub mod construct;

pub use construct::resolve_struct;
pub use extract::FieldDecl;
pub use from_env::FromEnv;
pub use kind::{IntWidth, ScalarKind};
pub use resolve::{FieldDescriptor, ResolutionError, ResolvedValue, ScalarValue};

verus! {

} // verus!
