//! Code-generation core for a Java/JNI binding facade.
//!
//! Given descriptors for value structs, callback interfaces and one
//! exported service trait, the library computes a structured model of the
//! Java source to emit — value types, callback interfaces, and the service
//! facade class with its callback registry — and renders each model to
//! Java source text. The type mapping, the boundary marshalling policies,
//! the facade's argument and return conversions, the registry's
//! identifier guarantees, and the interchange round trip are all stated
//! in contracts and verified.

pub mod callback_gen;
pub mod descriptor;
pub mod error;
pub mod interchange;
pub mod jtokens;
pub mod laws;
pub mod mapper;
pub mod registry;
pub mod render;
pub mod render_service;
pub mod service_gen;
pub mod struct_gen;
pub mod text;

use vstd::prelude::*;

verus! {

} // verus!
