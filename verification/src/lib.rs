//! Generator for typed remote-call stubs: reads interface-description
//! sources (worlds, records, variants, signature records), maps their
//! type expressions to host-language types, and assembles one source
//! module of asynchronous dispatch functions per callable operation,
//! together with the build-manifest registrations around it.

pub mod assemble;
pub mod casing;
pub mod generate;
pub mod laws;
pub mod manifest;
pub mod parser;
pub mod strutil;
pub mod stubgen;
pub mod typemap;
pub mod world;

pub use casing::to_pascal_case;
pub use casing::to_snake_case;
pub use generate::create_caller_utils;
