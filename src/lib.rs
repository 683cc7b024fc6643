//! Generates one `is_<variant>` query method per variant of an `enum`,
//! keeping the type's generic parameters, bounds and `where` clause.

mod text;
pub mod generics;
pub mod variant;
pub mod derive;

pub use text::{join, join_strings, strings_view};
pub use generics::{Components, GenericParam, Generics, GenericsExt};
pub use variant::{Fields, GeneratedMethod, Instance, Variant, format_predicate_name, generate_method, generate_methods};
pub use derive::{Data, Error, TypeDef, assemble, impl_is_variant};
