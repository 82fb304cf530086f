//! Semantic checking of associated type declarations (`type T;` or
//! `type T = SomeType;` inside a trait or an impl block): the step that turns
//! the parsed declaration into a typed one, with error recovery.

pub mod sway_specs;
pub mod type_system;
pub mod diagnostics;
pub mod context;
pub mod trait_type;
