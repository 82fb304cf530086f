//! The type registry: it interns type descriptors and hands out stable
//! identifiers for them.

use sway_error::handler::ErrorEmitted;
use sway_types::Span;
use vstd::prelude::*;

verus! {

/// The identifier of a type descriptor: its index in the registry.
#[derive(Clone, Copy, Debug, PartialEq, Eq, Structural, Hash)]
pub struct TypeId(pub usize);

/// A type descriptor held by the registry.
#[derive(Debug)]
pub enum TypeInfo {
    /// A type reference as the user wrote it, not yet looked up in scope.
    Custom { name: String },
    /// A type that a scope can bring into view under its name.
    Declared { name: String },
    /// The `Self` placeholder, standing for a yet unknown implementing type.
    SelfType { span: Span },
    /// Stands in for a type that failed to resolve; carries the proof that the
    /// failure was reported.
    ErrorRecovery(ErrorEmitted),
}

impl TypeInfo {
    /// `Self` placeholder for the given span.
    pub fn new_self_type(span: Span) -> (r: TypeInfo)
        ensures
            r == (TypeInfo::SelfType { span }),
    {
        TypeInfo::SelfType { span }
    }
}

/// The registry of type descriptors; identifiers index into it.
pub struct TypeEngine {
    slab: Vec<TypeInfo>,
}

impl View for TypeEngine {
    type V = Seq<TypeInfo>;

    closed spec fn view(&self) -> Seq<TypeInfo> {
        self.slab@
    }
}

impl TypeEngine {
    /// An empty registry.
    pub fn new() -> (r: TypeEngine)
        ensures
            r@ == Seq::<TypeInfo>::empty(),
    {
        TypeEngine { slab: Vec::new() }
    }

    /// Number of descriptors held.
    pub fn len(&self) -> (r: usize)
        ensures
            r == self@.len(),
    {
        self.slab.len()
    }

    /// Interns `info` under a fresh identifier, the next index.
    pub fn insert(&mut self, info: TypeInfo) -> (id: TypeId)
        requires
            old(self)@.len() < usize::MAX,
        ensures
            id.0 == old(self)@.len(),
            final(self)@ == old(self)@.push(info),
    {
        let id = TypeId(self.slab.len());
        self.slab.push(info);
        id
    }

    /// The descriptor behind `id`, if the registry holds it.
    pub fn get(&self, id: TypeId) -> (r: Option<&TypeInfo>)
        ensures
            r.is_some() == (id.0 < self@.len()),
            r.is_some() ==> *r.unwrap() == self@[id.0 as int],
    {
        if id.0 < self.slab.len() {
            Some(&self.slab[id.0])
        } else {
            None
        }
    }
}

} // verus!
