//! The type-check context: the implementing type of the enclosing trait or
//! impl block, the types in scope, and the registry they live in.

use crate::diagnostics::{DiagnosticSink, ErrorClass, Reported};
use crate::type_system::{TypeEngine, TypeId, TypeInfo};
use sway_error::handler::ErrorEmitted;
use sway_types::Span;
use vstd::prelude::*;

verus! {

/// The first type that `scope` brings into view under `name`.
pub open spec fn lookup(scope: Seq<(String, TypeId)>, name: Seq<char>) -> Option<TypeId>
    decreases scope.len(),
{
    if scope.len() == 0 {
        None
    } else if scope[0].0@ == name {
        Some(scope[0].1)
    } else {
        lookup(scope.drop_first(), name)
    }
}

/// What `id` resolves to: a reference written by the user is looked up by
/// name in `scope` (`None`: no such type); any other identifier already
/// denotes a type and stands for itself.
pub open spec fn resolve(types: Seq<TypeInfo>, scope: Seq<(String, TypeId)>, id: TypeId) -> Option<
    TypeId,
> {
    if id.0 < types.len() {
        match types[id.0 as int] {
            TypeInfo::Custom { name } => lookup(scope, name@),
            _ => Some(id),
        }
    } else {
        Some(id)
    }
}

/// Every type that `scope` names is held by the registry `types`.
pub open spec fn scope_in_registry(types: Seq<TypeInfo>, scope: Seq<(String, TypeId)>) -> bool {
    forall|i: int| 0 <= i < scope.len() ==> (#[trigger] scope[i]).1.0 < types.len()
}

/// The context in which a declaration inside a trait or impl block is checked.
pub struct TypeCheckContext {
    /// The type registry.
    pub engines: TypeEngine,
    /// The type that the enclosing trait or impl block is attached to.
    pub self_type: Option<TypeId>,
    /// The types in scope, by name; the first entry of a name wins.
    pub scope: Vec<(String, TypeId)>,
}

impl TypeCheckContext {
    /// A context over `engines` with nothing in scope.
    pub fn new(engines: TypeEngine, self_type: Option<TypeId>) -> (r: TypeCheckContext)
        ensures
            r.engines == engines,
            r.self_type == self_type,
            r.scope@ == Seq::<(String, TypeId)>::empty(),
    {
        TypeCheckContext { engines, self_type, scope: Vec::new() }
    }

    /// Brings the type `id` into scope under `name`, after the types already there.
    pub fn declare(&mut self, name: String, id: TypeId)
        ensures
            final(self).engines == old(self).engines,
            final(self).self_type == old(self).self_type,
            final(self).scope@ == old(self).scope@.push((name, id)),
    {
        self.scope.push((name, id));
    }

    /// The implementing type of the enclosing block, if there is one.
    pub fn self_type(&self) -> (r: Option<TypeId>)
        ensures
            r == self.self_type,
    {
        self.self_type
    }

    /// The first type in scope under `name`.
    pub fn find_in_scope(&self, name: &String) -> (r: Option<TypeId>)
        ensures
            r == lookup(self.scope@, name@),
    {
        let n = self.scope.len();
        let mut i: usize = 0;
        assert(self.scope@.subrange(0, n as int) =~= self.scope@);
        while i < n
            invariant
                n == self.scope@.len(),
                i <= n,
                lookup(self.scope@, name@) == lookup(self.scope@.subrange(i as int, n as int), name@),
            decreases n - i,
        {
            let ghost rest = self.scope@.subrange(i as int, n as int);
            assert(rest[0] == self.scope@[i as int]);
            if self.scope[i].0 == *name {
                return Some(self.scope[i].1);
            }
            assert(rest.drop_first() =~= self.scope@.subrange(i + 1, n as int));
            i = i + 1;
        }
        assert(self.scope@.subrange(n as int, n as int) =~= Seq::<(String, TypeId)>::empty());
        None
    }

    /// Resolves the type `type_id` written at `span`. A name that no type in
    /// scope has is reported at `span` as a user error.
    pub fn resolve_type(&self, handler: &mut DiagnosticSink, type_id: TypeId, span: &Span) -> (r:
        Result<TypeId, ErrorEmitted>)
        ensures
            match resolve(self.engines@, self.scope@, type_id) {
                Some(id) => r == Ok::<TypeId, ErrorEmitted>(id) && final(handler).reports()
                    == old(handler).reports(),
                None => r is Err && final(handler).reports() == old(handler).reports().push(
                    Reported { class: ErrorClass::User, span: *span },
                ),
            },
    {
        match self.engines.get(type_id) {
            Some(TypeInfo::Custom { name }) => match self.find_in_scope(name) {
                Some(id) => Ok(id),
                None => Err(handler.report_unknown_type(name.clone(), span)),
            },
            _ => Ok(type_id),
        }
    }
}

/// State shared by the analyses that run over the whole program once it is
/// typed. The analyses of associated types need none of it.
pub struct TypeCheckAnalysisContext {}

impl TypeCheckAnalysisContext {
    pub fn new() -> (r: TypeCheckAnalysisContext)
        ensures
            r == (TypeCheckAnalysisContext {}),
    {
        TypeCheckAnalysisContext {}
    }
}

} // verus!
