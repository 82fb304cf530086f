//! Associated type declarations: the parsed and the typed form, the checker
//! that turns one into the other, the stub used for error recovery, and the
//! post-check analysis hook.

use crate::context::{lookup, resolve, scope_in_registry, TypeCheckAnalysisContext, TypeCheckContext};
use crate::diagnostics::{DiagnosticSink, ErrorClass, Reported};
use crate::type_system::{TypeEngine, TypeId, TypeInfo};
use sway_error::handler::ErrorEmitted;
use sway_types::{Ident, Span};
use vstd::prelude::*;

verus! {

/// A type as written in a declaration, with the place where it was written.
pub struct TypeArgument {
    pub type_id: TypeId,
    pub span: Span,
}

/// A declaration-level annotation; the checker passes it through unchanged.
pub struct Attribute {
    pub name: String,
    pub args: Vec<String>,
}

/// A parsed associated type declaration, `type name;` or `type name = ty;`.
pub struct TraitTypeDeclaration {
    pub name: Ident,
    pub attributes: Vec<Attribute>,
    pub ty_opt: Option<TypeArgument>,
    pub span: Span,
}

/// A typed associated type declaration, anchored to its implementing type.
pub struct TyTraitType {
    pub name: Ident,
    pub attributes: Vec<Attribute>,
    pub ty: Option<TypeArgument>,
    pub implementing_type: TypeId,
    pub span: Span,
}

/// Whether an identifier names an error-recovery descriptor in `types`.
pub open spec fn is_error_recovery(types: Seq<TypeInfo>, id: TypeId) -> bool {
    id.0 < types.len() && types[id.0 as int] is ErrorRecovery
}

/// Whether the declared type is present and fails to resolve.
pub open spec fn resolution_fails(
    types: Seq<TypeInfo>,
    scope: Seq<(String, TypeId)>,
    ty_opt: Option<TypeArgument>,
) -> bool {
    ty_opt matches Some(t) && resolve(types, scope, t.type_id) is None
}

/// The declared type after checking: absent stays absent; a type that
/// resolves is replaced by what it resolves to; one that does not is
/// replaced by the next identifier of the registry, where the checker puts
/// the error-recovery descriptor.
pub open spec fn resolved_type(
    types: Seq<TypeInfo>,
    scope: Seq<(String, TypeId)>,
    ty_opt: Option<TypeArgument>,
) -> Option<TypeArgument> {
    match ty_opt {
        None => None,
        Some(t) => Some(
            TypeArgument {
                type_id: match resolve(types, scope, t.type_id) {
                    Some(id) => id,
                    None => TypeId(types.len() as usize),
                },
                span: t.span,
            },
        ),
    }
}

/// The typed declaration made of `decl`'s name, attributes and span, the
/// type `ty` and the implementing type `implementing_type`.
pub open spec fn typed(decl: TraitTypeDeclaration, ty: Option<TypeArgument>, implementing_type: TypeId) -> TyTraitType {
    TyTraitType {
        name: decl.name,
        attributes: decl.attributes,
        ty,
        implementing_type,
        span: decl.span,
    }
}

/// The errors that checking `decl` reports, in order: a user error at the
/// declared type when it fails to resolve, then an internal error at the
/// declaration when there is no implementing type.
pub open spec fn check_reports(
    types: Seq<TypeInfo>,
    scope: Seq<(String, TypeId)>,
    self_type: Option<TypeId>,
    decl: TraitTypeDeclaration,
) -> Seq<Reported> {
    let user = if resolution_fails(types, scope, decl.ty_opt) {
        seq![Reported { class: ErrorClass::User, span: decl.ty_opt->0.span }]
    } else {
        Seq::empty()
    };
    let internal = if self_type is None {
        seq![Reported { class: ErrorClass::Internal, span: decl.span }]
    } else {
        Seq::empty()
    };
    user + internal
}

impl TyTraitType {
    /// Checks the parsed declaration `trait_type` in `ctx`.
    ///
    /// A declared type is resolved in scope; where that fails the failure is
    /// reported and an error-recovery descriptor takes the type's place, so
    /// the check goes on. Without an implementing type in `ctx` the checker
    /// was called outside a trait or impl block: an internal error is
    /// reported at the declaration and the check fails.
    pub fn type_check(
        handler: &mut DiagnosticSink,
        ctx: &mut TypeCheckContext,
        trait_type: TraitTypeDeclaration,
    ) -> (r: Result<TyTraitType, ErrorEmitted>)
        requires
            old(ctx).engines@.len() < usize::MAX,
        ensures
            final(ctx).self_type == old(ctx).self_type,
            final(ctx).scope == old(ctx).scope,
            resolution_fails(old(ctx).engines@, old(ctx).scope@, trait_type.ty_opt) ==> {
                &&& final(ctx).engines@.len() == old(ctx).engines@.len() + 1
                &&& final(ctx).engines@.subrange(0, old(ctx).engines@.len() as int)
                    == old(ctx).engines@
                &&& is_error_recovery(final(ctx).engines@, TypeId(old(ctx).engines@.len() as usize))
            },
            !resolution_fails(old(ctx).engines@, old(ctx).scope@, trait_type.ty_opt)
                ==> final(ctx).engines@ == old(ctx).engines@,
            final(handler).reports() == old(handler).reports() + check_reports(
                old(ctx).engines@,
                old(ctx).scope@,
                old(ctx).self_type,
                trait_type,
            ),
            match old(ctx).self_type {
                Some(implementing_type) => r == Ok::<TyTraitType, ErrorEmitted>(
                    typed(
                        trait_type,
                        resolved_type(old(ctx).engines@, old(ctx).scope@, trait_type.ty_opt),
                        implementing_type,
                    ),
                ),
                None => r is Err,
            },
    {
        let ghost types = ctx.engines@;
        let ghost reports0 = handler.reports();
        let TraitTypeDeclaration { name, attributes, ty_opt, span } = trait_type;
        let ty = match ty_opt {
            Some(declared) => {
                let TypeArgument { type_id, span: ty_span } = declared;
                let resolved = match ctx.resolve_type(handler, type_id, &ty_span) {
                    Ok(id) => id,
                    Err(err) => ctx.engines.insert(TypeInfo::ErrorRecovery(err)),
                };
                Some(TypeArgument { type_id: resolved, span: ty_span })
            },
            None => None,
        };
        assert(ctx.engines@.len() > types.len() ==> ctx.engines@.subrange(0, types.len() as int)
            =~= types);
        match ctx.self_type() {
            Some(implementing_type) => {
                assert(handler.reports() =~= reports0 + check_reports(
                    types,
                    ctx.scope@,
                    ctx.self_type,
                    trait_type,
                ));
                Ok(TyTraitType { name, attributes, ty, implementing_type, span })
            },
            None => {
                let e = handler.report_internal("Self type not provided.", span);
                assert(handler.reports() =~= reports0 + check_reports(
                    types,
                    ctx.scope@,
                    ctx.self_type,
                    trait_type,
                ));
                Err(e)
            },
        }
    }

    /// A stand-in typed declaration for one whose enclosing declaration
    /// already failed to check, so that the namespace has no hole to cause
    /// further errors. It reports nothing: the declared type is kept as it
    /// was parsed, and the implementing type is a fresh `Self` placeholder.
    pub fn error(engines: &mut TypeEngine, decl: TraitTypeDeclaration) -> (r: TyTraitType)
        requires
            old(engines)@.len() < usize::MAX,
        ensures
            r == typed(decl, decl.ty_opt, TypeId(old(engines)@.len() as usize)),
            final(engines)@.len() == old(engines)@.len() + 1,
            final(engines)@.subrange(0, old(engines)@.len() as int) == old(engines)@,
            final(engines)@[old(engines)@.len() as int] is SelfType,
    {
        let TraitTypeDeclaration { name, attributes, ty_opt, span } = decl;
        let ghost types = engines@;
        let implementing_type = engines.insert(TypeInfo::new_self_type(Span::dummy()));
        assert(engines@.subrange(0, types.len() as int) =~= types);
        TyTraitType { name, attributes, ty: ty_opt, implementing_type, span }
    }

    /// The hook that runs once every declaration is typed, for analyses of the
    /// whole program. Associated types carry nothing that those analyses
    /// use: it succeeds and changes nothing.
    pub fn type_check_analyze(
        &self,
        handler: &mut DiagnosticSink,
        ctx: &mut TypeCheckAnalysisContext,
    ) -> (r: Result<(), ErrorEmitted>)
        ensures
            r is Ok,
            *final(handler) == *old(handler),
            *final(ctx) == *old(ctx),
    {
        Ok(())
    }
}

/// Checking a declaration whose declared type resolves, in a block with an
/// implementing type, reports nothing and keeps the parsed name, attributes
/// and span. The resolved identifier is one the registry already held, so it
/// is not the fresh identifier an error-recovery descriptor would get, and it
/// names no error-recovery descriptor where neither the declared type nor any
/// type in scope does.
pub proof fn lemma_well_formed_input(
    types: Seq<TypeInfo>,
    scope: Seq<(String, TypeId)>,
    decl: TraitTypeDeclaration,
    implementing_type: TypeId,
)
    requires
        types.len() < usize::MAX,
        scope_in_registry(types, scope),
        decl.ty_opt matches Some(t) && t.type_id.0 < types.len() && resolve(
            types,
            scope,
            t.type_id,
        ) is Some,
    ensures
        ({
            let r = typed(decl, resolved_type(types, scope, decl.ty_opt), implementing_type);
            &&& r.name == decl.name
            &&& r.attributes == decl.attributes
            &&& r.span == decl.span
            &&& r.ty matches Some(rt) && rt.type_id.0 < types.len() && rt.type_id != TypeId(
                types.len() as usize,
            ) && rt.span == decl.ty_opt->0.span
            &&& (!is_error_recovery(types, decl.ty_opt->0.type_id) && (forall|i: int|
                0 <= i < scope.len() ==> !is_error_recovery(types, #[trigger] scope[i].1)))
                ==> !is_error_recovery(types, r.ty->0.type_id)
        }),
        !resolution_fails(types, scope, decl.ty_opt),
        check_reports(types, scope, Some(implementing_type), decl) == Seq::<Reported>::empty(),
{
    let t = decl.ty_opt->0;
    if types[t.type_id.0 as int] is Custom {
        lemma_lookup_in_scope(scope, types[t.type_id.0 as int]->Custom_name@);
    }
    assert(check_reports(types, scope, Some(implementing_type), decl) =~= Seq::<Reported>::empty());
}

/// What `lookup` finds is one of the entries of `scope`.
pub proof fn lemma_lookup_in_scope(scope: Seq<(String, TypeId)>, name: Seq<char>)
    ensures
        lookup(scope, name) matches Some(id) ==> exists|i: int|
            0 <= i < scope.len() && #[trigger] scope[i].1 == id,
    decreases scope.len(),
{
    if scope.len() > 0 && scope[0].0@ != name {
        lemma_lookup_in_scope(scope.drop_first(), name);
        if let Some(id) = lookup(scope, name) {
            let j = choose|j: int| 0 <= j < scope.drop_first().len() && #[trigger] scope.drop_first()[j].1 == id;
            assert(scope[j + 1].1 == id);
        }
    } else if scope.len() > 0 {
        assert(scope[0].1 == scope[0].1);
    }
}

/// A declaration without a declared type, in a block with an implementing
/// type, is typed without one and reports nothing.
pub proof fn lemma_absent_declared_type(
    types: Seq<TypeInfo>,
    scope: Seq<(String, TypeId)>,
    decl: TraitTypeDeclaration,
    implementing_type: TypeId,
)
    requires
        decl.ty_opt is None,
    ensures
        typed(decl, resolved_type(types, scope, decl.ty_opt), implementing_type).ty is None,
        !resolution_fails(types, scope, decl.ty_opt),
        check_reports(types, scope, Some(implementing_type), decl) == Seq::<Reported>::empty(),
{
    assert(check_reports(types, scope, Some(implementing_type), decl) =~= Seq::<Reported>::empty());
}

/// A declared type that names no type in scope does not stop the check in a
/// block with an implementing type: exactly one error is reported, a user
/// error at the declared type, and the typed declaration carries the fresh
/// identifier under which the error-recovery descriptor is registered.
pub proof fn lemma_unresolvable_type(
    types: Seq<TypeInfo>,
    scope: Seq<(String, TypeId)>,
    decl: TraitTypeDeclaration,
    implementing_type: TypeId,
)
    requires
        decl.ty_opt is Some,
        decl.ty_opt->0.type_id.0 < types.len(),
        types[decl.ty_opt->0.type_id.0 as int] is Custom,
        lookup(scope, types[decl.ty_opt->0.type_id.0 as int]->Custom_name@) is None,
    ensures
        resolution_fails(types, scope, decl.ty_opt),
        check_reports(types, scope, Some(implementing_type), decl) == seq![
            Reported { class: ErrorClass::User, span: decl.ty_opt->0.span },
        ],
        typed(decl, resolved_type(types, scope, decl.ty_opt), implementing_type).ty == Some(
            TypeArgument { type_id: TypeId(types.len() as usize), span: decl.ty_opt->0.span },
        ),
{
    assert(check_reports(types, scope, Some(implementing_type), decl) =~= seq![
        Reported { class: ErrorClass::User, span: decl.ty_opt->0.span },
    ]);
}

/// Without an implementing type, checking any declaration reports exactly one
/// internal error, the last report, at the declaration's span; any report
/// before it is a user error.
pub proof fn lemma_missing_implementing_type(
    types: Seq<TypeInfo>,
    scope: Seq<(String, TypeId)>,
    decl: TraitTypeDeclaration,
)
    ensures
        ({
            let reports = check_reports(types, scope, None, decl);
            &&& reports.len() >= 1
            &&& reports.last() == Reported { class: ErrorClass::Internal, span: decl.span }
            &&& forall|i: int| 0 <= i < reports.len() - 1 ==> (#[trigger] reports[i]).class
                == ErrorClass::User
        }),
{
}

/// Two stubs of one declaration, the second made after the first, agree on
/// everything but the implementing type, and their implementing types differ.
pub proof fn lemma_stub_idempotent(decl: TraitTypeDeclaration, first: TypeId, second: TypeId)
    requires
        first.0 < second.0,
    ensures
        ({
            let a = typed(decl, decl.ty_opt, first);
            let b = typed(decl, decl.ty_opt, second);
            &&& a.name == b.name
            &&& a.attributes == b.attributes
            &&& a.ty == b.ty
            &&& a.span == b.span
            &&& a.implementing_type != b.implementing_type
        }),
{
}

} // verus!
