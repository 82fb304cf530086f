use sway_error::error::CompileError;
use sway_types::span::Source;
use sway_types::{Ident, Span};
use trait_type_check::context::{TypeCheckAnalysisContext, TypeCheckContext};
use trait_type_check::diagnostics::DiagnosticSink;
use trait_type_check::trait_type::{Attribute, TraitTypeDeclaration, TyTraitType, TypeArgument};
use trait_type_check::type_system::{TypeEngine, TypeId, TypeInfo};

const SOURCE: &str = "trait Tr { type Output = u64; type Other; } impl Tr for MyStruct {}";

fn span(start: usize, end: usize) -> Span {
    Span::new(Source::new(SOURCE), start, end, None).unwrap()
}

fn attrs() -> Vec<Attribute> {
    vec![Attribute { name: "doc".to_string(), args: vec!["an output".to_string()] }]
}

fn decl(name: &str, ty: Option<TypeId>) -> TraitTypeDeclaration {
    TraitTypeDeclaration {
        name: Ident::new_no_span(name.to_string()),
        attributes: attrs(),
        ty_opt: ty.map(|type_id| TypeArgument { type_id, span: span(25, 28) }),
        span: span(11, 29),
    }
}

/// Registry: 0 = u64, 1 = MyStruct, 2 = reference `u64`, 3 = reference `Missing`.
/// Scope: u64 and MyStruct. Implementing type: MyStruct when `with_self`.
fn context(with_self: bool) -> TypeCheckContext {
    let mut engines = TypeEngine::new();
    let t_u64 = engines.insert(TypeInfo::Declared { name: "u64".to_string() });
    let t_impl = engines.insert(TypeInfo::Declared { name: "MyStruct".to_string() });
    engines.insert(TypeInfo::Custom { name: "u64".to_string() });
    engines.insert(TypeInfo::Custom { name: "Missing".to_string() });
    let mut ctx = TypeCheckContext::new(engines, if with_self { Some(t_impl) } else { None });
    ctx.declare("u64".to_string(), t_u64);
    ctx.declare("MyStruct".to_string(), t_impl);
    ctx
}

fn errors(sink: DiagnosticSink) -> Vec<CompileError> {
    sink.into_handler().consume().0
}

#[test]
fn well_formed_input() {
    let mut sink = DiagnosticSink::new();
    let mut ctx = context(true);
    let typed = TyTraitType::type_check(&mut sink, &mut ctx, decl("Output", Some(TypeId(2)))).unwrap();
    let ty = typed.ty.unwrap();
    assert_eq!(ty.type_id, TypeId(0));
    assert!(!matches!(ctx.engines.get(ty.type_id), Some(TypeInfo::ErrorRecovery(_))));
    assert_eq!(ty.span, span(25, 28));
    assert_eq!(typed.name.as_str(), "Output");
    assert_eq!(typed.attributes.len(), 1);
    assert_eq!(typed.attributes[0].name, "doc");
    assert_eq!(typed.attributes[0].args, vec!["an output".to_string()]);
    assert_eq!(typed.span, span(11, 29));
    assert_eq!(ctx.engines.len(), 4);
    assert!(errors(sink).is_empty());
}

#[test]
fn end_to_end_output_u64() {
    let mut sink = DiagnosticSink::new();
    let mut ctx = context(true);
    let typed = TyTraitType::type_check(&mut sink, &mut ctx, decl("Output", Some(TypeId(2)))).unwrap();
    assert_eq!(typed.name.as_str(), "Output");
    assert_eq!(typed.ty.map(|t| t.type_id), Some(TypeId(0)));
    assert_eq!(typed.implementing_type, TypeId(1));
    assert_eq!(typed.span, span(11, 29));
    assert_eq!(errors(sink).len(), 0);
}

#[test]
fn absent_declared_type() {
    let mut sink = DiagnosticSink::new();
    let mut ctx = context(true);
    let typed = TyTraitType::type_check(&mut sink, &mut ctx, decl("Other", None)).unwrap();
    assert!(typed.ty.is_none());
    assert_eq!(typed.name.as_str(), "Other");
    assert_eq!(typed.implementing_type, TypeId(1));
    assert_eq!(ctx.engines.len(), 4);
    assert!(errors(sink).is_empty());
}

#[test]
fn unresolvable_type() {
    let mut sink = DiagnosticSink::new();
    let mut ctx = context(true);
    let typed = TyTraitType::type_check(&mut sink, &mut ctx, decl("Output", Some(TypeId(3)))).unwrap();
    let ty = typed.ty.unwrap();
    assert_eq!(ty.type_id, TypeId(4));
    assert_eq!(ty.span, span(25, 28));
    assert_eq!(ctx.engines.len(), 5);
    assert!(matches!(ctx.engines.get(TypeId(4)), Some(TypeInfo::ErrorRecovery(_))));
    assert_eq!(typed.implementing_type, TypeId(1));
    let errs = errors(sink);
    assert_eq!(errs.len(), 1);
    match &errs[0] {
        CompileError::UnknownTypeName { name, span: s } => {
            assert_eq!(name, "Missing");
            assert_eq!(*s, span(25, 28));
        }
        other => panic!("unexpected error {:?}", other),
    }
}

#[test]
fn missing_implementing_type() {
    let mut sink = DiagnosticSink::new();
    let mut ctx = context(false);
    let result = TyTraitType::type_check(&mut sink, &mut ctx, decl("Output", Some(TypeId(2))));
    assert!(result.is_err());
    let errs = errors(sink);
    assert_eq!(errs.len(), 1);
    match &errs[0] {
        CompileError::Internal(_, s) => assert_eq!(*s, span(11, 29)),
        other => panic!("unexpected error {:?}", other),
    }
}

#[test]
fn missing_implementing_type_without_declared_type() {
    let mut sink = DiagnosticSink::new();
    let mut ctx = context(false);
    let result = TyTraitType::type_check(&mut sink, &mut ctx, decl("Other", None));
    assert!(result.is_err());
    let errs = errors(sink);
    assert_eq!(errs.len(), 1);
    assert!(matches!(&errs[0], CompileError::Internal(_, _)));
}

#[test]
fn missing_implementing_type_and_unresolvable_type() {
    let mut sink = DiagnosticSink::new();
    let mut ctx = context(false);
    let result = TyTraitType::type_check(&mut sink, &mut ctx, decl("Output", Some(TypeId(3))));
    assert!(result.is_err());
    assert_eq!(ctx.engines.len(), 5);
    let errs = errors(sink);
    assert_eq!(errs.len(), 2);
    assert!(matches!(&errs[0], CompileError::UnknownTypeName { .. }));
    match &errs[1] {
        CompileError::Internal(_, s) => assert_eq!(*s, span(11, 29)),
        other => panic!("unexpected error {:?}", other),
    }
}

#[test]
fn concrete_declared_type_stands_for_itself() {
    let mut sink = DiagnosticSink::new();
    let mut ctx = context(true);
    let typed = TyTraitType::type_check(&mut sink, &mut ctx, decl("Output", Some(TypeId(1)))).unwrap();
    assert_eq!(typed.ty.unwrap().type_id, TypeId(1));
    assert!(errors(sink).is_empty());
}

#[test]
fn first_type_in_scope_wins() {
    let mut sink = DiagnosticSink::new();
    let mut ctx = context(true);
    ctx.declare("Missing".to_string(), TypeId(1));
    ctx.declare("Missing".to_string(), TypeId(0));
    assert_eq!(ctx.find_in_scope(&"Missing".to_string()), Some(TypeId(1)));
    let typed = TyTraitType::type_check(&mut sink, &mut ctx, decl("Output", Some(TypeId(3)))).unwrap();
    assert_eq!(typed.ty.unwrap().type_id, TypeId(1));
    assert!(errors(sink).is_empty());
}

#[test]
fn stub_idempotence() {
    let mut engines = TypeEngine::new();
    engines.insert(TypeInfo::Custom { name: "u64".to_string() });
    let a = TyTraitType::error(&mut engines, decl("Output", Some(TypeId(0))));
    let b = TyTraitType::error(&mut engines, decl("Output", Some(TypeId(0))));
    assert_eq!(a.name, b.name);
    assert_eq!(a.span, b.span);
    assert_eq!(a.attributes.len(), b.attributes.len());
    assert_eq!(a.attributes[0].name, b.attributes[0].name);
    let (ta, tb) = (a.ty.unwrap(), b.ty.unwrap());
    assert_eq!(ta.type_id, TypeId(0));
    assert_eq!(tb.type_id, TypeId(0));
    assert_eq!(ta.span, tb.span);
    assert_eq!(a.implementing_type, TypeId(1));
    assert_eq!(b.implementing_type, TypeId(2));
    assert!(matches!(engines.get(TypeId(1)), Some(TypeInfo::SelfType { .. })));
    assert!(matches!(engines.get(TypeId(2)), Some(TypeInfo::SelfType { .. })));
    assert_eq!(engines.len(), 3);
}

#[test]
fn stub_keeps_declared_type_unresolved() {
    let mut engines = TypeEngine::new();
    engines.insert(TypeInfo::Custom { name: "Missing".to_string() });
    let stub = TyTraitType::error(&mut engines, decl("Output", Some(TypeId(0))));
    assert_eq!(stub.ty.unwrap().type_id, TypeId(0));
    let none = TyTraitType::error(&mut engines, decl("Other", None));
    assert!(none.ty.is_none());
}

#[test]
fn analysis_is_a_no_op() {
    let mut sink = DiagnosticSink::new();
    let mut ctx = context(true);
    let typed = TyTraitType::type_check(&mut sink, &mut ctx, decl("Output", Some(TypeId(2)))).unwrap();
    let stub = TyTraitType::error(&mut ctx.engines, decl("Other", None));
    let mut analysis = TypeCheckAnalysisContext::new();
    assert!(typed.type_check_analyze(&mut sink, &mut analysis).is_ok());
    assert!(stub.type_check_analyze(&mut sink, &mut analysis).is_ok());
    assert!(errors(sink).is_empty());
}

#[test]
fn registry_hands_out_indices() {
    let mut engines = TypeEngine::new();
    assert_eq!(engines.len(), 0);
    assert!(engines.get(TypeId(0)).is_none());
    let a = engines.insert(TypeInfo::Declared { name: "bool".to_string() });
    let b = engines.insert(TypeInfo::new_self_type(Span::dummy()));
    assert_eq!((a, b), (TypeId(0), TypeId(1)));
    assert!(matches!(engines.get(a), Some(TypeInfo::Declared { name }) if name == "bool"));
    assert!(matches!(engines.get(b), Some(TypeInfo::SelfType { .. })));
    assert!(engines.get(TypeId(2)).is_none());
}

#[test]
fn context_reports_its_self_type() {
    let ctx = context(true);
    assert_eq!(ctx.self_type(), Some(TypeId(1)));
    assert_eq!(context(false).self_type(), None);
    assert_eq!(ctx.find_in_scope(&"u64".to_string()), Some(TypeId(0)));
    assert_eq!(ctx.find_in_scope(&"bool".to_string()), None);
}
