use purust::decl::{Decl, FnDecl, GenericParam, StmtDecl, VariantDecl, VariantFields, Visibility};
use purust::ir::{Item, ReturnSlot};
use purust::validate::{
    check_signature, encode, process, validate_function, validate_tagged_union, Outcome,
};
use purust::diag::DiagnosticSet;

fn unit_variant(name: &str) -> VariantDecl {
    VariantDecl { name: name.to_string(), fields: VariantFields::Unit }
}

fn pos_variant(name: &str, types: &[&str]) -> VariantDecl {
    VariantDecl {
        name: name.to_string(),
        fields: VariantFields::Positional(types.iter().map(|t| t.to_string()).collect()),
    }
}

fn named_variant(name: &str) -> VariantDecl {
    VariantDecl { name: name.to_string(), fields: VariantFields::Named }
}

fn plain_fn(name: &str) -> FnDecl {
    FnDecl {
        vis: Visibility::Inherited,
        name: name.to_string(),
        is_unsafe: false,
        is_const: false,
        is_async: false,
        has_custom_abi: false,
        is_variadic: false,
        generics: Vec::new(),
        ret: None,
        body: Vec::new(),
    }
}

fn messages(diags: DiagnosticSet) -> Vec<String> {
    diags.into_messages()
}

#[test]
fn valid_union_builds_record_in_order() {
    let decls = vec![Decl::TaggedUnion(vec![
        unit_variant("Nothing"),
        pos_variant("Pair", &["u8", "bool"]),
        pos_variant("Single", &["String"]),
    ])];
    let p = process(&decls);
    assert_eq!(messages(p.diags), Vec::<String>::new());
    assert_eq!(p.items.len(), 1);
    match &p.items[0] {
        Item::TaggedUnion(vs) => {
            assert_eq!(vs.len(), 3);
            assert_eq!(vs[0].name, "Nothing");
            assert_eq!(vs[0].fields, Vec::<String>::new());
            assert_eq!(vs[1].name, "Pair");
            assert_eq!(vs[1].fields, vec!["u8".to_string(), "bool".to_string()]);
            assert_eq!(vs[2].name, "Single");
            assert_eq!(vs[2].fields, vec!["String".to_string()]);
        }
        other => panic!("expected a tagged union, got {:?}", other),
    }
}

#[test]
fn named_fields_rejected_despite_valid_predecessors() {
    let decls = vec![Decl::TaggedUnion(vec![
        unit_variant("Fine"),
        pos_variant("AlsoFine", &["i32"]),
        named_variant("Bad"),
    ])];
    let p = process(&decls);
    assert_eq!(p.items.len(), 0);
    assert_eq!(messages(p.diags), vec!["variants cannot have named fields".to_string()]);
}

#[test]
fn const_fn_rejected() {
    let mut f = plain_fn("f");
    f.is_const = true;
    let p = process(&vec![Decl::Function(f)]);
    assert_eq!(p.items.len(), 0);
    assert_eq!(messages(p.diags), vec!["type functions cannot be marked const".to_string()]);
}

#[test]
fn async_fn_rejected() {
    let mut f = plain_fn("f");
    f.is_async = true;
    let p = process(&vec![Decl::Function(f)]);
    assert_eq!(p.items.len(), 0);
    assert_eq!(messages(p.diags), vec!["type functions cannot be marked async".to_string()]);
}

#[test]
fn custom_abi_rejected() {
    let mut f = plain_fn("f");
    f.has_custom_abi = true;
    let p = process(&vec![Decl::Function(f)]);
    assert_eq!(p.items.len(), 0);
    assert_eq!(messages(p.diags), vec!["type functions cannot have a custom abi".to_string()]);
}

#[test]
fn variadic_fn_rejected() {
    let mut f = plain_fn("f");
    f.is_variadic = true;
    let p = process(&vec![Decl::Function(f)]);
    assert_eq!(p.items.len(), 0);
    assert_eq!(messages(p.diags), vec!["type functions cannot be variadic".to_string()]);
}

#[test]
fn type_generic_rejected() {
    let mut f = plain_fn("f");
    f.generics = vec![GenericParam::Lifetime, GenericParam::Type];
    let p = process(&vec![Decl::Function(f)]);
    assert_eq!(p.items.len(), 0);
    assert_eq!(
        messages(p.diags),
        vec!["type functions may only be generic over lifetimes".to_string()]
    );
}

#[test]
fn const_generic_rejected() {
    let mut f = plain_fn("f");
    f.generics = vec![GenericParam::Const];
    let p = process(&vec![Decl::Function(f)]);
    assert_eq!(p.items.len(), 0);
    assert_eq!(
        messages(p.diags),
        vec!["type functions may only be generic over lifetimes".to_string()]
    );
}

#[test]
fn lifetime_generics_accepted() {
    let mut f = plain_fn("f");
    f.generics = vec![GenericParam::Lifetime, GenericParam::Lifetime];
    let p = process(&vec![Decl::Function(f)]);
    assert!(p.diags.is_empty());
    assert_eq!(p.items.len(), 1);
}

#[test]
fn simultaneous_violations_reported_together() {
    let mut f = plain_fn("f");
    f.is_const = true;
    f.is_variadic = true;
    let p = process(&vec![Decl::Function(f)]);
    assert_eq!(p.items.len(), 0);
    assert_eq!(
        messages(p.diags),
        vec![
            "type functions cannot be marked const".to_string(),
            "type functions cannot be variadic".to_string(),
        ]
    );
}

#[test]
fn all_five_violations_reported_in_order() {
    let mut f = plain_fn("f");
    f.is_const = true;
    f.is_async = true;
    f.has_custom_abi = true;
    f.is_variadic = true;
    f.generics = vec![GenericParam::Const];
    let buffer = check_signature(&f);
    assert_eq!(
        buffer,
        vec![
            "type functions cannot be marked const".to_string(),
            "type functions cannot be marked async".to_string(),
            "type functions cannot have a custom abi".to_string(),
            "type functions cannot be variadic".to_string(),
            "type functions may only be generic over lifetimes".to_string(),
        ]
    );
}

#[test]
fn batch_stops_at_first_failure() {
    let decls = vec![
        Decl::TaggedUnion(vec![named_variant("Bad")]),
        Decl::TaggedUnion(vec![unit_variant("Fine")]),
        Decl::Function(plain_fn("fine_too")),
    ];
    let p = process(&decls);
    assert_eq!(p.items.len(), 0);
    assert_eq!(messages(p.diags), vec!["variants cannot have named fields".to_string()]);
}

#[test]
fn valid_batch_emits_success() {
    let decls = vec![
        Decl::TaggedUnion(vec![unit_variant("Only")]),
        Decl::Function(plain_fn("f")),
    ];
    assert_eq!(encode(&decls), Outcome::Success);
}

#[test]
fn empty_batch_emits_success() {
    assert_eq!(encode(&Vec::new()), Outcome::Success);
}

#[test]
fn failing_batch_emits_diagnostics() {
    let decls = vec![
        Decl::Other,
        Decl::TaggedUnion(vec![named_variant("Bad")]),
        Decl::Function(plain_fn("unreached")),
    ];
    match encode(&decls) {
        Outcome::Failure(msgs) => {
            assert_eq!(msgs, vec!["variants cannot have named fields".to_string()]);
        }
        Outcome::Success => panic!("expected a failure"),
    }
}

#[test]
fn let_binding_reported_and_signature_still_checked_independently() {
    let mut f = plain_fn("f");
    f.body = vec![StmtDecl::LocalBinding];
    assert_eq!(check_signature(&f), Vec::<String>::new());
    let p = process(&vec![Decl::Function(f)]);
    assert_eq!(messages(p.diags), vec!["let bindings are unimplemented".to_string()]);
    assert_eq!(p.items.len(), 1);
    match &p.items[0] {
        Item::Function(func) => assert_eq!(func.body, Vec::new()),
        other => panic!("expected a function, got {:?}", other),
    }
}

#[test]
fn nested_item_reported() {
    let mut f = plain_fn("f");
    f.body = vec![StmtDecl::NestedItem];
    let p = process(&vec![Decl::Function(f)]);
    assert_eq!(
        messages(p.diags),
        vec!["items cannot be used inside of type functions".to_string()]
    );
    assert_eq!(p.items.len(), 1);
}

#[test]
fn expression_statements_reported() {
    let mut f = plain_fn("f");
    f.body = vec![StmtDecl::Expression, StmtDecl::TrailingExpression];
    let p = process(&vec![Decl::Function(f)]);
    assert_eq!(
        messages(p.diags),
        vec![
            "expression statements are not yet supported".to_string(),
            "expression statements are not yet supported".to_string(),
        ]
    );
}

#[test]
fn body_statements_all_reported_in_order() {
    let mut f = plain_fn("f");
    f.body = vec![StmtDecl::LocalBinding, StmtDecl::NestedItem, StmtDecl::LocalBinding];
    let p = process(&vec![Decl::Function(f)]);
    assert_eq!(
        messages(p.diags),
        vec![
            "let bindings are unimplemented".to_string(),
            "items cannot be used inside of type functions".to_string(),
            "let bindings are unimplemented".to_string(),
        ]
    );
}

#[test]
fn signature_copies_declaration_pieces() {
    let mut f = plain_fn("g");
    f.vis = Visibility::Public;
    f.is_unsafe = true;
    f.ret = Some("u32".to_string());
    let mut diags = DiagnosticSet::new();
    let func = validate_function(&f, &mut diags).expect("a clean signature must be accepted");
    assert!(diags.is_empty());
    assert_eq!(func.sig.vis, Visibility::Public);
    assert_eq!(func.sig.name, "g");
    assert!(func.sig.is_unsafe);
    assert_eq!(
        func.sig.outputs,
        vec![ReturnSlot { name: "Output".to_string(), ty: "u32".to_string() }]
    );
}

#[test]
fn missing_return_type_leaves_outputs_empty() {
    let f = plain_fn("g");
    let mut diags = DiagnosticSet::new();
    let func = validate_function(&f, &mut diags).expect("a clean signature must be accepted");
    assert_eq!(func.sig.outputs, Vec::new());
}

#[test]
fn rejected_union_returns_nothing() {
    let mut diags = DiagnosticSet::new();
    let r = validate_tagged_union(&vec![unit_variant("A"), named_variant("B")], &mut diags);
    assert!(r.is_none());
    assert_eq!(diags.len(), 1);
    assert_eq!(diags.message(0).as_str(), "variants cannot have named fields");
}

#[test]
fn other_declarations_are_skipped_silently() {
    let decls = vec![Decl::Other, Decl::Function(plain_fn("f")), Decl::Other];
    let p = process(&decls);
    assert!(p.diags.is_empty());
    assert_eq!(p.items.len(), 1);
}
