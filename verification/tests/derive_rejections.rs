use mergeme::derive::derive_merge;
use mergeme::derive::derive_merge_inner;
use mergeme::diag::DiagKind;
use mergeme::model::AnnArgs;
use mergeme::model::Annotation;
use mergeme::model::DataKind;
use mergeme::model::DeriveInput;
use mergeme::model::FieldDef;
use mergeme::model::FieldsKind;
use mergeme::model::Span;

fn sp(lo: usize, hi: usize) -> Span {
    Span { lo, hi }
}

fn list_attr(path: &str, args: &str, lo: usize) -> Annotation {
    let args_lo = lo + 2 + path.len() + 1;
    Annotation {
        path: path.to_string(),
        args: AnnArgs::List(args.to_string()),
        span: sp(lo, args_lo + args.len() + 2),
        args_lo,
    }
}

fn bare_attr(path: &str, lo: usize) -> Annotation {
    Annotation {
        path: path.to_string(),
        args: AnnArgs::Bare,
        span: sp(lo, lo + 2 + path.len() + 1),
        args_lo: 0,
    }
}

fn field(name: &str, ty: &str, attrs: Vec<Annotation>, lo: usize) -> FieldDef {
    FieldDef {
        attrs,
        vis: String::new(),
        name: Some(name.to_string()),
        ty: ty.to_string(),
        span: sp(lo, lo + name.len() + 2 + ty.len()),
    }
}

fn input(attrs: Vec<Annotation>, ident: &str, data: DataKind) -> DeriveInput {
    DeriveInput {
        attrs,
        vis: String::new(),
        ident: ident.to_string(),
        generics: String::new(),
        ty_generics: String::new(),
        where_clause: String::new(),
        data,
        span: sp(0, 200),
        vis_span: sp(0, 0),
        ident_span: sp(40, 40 + ident.len()),
        generics_span: sp(0, 0),
    }
}

#[test]
fn enum_declaration_is_rejected() {
    let decl = input(
        vec![list_attr("partial", "PartialChoice", 0)],
        "Choice",
        DataKind::Enum,
    );
    let d = derive_merge_inner(&decl).unwrap_err();
    assert_eq!(d.kind, DiagKind::UnsupportedEnum);
    assert_eq!(d.span, sp(0, 200));
    assert_eq!(
        d.message(),
        "`#[derive(Merge)]` only works on structs, not enums"
    );
}

#[test]
fn union_declaration_is_rejected() {
    let decl = input(
        vec![list_attr("partial", "PartialBits", 0)],
        "Bits",
        DataKind::Union,
    );
    let d = derive_merge_inner(&decl).unwrap_err();
    assert_eq!(d.kind, DiagKind::UnsupportedUnion);
    assert_eq!(
        d.message(),
        "`#[derive(Merge)]` only works on structs, not unions"
    );
}

#[test]
fn tuple_struct_is_rejected() {
    let unnamed = FieldDef {
        attrs: vec![],
        vis: String::new(),
        name: None,
        ty: "bool".to_string(),
        span: sp(55, 59),
    };
    let decl = input(
        vec![list_attr("partial", "PartialConfig", 0)],
        "Config",
        DataKind::Struct(FieldsKind::Unnamed(vec![unnamed])),
    );
    let d = derive_merge_inner(&decl).unwrap_err();
    assert_eq!(d.kind, DiagKind::UnnamedField);
    assert_eq!(d.span, sp(55, 59));
    assert_eq!(
        d.message(),
        "`#[derive(Merge)]` does not support tuple `struct`s"
    );
}

#[test]
fn missing_partial_directive_is_rejected_at_reduced_span() {
    let decl = input(
        vec![],
        "Config",
        DataKind::Struct(FieldsKind::Named(vec![
            field("name", "String", vec![], 60),
            field("dependencies", "Vec<String>", vec![], 80),
        ])),
    );
    let d = derive_merge_inner(&decl).unwrap_err();
    assert_eq!(d.kind, DiagKind::MissingPartial);
    assert_eq!(d.span, sp(40, 46));
    assert_eq!(d.message(), "expected `#[partial(...)]`");
    assert_eq!(
        derive_merge(&decl),
        "::core::compile_error! { \"expected `#[partial(...)]`\" }\n"
    );
}

#[test]
fn field_level_partial_does_not_satisfy_the_struct_requirement() {
    let decl = input(
        vec![],
        "Config",
        DataKind::Struct(FieldsKind::Named(vec![
            field(
                "name",
                "String",
                vec![list_attr("partial", "PartialConfig", 50)],
                70,
            ),
            field("dependencies", "Vec<String>", vec![], 90),
        ])),
    );
    let d = derive_merge_inner(&decl).unwrap_err();
    assert_eq!(d.kind, DiagKind::MissingPartial);
}

#[test]
fn two_partial_directives_are_rejected_at_the_second() {
    let decl = input(
        vec![
            list_attr("partial", "PartialConfig1", 0),
            list_attr("partial", "PartialConfig2", 25),
        ],
        "Config",
        DataKind::Struct(FieldsKind::Named(vec![field("name", "String", vec![], 60)])),
    );
    let d = derive_merge_inner(&decl).unwrap_err();
    assert_eq!(d.kind, DiagKind::MultiplePartial);
    assert_eq!(d.span, list_attr("partial", "PartialConfig2", 25).span);
    assert_eq!(
        d.message(),
        "multiple `#[partial(...)]` attributes on the struct is disallowed"
    );
}

#[test]
fn unknown_strategy_is_rejected_at_the_identifier() {
    let decl = input(
        vec![list_attr("partial", "PartialDog", 0)],
        "Dog",
        DataKind::Struct(FieldsKind::Named(vec![
            field("name", "String", vec![], 50),
            field("age", "u16", vec![list_attr("strategy", "add", 70)], 95),
        ])),
    );
    let d = derive_merge_inner(&decl).unwrap_err();
    assert_eq!(d.kind, DiagKind::UnknownStrategy);
    let args_lo = 70 + 2 + "strategy".len() + 1;
    assert_eq!(d.span, sp(args_lo, args_lo + 3));
    assert_eq!(
        d.message(),
        "expected `#[strategy(overwrite)]` or `#[strategy(merge)]`"
    );
    assert_eq!(
        derive_merge(&decl),
        "::core::compile_error! { \"expected `#[strategy(overwrite)]` or `#[strategy(merge)]`\" }\n"
    );
}

#[test]
fn non_identifier_partial_name_is_rejected() {
    let decl = input(
        vec![list_attr("partial", "123abc", 0)],
        "Config",
        DataKind::Struct(FieldsKind::Named(vec![field("name", "String", vec![], 60)])),
    );
    let d = derive_merge_inner(&decl).unwrap_err();
    assert_eq!(d.kind, DiagKind::MalformedPartialArgs);
    let args_lo = 2 + "partial".len() + 1;
    assert_eq!(d.span, sp(args_lo, args_lo + 6));
}

#[test]
fn empty_partial_arguments_are_rejected() {
    let a = list_attr("partial", "", 0);
    let attr_span = a.span;
    let decl = input(
        vec![a],
        "Config",
        DataKind::Struct(FieldsKind::Named(vec![field("name", "String", vec![], 60)])),
    );
    let d = derive_merge_inner(&decl).unwrap_err();
    assert_eq!(d.kind, DiagKind::MalformedPartialArgs);
    assert_eq!(d.span, attr_span);
}

#[test]
fn bare_partial_directive_is_rejected() {
    let a = bare_attr("partial", 0);
    let attr_span = a.span;
    let decl = input(
        vec![a],
        "Config",
        DataKind::Struct(FieldsKind::Named(vec![field("name", "String", vec![], 60)])),
    );
    let d = derive_merge_inner(&decl).unwrap_err();
    assert_eq!(d.kind, DiagKind::MalformedPartialArgs);
    assert_eq!(d.span, attr_span);
}

#[test]
fn unbalanced_partial_arguments_are_rejected() {
    let a = list_attr("partial", "PartialConfig, derive(", 0);
    let attr_span = a.span;
    let decl = input(
        vec![a],
        "Config",
        DataKind::Struct(FieldsKind::Named(vec![field("name", "String", vec![], 60)])),
    );
    let d = derive_merge_inner(&decl).unwrap_err();
    assert_eq!(d.kind, DiagKind::MalformedPartialArgs);
    assert_eq!(d.span, attr_span);
}

#[test]
fn doubled_comma_in_partial_arguments_is_rejected() {
    let decl = input(
        vec![list_attr("partial", "PartialConfig,,derive(Default)", 0)],
        "Config",
        DataKind::Struct(FieldsKind::Named(vec![field("name", "String", vec![], 60)])),
    );
    let d = derive_merge_inner(&decl).unwrap_err();
    assert_eq!(d.kind, DiagKind::MalformedPartialArgs);
}

#[test]
fn bare_strategy_directive_is_rejected() {
    let a = bare_attr("strategy", 70);
    let attr_span = a.span;
    let decl = input(
        vec![list_attr("partial", "PartialDog", 0)],
        "Dog",
        DataKind::Struct(FieldsKind::Named(vec![field("age", "u16", vec![a], 95)])),
    );
    let d = derive_merge_inner(&decl).unwrap_err();
    assert_eq!(d.kind, DiagKind::MalformedStrategyArgs);
    assert_eq!(d.span, attr_span);
    assert_eq!(
        d.message(),
        "expected `#[strategy(...)]` to contain a comma-separated list of strategy names"
    );
}

#[test]
fn malformed_field_passthrough_is_rejected_before_strategies() {
    let bad = list_attr("partial", "serde(", 50);
    let bad_span = bad.span;
    let decl = input(
        vec![list_attr("partial", "PartialConfig", 0)],
        "Config",
        DataKind::Struct(FieldsKind::Named(vec![
            field("name", "String", vec![list_attr("strategy", "add", 30)], 45),
            field("version", "u32", vec![bad], 70),
        ])),
    );
    let d = derive_merge_inner(&decl).unwrap_err();
    assert_eq!(d.kind, DiagKind::MalformedPartialArgs);
    assert_eq!(d.span, bad_span);
}

#[test]
fn strategy_error_on_earlier_field_wins_within_the_merge_stage() {
    let decl = input(
        vec![list_attr("partial", "PartialDog", 0)],
        "Dog",
        DataKind::Struct(FieldsKind::Named(vec![
            field("name", "String", vec![list_attr("strategy", "add", 30)], 45),
            field("age", "u16", vec![list_attr("strategy", "subtract", 60)], 80),
        ])),
    );
    let d = derive_merge_inner(&decl).unwrap_err();
    assert_eq!(d.kind, DiagKind::UnknownStrategy);
    let args_lo = 30 + 2 + "strategy".len() + 1;
    assert_eq!(d.span, sp(args_lo, args_lo + 3));
}
