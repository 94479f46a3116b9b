use mergeme::derive::derive_merge;
use mergeme::derive::derive_merge_inner;
use mergeme::mergegen::MergeStrategy;
use mergeme::model::AnnArgs;
use mergeme::model::Annotation;
use mergeme::model::DataKind;
use mergeme::model::DeriveInput;
use mergeme::model::FieldDef;
use mergeme::model::FieldsKind;
use mergeme::model::Span;
use mergeme::utils::DeriveInputWithoutData;

fn sp(lo: usize, hi: usize) -> Span {
    Span { lo, hi }
}

fn list_attr(path: &str, args: &str, lo: usize) -> Annotation {
    let args_lo = lo + 2 + path.len() + 1;
    Annotation {
        path: path.to_string(),
        args: AnnArgs::List(args.to_string()),
        span: sp(lo, args_lo + args.len() + 2),
        args_lo,
    }
}

fn field(name: &str, ty: &str, attrs: Vec<Annotation>, lo: usize) -> FieldDef {
    FieldDef {
        attrs,
        vis: String::new(),
        name: Some(name.to_string()),
        ty: ty.to_string(),
        span: sp(lo, lo + name.len() + 2 + ty.len()),
    }
}

fn input(attrs: Vec<Annotation>, ident: &str, fields: FieldsKind) -> DeriveInput {
    DeriveInput {
        attrs,
        vis: String::new(),
        ident: ident.to_string(),
        generics: String::new(),
        ty_generics: String::new(),
        where_clause: String::new(),
        data: DataKind::Struct(fields),
        span: sp(0, 200),
        vis_span: sp(0, 0),
        ident_span: sp(40, 40 + ident.len()),
        generics_span: sp(0, 0),
    }
}

#[test]
fn simple_struct_expands() {
    let decl = input(
        vec![list_attr("partial", "PartialPerson", 0)],
        "Person",
        FieldsKind::Named(vec![
            field("name", "String", vec![], 50),
            field("age", "u16", vec![], 70),
            field(
                "friends",
                "Vec<String>",
                vec![list_attr("strategy", "merge", 90)],
                110,
            ),
        ]),
    );
    let e = derive_merge_inner(&decl).unwrap();
    assert_eq!(e.partial.name, "PartialPerson");
    assert!(e.partial.metas.is_empty());
    assert_eq!(e.fields.len(), 3);
    assert_eq!(e.ops.len(), 3);
    assert_eq!(e.ops[0].name, "name");
    assert_eq!(e.ops[0].strategy, MergeStrategy::Overwrite);
    assert_eq!(e.ops[1].strategy, MergeStrategy::Overwrite);
    assert_eq!(e.ops[2].name, "friends");
    assert_eq!(e.ops[2].strategy, MergeStrategy::Merge);
    assert_eq!(
        e.merge_impl,
        "impl ::mergeme::Merge<PartialPerson> for Person {\n\
         \x20   fn merge_in_place(&mut self, other: PartialPerson) {\n\
         \x20       if let ::core::option::Option::Some(name) = other.name {\n\
         \x20           self.name = name;\n\
         \x20       }\n\
         \x20       if let ::core::option::Option::Some(age) = other.age {\n\
         \x20           self.age = age;\n\
         \x20       }\n\
         \x20       if let ::core::option::Option::Some(friends) = other.friends {\n\
         \x20           ::mergeme::Merge::merge_in_place(&mut self.friends, friends);\n\
         \x20       }\n\
         \x20   }\n\
         }\n"
    );
    assert_eq!(
        e.partial_decl,
        "struct PartialPerson {\n\
         \x20   name: ::core::option::Option<String>,\n\
         \x20   age: ::core::option::Option<u16>,\n\
         \x20   friends: ::core::option::Option<Vec<String>>,\n\
         }\n"
    );
    let text = derive_merge(&decl);
    let mut expected = e.merge_impl.clone();
    expected.push('\n');
    expected.push_str(&e.partial_decl);
    assert_eq!(text, expected);
}

#[test]
fn explicit_overwrite_strategy_expands() {
    let decl = input(
        vec![list_attr("partial", "PartialConfig", 0)],
        "Config",
        FieldsKind::Named(vec![
            field(
                "name",
                "String",
                vec![list_attr("strategy", "overwrite", 40)],
                60,
            ),
            field("version", "u32", vec![], 80),
            field(
                "dependencies",
                "Vec<String>",
                vec![list_attr("strategy", "merge", 100)],
                120,
            ),
        ]),
    );
    let e = derive_merge_inner(&decl).unwrap();
    assert_eq!(e.ops[0].strategy, MergeStrategy::Overwrite);
    assert_eq!(e.ops[1].strategy, MergeStrategy::Overwrite);
    assert_eq!(e.ops[2].strategy, MergeStrategy::Merge);
}

#[test]
fn passthrough_annotations_propagate() {
    let decl = input(
        vec![list_attr(
            "partial",
            "PartialConfig, derive(Deserialize), serde(deny_unknown_fields)",
            0,
        )],
        "Config",
        FieldsKind::Named(vec![
            field("name", "String", vec![], 80),
            field(
                "version",
                "u32",
                vec![list_attr("partial", "serde(alias = \"v\")", 100)],
                130,
            ),
        ]),
    );
    let e = derive_merge_inner(&decl).unwrap();
    assert_eq!(e.partial.name, "PartialConfig");
    assert_eq!(
        e.partial.metas,
        vec![
            "derive(Deserialize)".to_string(),
            "serde(deny_unknown_fields)".to_string()
        ]
    );
    assert_eq!(e.fields[1].metas, vec!["serde(alias = \"v\")".to_string()]);
    assert_eq!(
        e.partial_decl,
        "#[derive(Deserialize)]\n\
         #[serde(deny_unknown_fields)]\n\
         struct PartialConfig {\n\
         \x20   name: ::core::option::Option<String>,\n\
         \x20   #[serde(alias = \"v\")]\n\
         \x20   version: ::core::option::Option<u32>,\n\
         }\n"
    );
}

#[test]
fn generic_struct_expands() {
    let mut decl = input(
        vec![list_attr("partial", "PartialNamedData", 0)],
        "NamedData",
        FieldsKind::Named(vec![
            field("name", "String", vec![], 60),
            field("data", "T", vec![list_attr("strategy", "merge", 80)], 95),
        ]),
    );
    decl.generics = "<T: Merge<T>>".to_string();
    decl.ty_generics = "<T>".to_string();
    decl.generics_span = sp(49, 62);
    let e = derive_merge_inner(&decl).unwrap();
    assert_eq!(
        e.merge_impl,
        "impl<T: Merge<T>> ::mergeme::Merge<PartialNamedData<T>> for NamedData<T> {\n\
         \x20   fn merge_in_place(&mut self, other: PartialNamedData<T>) {\n\
         \x20       if let ::core::option::Option::Some(name) = other.name {\n\
         \x20           self.name = name;\n\
         \x20       }\n\
         \x20       if let ::core::option::Option::Some(data) = other.data {\n\
         \x20           ::mergeme::Merge::merge_in_place(&mut self.data, data);\n\
         \x20       }\n\
         \x20   }\n\
         }\n"
    );
    assert_eq!(
        e.partial_decl,
        "struct PartialNamedData<T: Merge<T>> {\n\
         \x20   name: ::core::option::Option<String>,\n\
         \x20   data: ::core::option::Option<T>,\n\
         }\n"
    );
}

#[test]
fn where_clause_and_visibility_propagate() {
    let mut decl = input(
        vec![list_attr("partial", "PartialHolder", 0)],
        "Holder",
        FieldsKind::Named(vec![{
            let mut f = field("item", "T", vec![], 60);
            f.vis = "pub".to_string();
            f
        }]),
    );
    decl.vis = "pub".to_string();
    decl.vis_span = sp(30, 33);
    decl.generics = "<T>".to_string();
    decl.ty_generics = "<T>".to_string();
    decl.generics_span = sp(40, 43);
    decl.where_clause = "where T: Clone".to_string();
    let e = derive_merge_inner(&decl).unwrap();
    assert_eq!(
        e.merge_impl,
        "impl<T> ::mergeme::Merge<PartialHolder<T>> for Holder<T> where T: Clone {\n\
         \x20   fn merge_in_place(&mut self, other: PartialHolder<T>) {\n\
         \x20       if let ::core::option::Option::Some(item) = other.item {\n\
         \x20           self.item = item;\n\
         \x20       }\n\
         \x20   }\n\
         }\n"
    );
    assert_eq!(
        e.partial_decl,
        "pub struct PartialHolder<T> where T: Clone {\n\
         \x20   pub item: ::core::option::Option<T>,\n\
         }\n"
    );
}

#[test]
fn unit_struct_expands_trivially() {
    let decl = input(
        vec![list_attr("partial", "PartialConfig", 0)],
        "Config",
        FieldsKind::Unit,
    );
    let e = derive_merge_inner(&decl).unwrap();
    assert!(e.fields.is_empty());
    assert!(e.ops.is_empty());
    assert_eq!(
        e.merge_impl,
        "impl ::mergeme::Merge<PartialConfig> for Config {\n\
         \x20   fn merge_in_place(&mut self, other: PartialConfig) {\n\
         \x20   }\n\
         }\n"
    );
    assert_eq!(e.partial_decl, "struct PartialConfig {\n}\n");
}

#[test]
fn zero_field_struct_expands_trivially() {
    let decl = input(
        vec![list_attr("partial", "PartialEmpty", 0)],
        "Empty",
        FieldsKind::Named(vec![]),
    );
    let e = derive_merge_inner(&decl).unwrap();
    assert!(e.fields.is_empty());
    assert!(e.ops.is_empty());
    assert_eq!(e.partial_decl, "struct PartialEmpty {\n}\n");
}

#[test]
fn directive_arguments_tolerate_whitespace_and_trailing_comma() {
    let decl = input(
        vec![list_attr("partial", "  PartialThing , ", 0)],
        "Thing",
        FieldsKind::Named(vec![field("x", "u8", vec![], 50)]),
    );
    let e = derive_merge_inner(&decl).unwrap();
    assert_eq!(e.partial.name, "PartialThing");
    assert!(e.partial.metas.is_empty());
}

#[test]
fn commas_inside_nested_groups_and_strings_do_not_split() {
    let decl = input(
        vec![list_attr(
            "partial",
            "PartialConfig, derive(Debug, Default), serde(rename = \"a,b\")",
            0,
        )],
        "Config",
        FieldsKind::Named(vec![field("x", "u8", vec![], 90)]),
    );
    let e = derive_merge_inner(&decl).unwrap();
    assert_eq!(
        e.partial.metas,
        vec![
            "derive(Debug, Default)".to_string(),
            "serde(rename = \"a,b\")".to_string()
        ]
    );
}

#[test]
fn escaped_quotes_inside_string_literals_stay_inert() {
    let decl = input(
        vec![list_attr(
            "partial",
            "PartialConfig, serde(rename = \"a\\\",(b\")",
            0,
        )],
        "Config",
        FieldsKind::Named(vec![field("x", "u8", vec![], 90)]),
    );
    let e = derive_merge_inner(&decl).unwrap();
    assert_eq!(
        e.partial.metas,
        vec!["serde(rename = \"a\\\",(b\")".to_string()]
    );
}

#[test]
fn nested_brackets_stay_inert() {
    let decl = input(
        vec![list_attr(
            "partial",
            "PartialConfig, cfg_attr(test, derive(Debug)), doc(alias = \"m\"), serde(bound = \"[T; 4]: Copy, T: Clone\")",
            0,
        )],
        "Config",
        FieldsKind::Named(vec![field("x", "u8", vec![], 120)]),
    );
    let e = derive_merge_inner(&decl).unwrap();
    assert_eq!(e.partial.metas.len(), 3);
    assert_eq!(e.partial.metas[0], "cfg_attr(test, derive(Debug))");
    assert_eq!(e.partial.metas[2], "serde(bound = \"[T; 4]: Copy, T: Clone\")");
}

#[test]
fn empty_field_passthrough_list_adds_nothing() {
    let decl = input(
        vec![list_attr("partial", "PartialConfig", 0)],
        "Config",
        FieldsKind::Named(vec![field(
            "x",
            "u8",
            vec![list_attr("partial", "", 50)],
            70,
        )]),
    );
    let e = derive_merge_inner(&decl).unwrap();
    assert!(e.fields[0].metas.is_empty());
}

#[test]
fn multiple_field_passthrough_directives_accumulate_in_order() {
    let decl = input(
        vec![list_attr("partial", "PartialConfig", 0)],
        "Config",
        FieldsKind::Named(vec![field(
            "x",
            "u8",
            vec![
                list_attr("partial", "serde(default)", 40),
                list_attr("partial", "doc(hidden)", 70),
            ],
            95,
        )]),
    );
    let e = derive_merge_inner(&decl).unwrap();
    assert_eq!(
        e.fields[0].metas,
        vec!["serde(default)".to_string(), "doc(hidden)".to_string()]
    );
}

#[test]
fn last_named_strategy_wins() {
    let decl = input(
        vec![list_attr("partial", "PartialA", 0)],
        "A",
        FieldsKind::Named(vec![
            field(
                "x",
                "Vec<u8>",
                vec![list_attr("strategy", "overwrite, merge", 40)],
                70,
            ),
            field(
                "y",
                "Vec<u8>",
                vec![
                    list_attr("strategy", "merge", 90),
                    list_attr("strategy", "overwrite", 110),
                ],
                130,
            ),
        ]),
    );
    let e = derive_merge_inner(&decl).unwrap();
    assert_eq!(e.ops[0].strategy, MergeStrategy::Merge);
    assert_eq!(e.ops[1].strategy, MergeStrategy::Overwrite);
}

#[test]
fn empty_strategy_list_keeps_default() {
    let decl = input(
        vec![list_attr("partial", "PartialA", 0)],
        "A",
        FieldsKind::Named(vec![field(
            "x",
            "u8",
            vec![list_attr("strategy", " ", 40)],
            60,
        )]),
    );
    let e = derive_merge_inner(&decl).unwrap();
    assert_eq!(e.ops[0].strategy, MergeStrategy::Overwrite);
}

#[test]
fn reduced_presentation_omits_fields() {
    let decl = DeriveInput {
        attrs: vec![list_attr("some_tag", "x", 0)],
        vis: "pub".to_string(),
        ident: "Config".to_string(),
        generics: "<T>".to_string(),
        ty_generics: "<T>".to_string(),
        where_clause: String::new(),
        data: DataKind::Struct(FieldsKind::Named(vec![field("secret", "u8", vec![], 60)])),
        span: sp(0, 100),
        vis_span: sp(20, 23),
        ident_span: sp(31, 37),
        generics_span: sp(37, 40),
    };
    let view = DeriveInputWithoutData(&decl);
    let mut text = String::new();
    view.to_tokens(&mut text);
    assert_eq!(text, "#[some_tag(x)] pub struct Config<T>");
    assert!(!text.contains("secret"));
    let span = view.reduced_span();
    assert_eq!(span.lo, 0);
    assert_eq!(span.hi, 40);
}
