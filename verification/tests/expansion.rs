use polyquine::def::{DataShape, FieldDef, FieldsShape, Generics, TypeDef, VariantDef};
use polyquine::diag::Diag;
use polyquine::expand;
use polyquine::fields::{expand_field, field_plan, type_wrapper, TypeWrapper};
use polyquine::quine::{ctor_tokens, ctor_value, Subject, Value};
use polyquine::tokens::{dec_string, render, Delim, Tok};
use polyquine::types::{GenArg, PathSeg, Ty, TyPath};
use polyquine::util::{add_bounds, parse_attrs, Attrs, RawAttr};

fn canon_stream(ts: proc_macro2::TokenStream, out: &mut String) {
    for t in ts {
        match t {
            proc_macro2::TokenTree::Group(g) => {
                let (o, c) = match g.delimiter() {
                    proc_macro2::Delimiter::Parenthesis => ("(", ")"),
                    proc_macro2::Delimiter::Bracket => ("[", "]"),
                    proc_macro2::Delimiter::Brace => ("{", "}"),
                    proc_macro2::Delimiter::None => ("", ""),
                };
                out.push_str(o);
                out.push(' ');
                canon_stream(g.stream(), out);
                out.push_str(c);
                out.push(' ');
            }
            proc_macro2::TokenTree::Punct(p) => {
                out.push(p.as_char());
                out.push(' ');
            }
            other => {
                out.push_str(&other.to_string());
                out.push(' ');
            }
        }
    }
}

// Token-wise normalization: spacing and joint-punct marks do not matter.
fn norm(s: &str) -> String {
    let ts: proc_macro2::TokenStream = s.parse().unwrap();
    let mut out = String::new();
    canon_stream(ts, &mut out);
    out
}

fn ty(segs: &[&str], args: Vec<Ty>) -> Ty {
    let mut ps: Vec<PathSeg> = segs
        .iter()
        .map(|s| PathSeg { name: (*s).to_string(), args: vec![] })
        .collect();
    let n = ps.len();
    ps[n - 1].args = args.into_iter().map(GenArg::TyArg).collect();
    Ty::Path(TyPath { segs: ps })
}

fn field(name: &str, t: Ty) -> FieldDef {
    FieldDef { name: Some(name.to_string()), attrs: vec![], ty: t }
}

fn sdef(name: &str, data: DataShape) -> TypeDef {
    TypeDef {
        name: name.to_string(),
        module_segs: vec![],
        attrs: vec![],
        generics: Generics { params: vec![], preds: vec![] },
        data,
    }
}

fn flag(key: &str) -> RawAttr {
    RawAttr { key: key.to_string(), value: None }
}

#[test]
fn test_expand_basic_struct_impl() {
    let def = sdef(
        "Basic",
        DataShape::Struct(FieldsShape::Named(vec![
            field("id", ty(&["i32"], vec![])),
            field("name", ty(&["String"], vec![])),
        ])),
    );
    let mut diags: Vec<Diag> = Vec::new();
    let out = expand(&def, &mut diags).unwrap();
    assert!(diags.is_empty());
    assert_eq!(
        norm(&render(&out)),
        norm(
            r#"#[automatically_derived] #[allow(non_snake_case)]
            impl ::quote::ToTokens for Basic where i32: ::quote::ToTokens, String: ::quote::ToTokens {
                fn to_tokens(&self, tokens: &mut ::proc_macro2::TokenStream) {
                    let id = &self.id;
                    let name = &self.name;
                    tokens.extend(::quote::quote! { Basic { id: #id.into(), name: #name.into() } });
                }
            }"#
        )
    );
}

#[test]
fn test_expand_field_option_box() {
    let t = ty(&["Option"], vec![ty(&["Box"], vec![ty(&["i32"], vec![])])]);
    let mut diags: Vec<Diag> = Vec::new();
    let plan = expand_field(&t, "value", &mut diags);
    assert!(diags.is_empty());
    assert_eq!(norm(&render(&plan.exp)), norm("#value_option"));
    assert_eq!(
        norm(&render(&plan.top)),
        norm(
            r#"let value_option = match value {
                Some(value_option_val) => { ::quote::quote! { Some(Box::new(#value_option_val.into())) } },
                None => ::quote::quote! { None },
            };"#
        )
    );
}

#[test]
fn test_expand_field_vec() {
    let t = ty(&["Vec"], vec![ty(&["i32"], vec![])]);
    let mut diags: Vec<Diag> = Vec::new();
    let plan = expand_field(&t, "items", &mut diags);
    assert!(diags.is_empty());
    assert_eq!(norm(&render(&plan.exp)), norm("vec![#(#items_vec_like),*]"));
    assert_eq!(
        norm(&render(&plan.top)),
        norm(
            r#"let items_vec_like = items.iter().map(|items_vec_like_item: &i32| {
                ::quote::quote! { #items_vec_like_item.into() }
            }).collect::<Vec<_>>();"#
        )
    );
}

#[test]
fn test_expand_field_map() {
    let t = ty(&["HashMap"], vec![ty(&["String"], vec![]), ty(&["i32"], vec![])]);
    let mut diags: Vec<Diag> = Vec::new();
    let plan = expand_field(&t, "m", &mut diags);
    assert!(diags.is_empty());
    assert_eq!(
        norm(&render(&plan.exp)),
        norm("HashMap::<String, i32>::from([#(#m_map),*])")
    );
    assert_eq!(
        norm(&render(&plan.top)),
        norm(
            r#"let m_map = m.iter().map(|(m_map_key, m_map_value)| {
                ::quote::quote! { (#m_map_key.into(), #m_map_value.into()) }
            }).collect::<Vec<_>>();"#
        )
    );
}

#[test]
fn test_expand_field_cell_warns_about_aliasing() {
    let t = ty(&["Cell"], vec![ty(&["i32"], vec![])]);
    let mut diags: Vec<Diag> = Vec::new();
    let plan = expand_field(&t, "c", &mut diags);
    assert_eq!(diags.len(), 1);
    assert!(matches!(&diags[0], Diag::CellAliasing { .. }));
    assert!(diags[0].text().contains("will effectively clone its value"));
    assert_eq!(norm(&render(&plan.exp)), norm("Cell::<i32>::new(#c_cell.into())"));
    assert_eq!(norm(&render(&plan.top)), norm("let c_cell = c.clone().into_inner();"));
}

#[test]
fn test_expand_field_rc_warns_about_aliasing() {
    let t = ty(&["Rc"], vec![ty(&["i32"], vec![])]);
    let mut diags: Vec<Diag> = Vec::new();
    let plan = expand_field(&t, "r", &mut diags);
    assert_eq!(diags.len(), 1);
    assert!(matches!(&diags[0], Diag::SharedAliasing { .. }));
    assert_eq!(norm(&render(&plan.exp)), norm("Rc::<i32>::new(#r_arc.into())"));
    assert_eq!(norm(&render(&plan.top)), norm("let r_arc = r.as_ref();"));
}

#[test]
fn test_expand_field_tuple() {
    let t = Ty::Tuple(vec![ty(&["i32"], vec![]), ty(&["bool"], vec![])]);
    let mut diags: Vec<Diag> = Vec::new();
    let plan = expand_field(&t, "t", &mut diags);
    assert!(diags.is_empty());
    assert_eq!(norm(&render(&plan.exp)), norm("(#t_tuple_0.into(), #t_tuple_1.into())"));
    assert_eq!(
        norm(&render(&plan.top)),
        norm("let t_tuple_0 = &t.0; let t_tuple_1 = &t.1;")
    );
}

#[test]
fn test_field_plan_custom_bypasses_shape() {
    // The declared type would normally classify as a sequence; with a
    // custom transform the plan never consults it.
    let t = ty(&["Vec"], vec![ty(&["i32"], vec![])]);
    let attrs = Attrs {
        recursive: false,
        custom_with: Some(vec![
            Tok::Punct("|".to_string()),
            Tok::Ident("s".to_string()),
            Tok::Punct("|".to_string()),
            Tok::Ident("s".to_string()),
        ]),
        skip: false,
        path_prefix: None,
    };
    let mut diags: Vec<Diag> = Vec::new();
    let plan = field_plan(&t, "x", &attrs, &mut diags);
    assert!(diags.is_empty());
    assert_eq!(norm(&render(&plan.exp)), norm("#x_custom.into()"));
    assert_eq!(norm(&render(&plan.top)), norm("let x_custom = (|s| s)(x);"));
}

#[test]
fn test_classifier_wrong_arity_degrades() {
    let t = ty(&["HashMap"], vec![ty(&["i32"], vec![])]);
    let mut diags: Vec<Diag> = Vec::new();
    let w = type_wrapper(&t, &mut diags);
    assert!(w.is_none());
    assert_eq!(diags.len(), 1);
    assert!(matches!(&diags[0], Diag::WrongArity { .. }));
    assert_eq!(diags[0].text(), "Invalid number of type arguments for: HashMap");
}

#[test]
fn test_classifier_by_name_only() {
    // Classification is purely syntactic: an unrelated type that happens to
    // be called Vec is treated as a sequence.
    let t = ty(&["my", "Vec"], vec![ty(&["i32"], vec![])]);
    let mut diags: Vec<Diag> = Vec::new();
    assert!(matches!(type_wrapper(&t, &mut diags), Some(TypeWrapper::Iterable(..))));
    let v = Value::SeqV(vec![Value::Leaf(vec![Tok::Lit("7i32".to_string())])]);
    let out = ctor_value(&t, &v).unwrap();
    assert_eq!(norm(&render(&out)), norm("vec![7i32.into()]"));
}

#[test]
fn test_classifier_shapes() {
    let mut diags: Vec<Diag> = Vec::new();
    assert!(matches!(
        type_wrapper(&ty(&["Option"], vec![ty(&["i32"], vec![])]), &mut diags),
        Some(TypeWrapper::Option(_))
    ));
    assert!(matches!(
        type_wrapper(&ty(&["i32"], vec![]), &mut diags),
        Some(TypeWrapper::OtherPathZero(_))
    ));
    assert!(matches!(
        type_wrapper(&Ty::Tuple(vec![ty(&["i32"], vec![]), ty(&["bool"], vec![])]), &mut diags),
        Some(TypeWrapper::Tuple(_))
    ));
    assert!(matches!(
        type_wrapper(&ty(&["std", "rc", "Rc"], vec![ty(&["i32"], vec![])]), &mut diags),
        Some(TypeWrapper::ArcLike(..))
    ));
    assert!(diags.is_empty());
}

#[test]
fn test_parse_attrs_defaults() {
    let a = parse_attrs(&vec![]).unwrap();
    assert!(!a.recursive);
    assert!(!a.skip);
    assert!(a.custom_with.is_none());
    assert!(a.path_prefix.is_none());
}

#[test]
fn test_parse_attrs_duplicate_path_prefix() {
    let p = RawAttr {
        key: "path_prefix".to_string(),
        value: Some(vec![Tok::Ident("m".to_string())]),
    };
    let p2 = RawAttr {
        key: "path_prefix".to_string(),
        value: Some(vec![Tok::Ident("n".to_string())]),
    };
    assert!(matches!(parse_attrs(&vec![p, p2]), Err(Diag::DuplicatePathPrefix)));
}

#[test]
fn test_parse_attrs_unknown_key() {
    assert!(matches!(parse_attrs(&vec![flag("shiny")]), Err(Diag::UnknownAttr { .. })));
}

#[test]
fn test_parse_attrs_malformed_custom_with() {
    assert!(matches!(
        parse_attrs(&vec![flag("custom_with")]),
        Err(Diag::MalformedAttr { .. })
    ));
}

#[test]
fn test_parse_attrs_duplicate_flag() {
    assert!(matches!(
        parse_attrs(&vec![flag("recursive"), flag("recursive")]),
        Err(Diag::DuplicateAttr { .. })
    ));
}

#[test]
fn test_parse_attrs_path_prefix() {
    let p = RawAttr {
        key: "path_prefix".to_string(),
        value: Some(vec![
            Tok::Ident("crate".to_string()),
            Tok::Punct("::".to_string()),
            Tok::Ident("some_module".to_string()),
        ]),
    };
    let a = parse_attrs(&vec![p]).unwrap();
    let names = a.path_prefix.unwrap();
    assert_eq!(names.len(), 2);
    assert_eq!(names[0], "crate");
    assert_eq!(names[1], "some_module");
}

#[test]
fn test_path_prefix_overrides_qualified_name() {
    let mut def = sdef("SomeStruct", DataShape::Struct(FieldsShape::Unit));
    def.module_segs = vec!["private".to_string()];
    // Without a prefix the module path qualifies the name.
    let out = ctor_tokens(&def, &Subject::StructV(vec![])).unwrap();
    assert_eq!(norm(&render(&out)), norm("private::SomeStruct {}"));
    // The prefix overrides it entirely.
    def.attrs = vec![RawAttr {
        key: "path_prefix".to_string(),
        value: Some(vec![
            Tok::Ident("crate".to_string()),
            Tok::Punct("::".to_string()),
            Tok::Ident("some_module".to_string()),
        ]),
    }];
    let out = ctor_tokens(&def, &Subject::StructV(vec![])).unwrap();
    assert_eq!(norm(&render(&out)), norm("crate::some_module::SomeStruct {}"));
}

fn tree_def(recursive_children: bool) -> TypeDef {
    let children = FieldDef {
        name: Some("children".to_string()),
        attrs: if recursive_children { vec![flag("recursive")] } else { vec![] },
        ty: ty(&["Vec"], vec![ty(&["TreeNode"], vec![])]),
    };
    sdef(
        "TreeNode",
        DataShape::Struct(FieldsShape::Named(vec![
            field("value", ty(&["i32"], vec![])),
            children,
        ])),
    )
}

#[test]
fn test_add_bounds_respects_recursive_optout() {
    let bound = vec![Tok::Ident("Reconstruct".to_string())];
    // With the opt-out, only the plain leaf is constrained.
    let preds = add_bounds(&tree_def(true), &bound).unwrap();
    assert_eq!(preds.len(), 1);
    assert_eq!(norm(&render(&preds[0].subject)), norm("i32"));
    assert_eq!(norm(&render(&preds[0].bound)), norm("Reconstruct"));
    // Without it, the self-referential leaf type is constrained too.
    let preds = add_bounds(&tree_def(false), &bound).unwrap();
    assert_eq!(preds.len(), 2);
    assert_eq!(norm(&render(&preds[0].subject)), norm("i32"));
    assert_eq!(norm(&render(&preds[1].subject)), norm("TreeNode"));
}

#[test]
fn test_add_bounds_dedups_leaves() {
    let def = sdef(
        "Pair",
        DataShape::Struct(FieldsShape::Named(vec![
            field("a", ty(&["i32"], vec![])),
            field("b", ty(&["i32"], vec![])),
            field("c", ty(&["bool"], vec![])),
        ])),
    );
    let bound = vec![Tok::Ident("Reconstruct".to_string())];
    let preds = add_bounds(&def, &bound).unwrap();
    assert_eq!(preds.len(), 2);
    assert_eq!(norm(&render(&preds[0].subject)), norm("i32"));
    assert_eq!(norm(&render(&preds[1].subject)), norm("bool"));
}

fn skip_enum_def() -> TypeDef {
    sdef(
        "MyEnum",
        DataShape::Enum(vec![
            VariantDef {
                name: "Plain".to_string(),
                attrs: vec![],
                fields: FieldsShape::Unnamed(vec![FieldDef {
                    name: None,
                    attrs: vec![],
                    ty: ty(&["i32"], vec![]),
                }]),
            },
            VariantDef {
                name: "Hidden".to_string(),
                attrs: vec![flag("skip")],
                fields: FieldsShape::Unnamed(vec![FieldDef {
                    name: None,
                    attrs: vec![],
                    ty: ty(&["i32"], vec![]),
                }]),
            },
        ]),
    )
}

#[test]
fn test_skip_variant_expands_to_failing_arm() {
    let def = skip_enum_def();
    let mut diags: Vec<Diag> = Vec::new();
    let out = render(&expand(&def, &mut diags).unwrap());
    assert!(out.contains("panic"));
    assert!(out.contains("Attempted to call ctor_tokens() on skipped enum variant MyEnum::Hidden"));
}

#[test]
fn test_skip_variant_fails_at_runtime() {
    let def = skip_enum_def();
    let v = Subject::EnumV {
        variant: 1,
        fields: vec![Value::Leaf(vec![Tok::Lit("5i32".to_string())])],
    };
    let e = ctor_tokens(&def, &v).unwrap_err();
    assert!(matches!(&e, Diag::SkippedVariant { .. }));
    assert_eq!(
        e.text(),
        "Attempted to call ctor_tokens() on skipped enum variant MyEnum::Hidden"
    );
}

#[test]
fn test_skip_leaves_other_variants_alone() {
    let def = skip_enum_def();
    let v = Subject::EnumV {
        variant: 0,
        fields: vec![Value::Leaf(vec![Tok::Lit("5i32".to_string())])],
    };
    let out = ctor_tokens(&def, &v).unwrap();
    assert_eq!(norm(&render(&out)), norm("MyEnum::Plain(5i32.into())"));
}

#[test]
fn test_union_is_rejected() {
    let def = sdef("U", DataShape::Union);
    let mut diags: Vec<Diag> = Vec::new();
    let e = expand(&def, &mut diags).unwrap_err();
    assert!(matches!(&e, Diag::UnionUnsupported));
    assert_eq!(e.text(), "unions are not supported");
}

#[test]
fn test_named_field_without_name_is_rejected() {
    let def = sdef(
        "Bad",
        DataShape::Struct(FieldsShape::Named(vec![FieldDef {
            name: None,
            attrs: vec![],
            ty: ty(&["i32"], vec![]),
        }])),
    );
    let mut diags: Vec<Diag> = Vec::new();
    let e = expand(&def, &mut diags).unwrap_err();
    assert!(matches!(&e, Diag::MissingFieldName));
}

#[test]
fn test_value_shape_mismatch_is_rejected() {
    let def = sdef(
        "Basic",
        DataShape::Struct(FieldsShape::Named(vec![
            field("id", ty(&["i32"], vec![])),
            field("name", ty(&["String"], vec![])),
        ])),
    );
    let v = Subject::StructV(vec![Value::Leaf(vec![Tok::Lit("1i32".to_string())])]);
    assert!(matches!(ctor_tokens(&def, &v), Err(Diag::ShapeMismatch)));
    let v = Subject::EnumV { variant: 0, fields: vec![] };
    assert!(matches!(ctor_tokens(&def, &v), Err(Diag::ShapeMismatch)));
}

#[test]
fn test_render_escapes_string_literals() {
    let toks = vec![Tok::Str("a\"b\\c".to_string())];
    assert_eq!(render(&toks), "\"a\\\"b\\\\c\" ");
}

#[test]
fn test_render_delimiters() {
    let toks = vec![
        Tok::Ident("f".to_string()),
        Tok::Open(Delim::Paren),
        Tok::Lit("1".to_string()),
        Tok::Close(Delim::Paren),
    ];
    assert_eq!(render(&toks), "f ( 1 ) ");
}

#[test]
fn test_dec_string() {
    assert_eq!(dec_string(0), "0");
    assert_eq!(dec_string(7), "7");
    assert_eq!(dec_string(10), "10");
    assert_eq!(dec_string(90217), "90217");
}

#[test]
fn test_dropped_generic_argument_reports() {
    let t = Ty::Path(TyPath {
        segs: vec![PathSeg {
            name: "Wrapper".to_string(),
            args: vec![
                GenArg::OtherArg(vec![Tok::Punct("'".to_string()), Tok::Ident("a".to_string())]),
                GenArg::TyArg(ty(&["i32"], vec![])),
            ],
        }],
    });
    let mut diags: Vec<Diag> = Vec::new();
    let w = type_wrapper(&t, &mut diags);
    assert!(matches!(w, Some(TypeWrapper::OtherPathOne(..))));
    assert_eq!(diags.len(), 1);
    assert!(matches!(&diags[0], Diag::DroppedGenericArg));
}
