use polyquine::def::{DataShape, FieldDef, FieldsShape, Generics, TypeDef, VariantDef};
use polyquine::quine::{ctor_tokens, Subject, Value};
use polyquine::tokens::{render, Tok};
use polyquine::types::{PathSeg, Ty, TyPath};
use polyquine::util::RawAttr;

fn canon_stream(ts: proc_macro2::TokenStream, out: &mut String) {
    for t in ts {
        match t {
            proc_macro2::TokenTree::Group(g) => {
                let (o, c) = match g.delimiter() {
                    proc_macro2::Delimiter::Parenthesis => ("(", ")"),
                    proc_macro2::Delimiter::Bracket => ("[", "]"),
                    proc_macro2::Delimiter::Brace => ("{", "}"),
                    proc_macro2::Delimiter::None => ("", ""),
                };
                out.push_str(o);
                out.push(' ');
                canon_stream(g.stream(), out);
                out.push_str(c);
                out.push(' ');
            }
            proc_macro2::TokenTree::Punct(p) => {
                out.push(p.as_char());
                out.push(' ');
            }
            other => {
                out.push_str(&other.to_string());
                out.push(' ');
            }
        }
    }
}

// Token-wise normalization: spacing and joint-punct marks do not matter.
fn norm(s: &str) -> String {
    let ts: proc_macro2::TokenStream = s.parse().unwrap();
    let mut out = String::new();
    canon_stream(ts, &mut out);
    out
}

fn ty1(name: &str) -> Ty {
    Ty::Path(TyPath { segs: vec![PathSeg { name: name.to_string(), args: vec![] }] })
}

// The transform expression `|s| "Hello, ".to_string() + s`, as tokens.
fn str_closure_toks() -> Vec<Tok> {
    vec![
        Tok::Punct("|".to_string()),
        Tok::Ident("s".to_string()),
        Tok::Punct("|".to_string()),
        Tok::Str("Hello, ".to_string()),
        Tok::Punct(".".to_string()),
        Tok::Ident("to_string".to_string()),
        Tok::Open(polyquine::tokens::Delim::Paren),
        Tok::Close(polyquine::tokens::Delim::Paren),
        Tok::Punct("+".to_string()),
        Tok::Ident("s".to_string()),
    ]
}

fn test_enum_def() -> TypeDef {
    TypeDef {
        name: "TestEnum".to_string(),
        module_segs: vec![],
        attrs: vec![],
        generics: Generics { params: vec![], preds: vec![] },
        data: DataShape::Enum(vec![
            VariantDef {
                name: "A".to_string(),
                attrs: vec![],
                fields: FieldsShape::Unnamed(vec![
                    FieldDef { name: None, attrs: vec![], ty: ty1("i32") },
                    FieldDef {
                        name: None,
                        attrs: vec![RawAttr {
                            key: "custom_with".to_string(),
                            value: Some(str_closure_toks()),
                        }],
                        ty: ty1("String"),
                    },
                ]),
            },
            VariantDef {
                name: "B".to_string(),
                attrs: vec![],
                fields: FieldsShape::Unnamed(vec![FieldDef {
                    name: None,
                    attrs: vec![RawAttr {
                        key: "custom_with".to_string(),
                        value: Some(vec![
                            Tok::Punct("|".to_string()),
                            Tok::Ident("v".to_string()),
                            Tok::Punct("|".to_string()),
                            Tok::Ident("v".to_string()),
                            Tok::Punct(".".to_string()),
                            Tok::Ident("tokens".to_string()),
                            Tok::Open(polyquine::tokens::Delim::Paren),
                            Tok::Close(polyquine::tokens::Delim::Paren),
                        ]),
                    }],
                    ty: ty1("Untokenizable"),
                }]),
            },
        ]),
    }
}

#[test]
fn test_custom_with_str() {
    // At run time the user transform turned "World" into "Hello, World"; its
    // interpolated form reaches the reconstruction as the transform result.
    let def = test_enum_def();
    let v = Subject::EnumV {
        variant: 0,
        fields: vec![
            Value::Leaf(vec![Tok::Lit("42i32".to_string())]),
            Value::Custom(vec![Tok::Str("Hello, World".to_string())]),
        ],
    };
    let out = norm(&render(&ctor_tokens(&def, &v).unwrap()));
    assert_eq!(out, norm(r#"TestEnum::A(42i32.into(), "Hello, World".into())"#));
}

#[test]
fn test_custom_with_struct() {
    // The transform produced a literal for a type with no reconstruction
    // capability of its own.
    let def = test_enum_def();
    let v = Subject::EnumV {
        variant: 1,
        fields: vec![Value::Custom(vec![
            Tok::Ident("Untokenizable".to_string()),
            Tok::Open(polyquine::tokens::Delim::Brace),
            Tok::Ident("val".to_string()),
            Tok::Punct(":".to_string()),
            Tok::Lit("100i32".to_string()),
            Tok::Close(polyquine::tokens::Delim::Brace),
        ])],
    };
    let out = norm(&render(&ctor_tokens(&def, &v).unwrap()));
    assert_eq!(out, norm(r#"TestEnum::B(Untokenizable { val: 100i32 }.into())"#));
}
