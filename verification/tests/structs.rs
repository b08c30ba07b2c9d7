use polyquine::def::{DataShape, FieldDef, FieldsShape, Generics, TypeDef};
use polyquine::quine::{ctor_tokens, Subject, Value};
use polyquine::tokens::{render, Tok};
use polyquine::types::{GenArg, PathSeg, Ty, TyPath};
use polyquine::util::RawAttr;

fn canon_stream(ts: proc_macro2::TokenStream, out: &mut String) {
    for t in ts {
        match t {
            proc_macro2::TokenTree::Group(g) => {
                let (o, c) = match g.delimiter() {
                    proc_macro2::Delimiter::Parenthesis => ("(", ")"),
                    proc_macro2::Delimiter::Bracket => ("[", "]"),
                    proc_macro2::Delimiter::Brace => ("{", "}"),
                    proc_macro2::Delimiter::None => ("", ""),
                };
                out.push_str(o);
                out.push(' ');
                canon_stream(g.stream(), out);
                out.push_str(c);
                out.push(' ');
            }
            proc_macro2::TokenTree::Punct(p) => {
                out.push(p.as_char());
                out.push(' ');
            }
            other => {
                out.push_str(&other.to_string());
                out.push(' ');
            }
        }
    }
}

// Token-wise normalization: spacing and joint-punct marks do not matter.
fn norm(s: &str) -> String {
    let ts: proc_macro2::TokenStream = s.parse().unwrap();
    let mut out = String::new();
    canon_stream(ts, &mut out);
    out
}

fn ty(segs: &[&str], args: Vec<Ty>) -> Ty {
    let mut ps: Vec<PathSeg> = segs
        .iter()
        .map(|s| PathSeg { name: (*s).to_string(), args: vec![] })
        .collect();
    let n = ps.len();
    ps[n - 1].args = args.into_iter().map(GenArg::TyArg).collect();
    Ty::Path(TyPath { segs: ps })
}

fn field(name: &str, t: Ty) -> FieldDef {
    FieldDef { name: Some(name.to_string()), attrs: vec![], ty: t }
}

fn field_recursive(name: &str, t: Ty) -> FieldDef {
    FieldDef {
        name: Some(name.to_string()),
        attrs: vec![RawAttr { key: "recursive".to_string(), value: None }],
        ty: t,
    }
}

fn sdef(name: &str, data: DataShape) -> TypeDef {
    TypeDef {
        name: name.to_string(),
        module_segs: vec![],
        attrs: vec![],
        generics: Generics { params: vec![], preds: vec![] },
        data,
    }
}

fn lit(s: &str) -> Value {
    Value::Leaf(vec![Tok::Lit(s.to_string())])
}

fn strv(s: &str) -> Value {
    Value::Leaf(vec![Tok::Str(s.to_string())])
}

fn rec(def: &TypeDef, v: &Subject) -> String {
    norm(&render(&ctor_tokens(def, v).unwrap()))
}

fn basic_def() -> TypeDef {
    sdef(
        "Basic",
        DataShape::Struct(FieldsShape::Named(vec![
            field("id", ty(&["i32"], vec![])),
            field("name", ty(&["String"], vec![])),
        ])),
    )
}

#[test]
fn test_struct_basic() {
    let def = basic_def();
    let v = Subject::StructV(vec![lit("42i32"), strv("Hello")]);
    assert_eq!(rec(&def, &v), norm(r#"Basic { id: 42i32.into(), name: "Hello".into() }"#));
}

#[test]
fn test_struct_basic_unnamed() {
    let def = sdef(
        "BasicUnnamed",
        DataShape::Struct(FieldsShape::Unnamed(vec![
            FieldDef { name: None, attrs: vec![], ty: ty(&["i32"], vec![]) },
            FieldDef { name: None, attrs: vec![], ty: ty(&["String"], vec![]) },
        ])),
    );
    let v = Subject::StructV(vec![lit("100i32"), strv("Unnamed")]);
    assert_eq!(rec(&def, &v), norm(r#"BasicUnnamed(100i32.into(), "Unnamed".into())"#));
}

#[test]
fn test_struct_unit() {
    let def = sdef("Unit", DataShape::Struct(FieldsShape::Unit));
    let v = Subject::StructV(vec![]);
    assert_eq!(rec(&def, &v), norm("Unit {}"));
}

#[test]
fn test_unit_struct() {
    let def = sdef("TestUnitStruct", DataShape::Struct(FieldsShape::Unit));
    let v = Subject::StructV(vec![]);
    assert_eq!(rec(&def, &v), norm("TestUnitStruct {}"));
}

fn recursive_def() -> TypeDef {
    sdef(
        "Recursive",
        DataShape::Struct(FieldsShape::Named(vec![
            field("leaf", ty(&["i32"], vec![])),
            field_recursive(
                "inner",
                ty(&["Option"], vec![ty(&["Box"], vec![ty(&["Recursive"], vec![])])]),
            ),
        ])),
    )
}

#[test]
fn test_struct_recursive() {
    let def = recursive_def();
    let level3 = ctor_tokens(
        &def,
        &Subject::StructV(vec![lit("3i32"), Value::OptV(None)]),
    )
    .unwrap();
    let level2 = ctor_tokens(
        &def,
        &Subject::StructV(vec![
            lit("2i32"),
            Value::OptV(Some(Box::new(Value::BoxV(Box::new(Value::Leaf(level3)))))),
        ]),
    )
    .unwrap();
    let v = Subject::StructV(vec![
        lit("1i32"),
        Value::OptV(Some(Box::new(Value::BoxV(Box::new(Value::Leaf(level2)))))),
    ]);
    assert_eq!(
        rec(&def, &v),
        norm(
            r#"Recursive { leaf: 1i32.into(), inner: Some(Box::new(Recursive { leaf: 2i32.into(), inner: Some(Box::new(Recursive { leaf: 3i32.into(), inner: None }.into())) }.into())) }"#
        )
    );
}

#[test]
fn test_struct_basic_vec() {
    let def = sdef(
        "BasicVec",
        DataShape::Struct(FieldsShape::Named(vec![field(
            "items",
            ty(&["Vec"], vec![ty(&["Basic"], vec![])]),
        )])),
    );
    let item1 = ctor_tokens(
        &basic_def(),
        &Subject::StructV(vec![lit("1i32"), strv("Item1")]),
    )
    .unwrap();
    let item2 = ctor_tokens(
        &basic_def(),
        &Subject::StructV(vec![lit("2i32"), strv("Item2")]),
    )
    .unwrap();
    let v = Subject::StructV(vec![Value::SeqV(vec![
        Value::Leaf(item1),
        Value::Leaf(item2),
    ])]);
    assert_eq!(
        rec(&def, &v),
        norm(
            r#"BasicVec { items: vec![Basic { id: 1i32.into(), name: "Item1".into() }.into(), Basic { id: 2i32.into(), name: "Item2".into() }.into()] }"#
        )
    );
}

fn tree_node_def() -> TypeDef {
    sdef(
        "TreeNode",
        DataShape::Struct(FieldsShape::Named(vec![
            field("value", ty(&["i32"], vec![])),
            field_recursive("children", ty(&["Vec"], vec![ty(&["TreeNode"], vec![])])),
        ])),
    )
}

#[test]
fn test_struct_tree_node() {
    let def = tree_node_def();
    let n2 = ctor_tokens(
        &def,
        &Subject::StructV(vec![lit("2i32"), Value::SeqV(vec![])]),
    )
    .unwrap();
    let n4 = ctor_tokens(
        &def,
        &Subject::StructV(vec![lit("4i32"), Value::SeqV(vec![])]),
    )
    .unwrap();
    let n3 = ctor_tokens(
        &def,
        &Subject::StructV(vec![lit("3i32"), Value::SeqV(vec![Value::Leaf(n4)])]),
    )
    .unwrap();
    let v = Subject::StructV(vec![
        lit("1i32"),
        Value::SeqV(vec![Value::Leaf(n2), Value::Leaf(n3)]),
    ]);
    assert_eq!(
        rec(&def, &v),
        norm(
            r#"TreeNode { value: 1i32.into(), children: vec![TreeNode { value: 2i32.into(), children: vec![] }.into(), TreeNode { value: 3i32.into(), children: vec![TreeNode { value: 4i32.into(), children: vec![] }.into()] }.into()] }"#
        )
    );
}
