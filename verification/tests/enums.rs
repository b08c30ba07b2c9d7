use polyquine::def::{DataShape, FieldDef, FieldsShape, Generics, TypeDef, VariantDef};
use polyquine::quine::{ctor_tokens, Subject, Value};
use polyquine::tokens::{render, Tok};
use polyquine::types::{GenArg, PathSeg, Ty, TyPath};
use polyquine::util::RawAttr;

fn canon_stream(ts: proc_macro2::TokenStream, out: &mut String) {
    for t in ts {
        match t {
            proc_macro2::TokenTree::Group(g) => {
                let (o, c) = match g.delimiter() {
                    proc_macro2::Delimiter::Parenthesis => ("(", ")"),
                    proc_macro2::Delimiter::Bracket => ("[", "]"),
                    proc_macro2::Delimiter::Brace => ("{", "}"),
                    proc_macro2::Delimiter::None => ("", ""),
                };
                out.push_str(o);
                out.push(' ');
                canon_stream(g.stream(), out);
                out.push_str(c);
                out.push(' ');
            }
            proc_macro2::TokenTree::Punct(p) => {
                out.push(p.as_char());
                out.push(' ');
            }
            other => {
                out.push_str(&other.to_string());
                out.push(' ');
            }
        }
    }
}

// Token-wise normalization: spacing and joint-punct marks do not matter.
fn norm(s: &str) -> String {
    let ts: proc_macro2::TokenStream = s.parse().unwrap();
    let mut out = String::new();
    canon_stream(ts, &mut out);
    out
}

fn ty(segs: &[&str], args: Vec<Ty>) -> Ty {
    let mut ps: Vec<PathSeg> = segs
        .iter()
        .map(|s| PathSeg { name: (*s).to_string(), args: vec![] })
        .collect();
    let n = ps.len();
    ps[n - 1].args = args.into_iter().map(GenArg::TyArg).collect();
    Ty::Path(TyPath { segs: ps })
}

fn pos_field(t: Ty) -> FieldDef {
    FieldDef { name: None, attrs: vec![], ty: t }
}

fn pos_field_recursive(t: Ty) -> FieldDef {
    FieldDef {
        name: None,
        attrs: vec![RawAttr { key: "recursive".to_string(), value: None }],
        ty: t,
    }
}

fn named_field(name: &str, t: Ty) -> FieldDef {
    FieldDef { name: Some(name.to_string()), attrs: vec![], ty: t }
}

fn variant(name: &str, fields: FieldsShape) -> VariantDef {
    VariantDef { name: name.to_string(), attrs: vec![], fields }
}

fn lit(s: &str) -> Value {
    Value::Leaf(vec![Tok::Lit(s.to_string())])
}

fn strv(s: &str) -> Value {
    Value::Leaf(vec![Tok::Str(s.to_string())])
}

fn test_enum_def() -> TypeDef {
    TypeDef {
        name: "TestEnum".to_string(),
        module_segs: vec![],
        attrs: vec![],
        generics: Generics { params: vec![], preds: vec![] },
        data: DataShape::Enum(vec![
            variant("Unit", FieldsShape::Unit),
            variant(
                "Basic",
                FieldsShape::Unnamed(vec![
                    pos_field(ty(&["i32"], vec![])),
                    pos_field(ty(&["String"], vec![])),
                ]),
            ),
            variant(
                "IntVec",
                FieldsShape::Unnamed(vec![pos_field(ty(&["Vec"], vec![ty(&["i32"], vec![])]))]),
            ),
            variant(
                "IntVec2D",
                FieldsShape::Unnamed(vec![pos_field(
                    ty(&["Vec"], vec![ty(&["Vec"], vec![ty(&["i32"], vec![])])]),
                )]),
            ),
            variant(
                "Recursive",
                FieldsShape::Unnamed(vec![pos_field_recursive(
                    ty(&["Box"], vec![ty(&["TestEnum"], vec![])]),
                )]),
            ),
            variant(
                "Option",
                FieldsShape::Unnamed(vec![pos_field(
                    ty(&["Option"], vec![ty(&["i32"], vec![])]),
                )]),
            ),
            variant(
                "RecursiveVecOption",
                FieldsShape::Unnamed(vec![pos_field_recursive(
                    ty(&["Vec"], vec![ty(&["Option"], vec![ty(&["TestEnum"], vec![])])]),
                )]),
            ),
            variant(
                "BasicNamed",
                FieldsShape::Named(vec![
                    named_field("id", ty(&["i32"], vec![])),
                    named_field("name", ty(&["String"], vec![])),
                ]),
            ),
            variant(
                "RecursiveNamed",
                FieldsShape::Named(vec![
                    named_field("name", ty(&["Vec"], vec![ty(&["String"], vec![])])),
                    FieldDef {
                        name: Some("inner".to_string()),
                        attrs: vec![RawAttr { key: "recursive".to_string(), value: None }],
                        ty: ty(&["Box"], vec![ty(&["TestEnum"], vec![])]),
                    },
                ]),
            ),
            variant(
                "IntVecDeque",
                FieldsShape::Unnamed(vec![pos_field(
                    ty(&["VecDeque"], vec![ty(&["i32"], vec![])]),
                )]),
            ),
            variant(
                "IntSet",
                FieldsShape::Unnamed(vec![pos_field(
                    ty(&["std", "collections", "HashSet"], vec![ty(&["i32"], vec![])]),
                )]),
            ),
            variant(
                "BasicTuple",
                FieldsShape::Unnamed(vec![
                    pos_field(ty(&["i32"], vec![])),
                    pos_field(Ty::Tuple(vec![ty(&["String"], vec![]), ty(&["f64"], vec![])])),
                ]),
            ),
            variant(
                "NestedTuple",
                FieldsShape::Unnamed(vec![
                    pos_field(ty(&["i32"], vec![])),
                    pos_field(Ty::Tuple(vec![
                        ty(&["String"], vec![]),
                        Ty::Tuple(vec![
                            ty(&["Vec"], vec![ty(&["i32"], vec![])]),
                            ty(&["bool"], vec![]),
                        ]),
                    ])),
                ]),
            ),
            variant(
                "BasicHashMap",
                FieldsShape::Unnamed(vec![pos_field(ty(
                    &["std", "collections", "HashMap"],
                    vec![ty(&["String"], vec![]), ty(&["i32"], vec![])],
                ))]),
            ),
            variant(
                "BasicArc",
                FieldsShape::Unnamed(vec![pos_field(
                    ty(&["std", "sync", "Arc"], vec![ty(&["i32"], vec![])]),
                )]),
            ),
            variant(
                "BasicCell",
                FieldsShape::Unnamed(vec![pos_field(
                    ty(&["std", "cell", "Cell"], vec![ty(&["i32"], vec![])]),
                )]),
            ),
            variant(
                "BasicRefCell",
                FieldsShape::Unnamed(vec![pos_field(
                    ty(&["std", "cell", "RefCell"], vec![ty(&["i32"], vec![])]),
                )]),
            ),
            variant(
                "BasicRc",
                FieldsShape::Unnamed(vec![pos_field(
                    ty(&["std", "rc", "Rc"], vec![ty(&["i32"], vec![])]),
                )]),
            ),
        ]),
    }
}

fn rec(variant_idx: usize, fields: Vec<Value>) -> String {
    let def = test_enum_def();
    let v = Subject::EnumV { variant: variant_idx, fields };
    norm(&render(&ctor_tokens(&def, &v).unwrap()))
}

#[test]
fn test_enum_unit() {
    assert_eq!(rec(0, vec![]), norm("TestEnum::Unit"));
}

#[test]
fn test_enum_basic() {
    assert_eq!(
        rec(1, vec![lit("42i32"), strv("Hello")]),
        norm(r#"TestEnum::Basic(42i32.into(), "Hello".into())"#)
    );
}

#[test]
fn test_enum_int_vec() {
    assert_eq!(
        rec(2, vec![Value::SeqV(vec![lit("1i32"), lit("2i32"), lit("3i32")])]),
        norm("TestEnum::IntVec(vec![1i32.into(), 2i32.into(), 3i32.into()])")
    );
}

#[test]
fn test_enum_int_vec_2d() {
    assert_eq!(
        rec(
            3,
            vec![Value::SeqV(vec![
                Value::SeqV(vec![lit("1i32"), lit("2i32")]),
                Value::SeqV(vec![lit("3i32"), lit("4i32")]),
            ])]
        ),
        norm(
            "TestEnum::IntVec2D(vec![vec![1i32.into(), 2i32.into()], vec![3i32.into(), 4i32.into()]])"
        )
    );
}

#[test]
fn test_enum_recursive() {
    let inner = ctor_tokens(
        &test_enum_def(),
        &Subject::EnumV { variant: 1, fields: vec![lit("100i32"), strv("Nested")] },
    )
    .unwrap();
    assert_eq!(
        rec(4, vec![Value::BoxV(Box::new(Value::Leaf(inner)))]),
        norm(r#"TestEnum::Recursive(Box::new(TestEnum::Basic(100i32.into(), "Nested".into()).into()))"#)
    );
}

#[test]
fn test_enum_option_some() {
    assert_eq!(
        rec(5, vec![Value::OptV(Some(Box::new(lit("42i32"))))]),
        norm("TestEnum::Option(Some(42i32.into()))")
    );
}

#[test]
fn test_enum_option_none() {
    assert_eq!(rec(5, vec![Value::OptV(None)]), norm("TestEnum::Option(None)"));
}

#[test]
fn test_enum_recursive_vec_option() {
    let inner = ctor_tokens(
        &test_enum_def(),
        &Subject::EnumV { variant: 1, fields: vec![lit("200i32"), strv("Inner")] },
    )
    .unwrap();
    assert_eq!(
        rec(
            6,
            vec![Value::SeqV(vec![
                Value::OptV(Some(Box::new(Value::Leaf(inner)))),
                Value::OptV(None),
            ])]
        ),
        norm(
            r#"TestEnum::RecursiveVecOption(vec![Some(TestEnum::Basic(200i32.into(), "Inner".into()).into()), None])"#
        )
    );
}

#[test]
fn test_enum_basic_named() {
    assert_eq!(
        rec(7, vec![lit("1i32"), strv("Test")]),
        norm(r#"TestEnum::BasicNamed { id: 1i32.into(), name: "Test".into() }"#)
    );
}

#[test]
fn test_enum_recursive_named() {
    let inner = ctor_tokens(
        &test_enum_def(),
        &Subject::EnumV { variant: 1, fields: vec![lit("300i32"), strv("Inner Named")] },
    )
    .unwrap();
    assert_eq!(
        rec(
            8,
            vec![
                Value::SeqV(vec![strv("Outer"), strv("Named")]),
                Value::BoxV(Box::new(Value::Leaf(inner))),
            ]
        ),
        norm(
            r#"TestEnum::RecursiveNamed {
                name: vec!["Outer".into(), "Named".into()],
                inner: Box::new(TestEnum::Basic(300i32.into(), "Inner Named".into()).into())
            }"#
        )
    );
}

#[test]
fn test_enum_int_vec_deque() {
    assert_eq!(
        rec(9, vec![Value::SeqV(vec![lit("1i32"), lit("2i32"), lit("3i32")])]),
        norm("TestEnum::IntVecDeque(VecDeque::<i32>::from([1i32.into(), 2i32.into(), 3i32.into()]))")
    );
}

#[test]
fn test_enum_int_set() {
    assert_eq!(
        rec(10, vec![Value::SeqV(vec![lit("1i32")])]),
        norm("TestEnum::IntSet(std::collections::HashSet::<i32>::from([1i32.into()]))")
    );
}

#[test]
fn test_enum_basic_tuple() {
    assert_eq!(
        rec(11, vec![lit("42i32"), Value::TupleV(vec![strv("Hello"), lit("3.14f64")])]),
        norm(r#"TestEnum::BasicTuple(42i32.into(), ("Hello".into(), 3.14f64.into()))"#)
    );
}

#[test]
fn test_enum_nested_tuple() {
    assert_eq!(
        rec(
            12,
            vec![
                lit("42i32"),
                Value::TupleV(vec![
                    strv("World"),
                    Value::TupleV(vec![
                        Value::SeqV(vec![lit("1i32"), lit("2i32")]),
                        lit("true"),
                    ]),
                ]),
            ]
        ),
        norm(
            r#"TestEnum::NestedTuple(42i32.into(), ("World".into(), (vec![1i32.into(), 2i32.into()], true.into())))"#
        )
    );
}

#[test]
fn test_enum_hash_map() {
    assert_eq!(
        rec(13, vec![Value::MapV(vec![(strv("key1"), lit("10i32"))])]),
        norm(
            r#"TestEnum::BasicHashMap(std::collections::HashMap::<String, i32>::from([
                ("key1".into(), 10i32.into())
            ]))"#
        )
    );
}

#[test]
fn test_enum_basic_arc() {
    assert_eq!(
        rec(14, vec![Value::RcV(Box::new(lit("42i32")))]),
        norm("TestEnum::BasicArc(std::sync::Arc::<i32>::new(42i32.into()))")
    );
}

#[test]
fn test_enum_basic_cell() {
    assert_eq!(
        rec(15, vec![Value::CellV(Box::new(lit("42i32")))]),
        norm("TestEnum::BasicCell(std::cell::Cell::<i32>::new(42i32.into()))")
    );
}

#[test]
fn test_enum_basic_ref_cell() {
    assert_eq!(
        rec(16, vec![Value::CellV(Box::new(lit("42i32")))]),
        norm("TestEnum::BasicRefCell(std::cell::RefCell::<i32>::new(42i32.into()))")
    );
}

#[test]
fn test_enum_basic_rc() {
    assert_eq!(
        rec(17, vec![Value::RcV(Box::new(lit("42i32")))]),
        norm("TestEnum::BasicRc(std::rc::Rc::<i32>::new(42i32.into()))")
    );
}
