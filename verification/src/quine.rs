//! Reconstruction of values: the runtime half of the derived capability.
//!
//! A `Value` describes a runtime value of the subject type in the same shape
//! vocabulary the classifier uses.  `ctor_tokens` pairs it with the type
//! definition and produces the constructor expression that the generated
//! implementation would emit for that value.

use vstd::prelude::*;

use crate::def::{FieldDefM, FieldsShapeM, TypeDef, TypeDefM, VariantDefM};
use crate::diag::{Diag, DiagM};
use crate::fields::{classify, TypeWrapper, TypeWrapperM};
use crate::structs::comma_join;
use crate::tokens::{Delim, Tok, TokM};
use crate::types::{names_toks, Ty, TyM};
use crate::util::{parse_attrs_spec, AttrsM};

verus! {

/// A runtime value, described structurally.  A `Leaf` carries the token form
/// that the value's own reconstruction produces; a `Custom` carries what the
/// user transform of a `custom_with` field produced.
pub enum Value {
    Leaf(Vec<Tok>),
    Custom(Vec<Tok>),
    BoxV(Box<Value>),
    OptV(Option<Box<Value>>),
    SeqV(Vec<Value>),
    MapV(Vec<(Value, Value)>),
    CellV(Box<Value>),
    RcV(Box<Value>),
    TupleV(Vec<Value>),
}

/// Mathematical model of `Value`.
pub enum ValueM {
    Leaf(Seq<TokM>),
    Custom(Seq<TokM>),
    BoxV(Box<ValueM>),
    OptV(Option<Box<ValueM>>),
    SeqV(Seq<ValueM>),
    MapV(Seq<(ValueM, ValueM)>),
    CellV(Box<ValueM>),
    RcV(Box<ValueM>),
    TupleV(Seq<ValueM>),
}

pub open spec fn view_values(s: Seq<Value>) -> Seq<ValueM>
    decreases s,
{
    if s.len() == 0 {
        Seq::empty()
    } else {
        view_values(s.drop_last()) + seq![view_value(s.last())]
    }
}

pub open spec fn view_entries(s: Seq<(Value, Value)>) -> Seq<(ValueM, ValueM)>
    decreases s,
{
    if s.len() == 0 {
        Seq::empty()
    } else {
        view_entries(s.drop_last()) + seq![
            (view_value(s.last().0), view_value(s.last().1)),
        ]
    }
}

pub open spec fn view_value(v: Value) -> ValueM
    decreases v,
{
    match v {
        Value::Leaf(t) => ValueM::Leaf(t.deep_view()),
        Value::Custom(t) => ValueM::Custom(t.deep_view()),
        Value::BoxV(b) => ValueM::BoxV(Box::new(view_value(*b))),
        Value::OptV(o) => ValueM::OptV(
            match o {
                Some(b) => Some(Box::new(view_value(*b))),
                None => None,
            },
        ),
        Value::SeqV(s) => ValueM::SeqV(view_values(s@)),
        Value::MapV(s) => ValueM::MapV(view_entries(s@)),
        Value::CellV(b) => ValueM::CellV(Box::new(view_value(*b))),
        Value::RcV(b) => ValueM::RcV(Box::new(view_value(*b))),
        Value::TupleV(s) => ValueM::TupleV(view_values(s@)),
    }
}

impl DeepView for Value {
    type V = ValueM;

    open spec fn deep_view(&self) -> ValueM {
        view_value(*self)
    }
}

/// The element-wise view of a value list.
pub proof fn lemma_view_values_index(s: Seq<Value>)
    ensures
        view_values(s).len() == s.len(),
        forall|i: int| 0 <= i < s.len() ==> view_values(s)[i] == view_value(s[i]),
    decreases s,
{
    if s.len() > 0 {
        lemma_view_values_index(s.drop_last());
    }
}

/// The element-wise view of an entry list.
pub proof fn lemma_view_entries_index(s: Seq<(Value, Value)>)
    ensures
        view_entries(s).len() == s.len(),
        forall|i: int|
            0 <= i < s.len() ==> view_entries(s)[i] == (
                view_value(s[i].0),
                view_value(s[i].1),
            ),
    decreases s,
{
    if s.len() > 0 {
        lemma_view_entries_index(s.drop_last());
    }
}

/// `. into ( )`: the conversion every leaf and custom fragment goes through.
pub open spec fn into_suffix() -> Seq<TokM> {
    seq![
        TokM::Punct("."@),
        TokM::Ident("into"@),
        TokM::Open(Delim::Paren),
        TokM::Close(Delim::Paren),
    ]
}

/// The constructor expression of one value against its declared type,
/// following the same classification the expander uses.  A value whose shape
/// does not fit the type is rejected.
pub open spec fn ctor_toks(t: TyM, v: ValueM) -> Result<Seq<TokM>, DiagM>
    decreases v, 0nat,
{
    match classify(t) {
        Some(TypeWrapperM::Box(inner)) => match v {
            ValueM::BoxV(b) => match ctor_toks(inner, *b) {
                Err(e) => Err(e),
                Ok(r) => Ok(
                    seq![
                        TokM::Ident("Box"@),
                        TokM::Punct("::"@),
                        TokM::Ident("new"@),
                        TokM::Open(Delim::Paren),
                    ] + r + seq![TokM::Close(Delim::Paren)],
                ),
            },
            _ => Err(DiagM::ShapeMismatch),
        },
        Some(TypeWrapperM::Option(inner)) => match v {
            ValueM::OptV(None) => Ok(seq![TokM::Ident("None"@)]),
            ValueM::OptV(Some(b)) => match ctor_toks(inner, *b) {
                Err(e) => Err(e),
                Ok(r) => Ok(
                    seq![TokM::Ident("Some"@), TokM::Open(Delim::Paren)] + r + seq![
                        TokM::Close(Delim::Paren),
                    ],
                ),
            },
            _ => Err(DiagM::ShapeMismatch),
        },
        Some(TypeWrapperM::Iterable(inner, cp)) => match v {
            ValueM::SeqV(vs) => match ctor_list(inner, vs) {
                Err(e) => Err(e),
                Ok(frags) => {
                    if cp.segs.last() == "Vec"@ {
                        Ok(
                            seq![
                                TokM::Ident("vec"@),
                                TokM::Punct("!"@),
                                TokM::Open(Delim::Bracket),
                            ] + comma_join(frags) + seq![TokM::Close(Delim::Bracket)],
                        )
                    } else {
                        Ok(
                            crate::types::ctor_path_toks(cp) + seq![
                                TokM::Punct("::"@),
                                TokM::Ident("from"@),
                                TokM::Open(Delim::Paren),
                                TokM::Open(Delim::Bracket),
                            ] + comma_join(frags) + seq![
                                TokM::Close(Delim::Bracket),
                                TokM::Close(Delim::Paren),
                            ],
                        )
                    }
                },
            },
            _ => Err(DiagM::ShapeMismatch),
        },
        Some(TypeWrapperM::MapLike(kt, vt, cp)) => match v {
            ValueM::MapV(es) => match ctor_entries(kt, vt, es) {
                Err(e) => Err(e),
                Ok(frags) => Ok(
                    crate::types::ctor_path_toks(cp) + seq![
                        TokM::Punct("::"@),
                        TokM::Ident("from"@),
                        TokM::Open(Delim::Paren),
                        TokM::Open(Delim::Bracket),
                    ] + comma_join(frags) + seq![
                        TokM::Close(Delim::Bracket),
                        TokM::Close(Delim::Paren),
                    ],
                ),
            },
            _ => Err(DiagM::ShapeMismatch),
        },
        Some(TypeWrapperM::CellLike(inner, cp)) => match v {
            ValueM::CellV(b) => match ctor_toks(inner, *b) {
                Err(e) => Err(e),
                Ok(r) => Ok(
                    crate::types::ctor_path_toks(cp) + seq![
                        TokM::Punct("::"@),
                        TokM::Ident("new"@),
                        TokM::Open(Delim::Paren),
                    ] + r + seq![TokM::Close(Delim::Paren)],
                ),
            },
            _ => Err(DiagM::ShapeMismatch),
        },
        Some(TypeWrapperM::ArcLike(inner, cp)) => match v {
            ValueM::RcV(b) => match ctor_toks(inner, *b) {
                Err(e) => Err(e),
                Ok(r) => Ok(
                    crate::types::ctor_path_toks(cp) + seq![
                        TokM::Punct("::"@),
                        TokM::Ident("new"@),
                        TokM::Open(Delim::Paren),
                    ] + r + seq![TokM::Close(Delim::Paren)],
                ),
            },
            _ => Err(DiagM::ShapeMismatch),
        },
        Some(TypeWrapperM::Tuple(ts)) => match v {
            ValueM::TupleV(vs) => {
                if ts.len() != vs.len() {
                    Err(DiagM::ShapeMismatch)
                } else {
                    match ctor_zip(ts, vs) {
                        Err(e) => Err(e),
                        Ok(frags) => Ok(
                            seq![TokM::Open(Delim::Paren)] + comma_join(frags) + seq![
                                TokM::Close(Delim::Paren),
                            ],
                        ),
                    }
                }
            },
            _ => Err(DiagM::ShapeMismatch),
        },
        _ => match v {
            ValueM::Leaf(toks) => Ok(toks + into_suffix()),
            _ => Err(DiagM::ShapeMismatch),
        },
    }
}

/// The constructor fragments of a homogeneous element list.
pub open spec fn ctor_list(t: TyM, vs: Seq<ValueM>) -> Result<Seq<Seq<TokM>>, DiagM>
    decreases vs, 1nat,
{
    if vs.len() == 0 {
        Ok(Seq::empty())
    } else {
        match ctor_toks(t, vs[0]) {
            Err(e) => Err(e),
            Ok(r) => match ctor_list(t, vs.drop_first()) {
                Err(e) => Err(e),
                Ok(rest) => Ok(seq![r] + rest),
            },
        }
    }
}

/// The `(key, value)` fragments of a map's entries.
pub open spec fn ctor_entries(kt: TyM, vt: TyM, es: Seq<(ValueM, ValueM)>) -> Result<
    Seq<Seq<TokM>>,
    DiagM,
>
    decreases es, 1nat,
{
    if es.len() == 0 {
        Ok(Seq::empty())
    } else {
        match ctor_toks(kt, es[0].0) {
            Err(e) => Err(e),
            Ok(kr) => match ctor_toks(vt, es[0].1) {
                Err(e) => Err(e),
                Ok(vr) => match ctor_entries(kt, vt, es.drop_first()) {
                    Err(e) => Err(e),
                    Ok(rest) => Ok(
                        seq![
                            seq![TokM::Open(Delim::Paren)] + kr + seq![TokM::Punct(","@)] + vr
                                + seq![TokM::Close(Delim::Paren)],
                        ] + rest,
                    ),
                },
            },
        }
    }
}

/// The fragments of a tuple's positions, pairing each type with its value.
pub open spec fn ctor_zip(ts: Seq<TyM>, vs: Seq<ValueM>) -> Result<Seq<Seq<TokM>>, DiagM>
    decreases vs, 1nat,
{
    if vs.len() == 0 {
        Ok(Seq::empty())
    } else if ts.len() == 0 {
        Err(DiagM::ShapeMismatch)
    } else {
        match ctor_toks(ts[0], vs[0]) {
            Err(e) => Err(e),
            Ok(r) => match ctor_zip(ts.drop_first(), vs.drop_first()) {
                Err(e) => Err(e),
                Ok(rest) => Ok(seq![r] + rest),
            },
        }
    }
}

/// The constructor fragment of one field's value, honouring `custom_with`:
/// a custom field's value must be the transform result, spliced and
/// converted; any other field follows its declared type.
pub open spec fn field_ctor_spec(f: FieldDefM, v: ValueM) -> Result<Seq<TokM>, DiagM> {
    match parse_attrs_spec(f.attrs) {
        Err(e) => Err(e),
        Ok(a) => {
            if a.custom_with is Some {
                match v {
                    ValueM::Custom(toks) => Ok(toks + into_suffix()),
                    _ => Err(DiagM::ShapeMismatch),
                }
            } else {
                ctor_toks(f.ty, v)
            }
        },
    }
}

/// The `name: fragment` pieces of a named field list.
pub open spec fn named_ctors(s: Seq<FieldDefM>, vs: Seq<ValueM>) -> Result<Seq<Seq<TokM>>, DiagM>
    decreases vs.len(),
{
    if vs.len() == 0 {
        Ok(Seq::empty())
    } else if s.len() == 0 {
        Err(DiagM::ShapeMismatch)
    } else {
        match s[0].name {
            None => Err(DiagM::MissingFieldName),
            Some(nm) => match field_ctor_spec(s[0], vs[0]) {
                Err(e) => Err(e),
                Ok(r) => match named_ctors(s.drop_first(), vs.drop_first()) {
                    Err(e) => Err(e),
                    Ok(rest) => Ok(
                        seq![seq![TokM::Ident(nm), TokM::Punct(":"@)] + r] + rest,
                    ),
                },
            },
        }
    }
}

/// The fragments of a positional field list.
pub open spec fn unnamed_ctors(s: Seq<FieldDefM>, vs: Seq<ValueM>) -> Result<Seq<Seq<TokM>>, DiagM>
    decreases vs.len(),
{
    if vs.len() == 0 {
        Ok(Seq::empty())
    } else if s.len() == 0 {
        Err(DiagM::ShapeMismatch)
    } else {
        match field_ctor_spec(s[0], vs[0]) {
            Err(e) => Err(e),
            Ok(r) => match unnamed_ctors(s.drop_first(), vs.drop_first()) {
                Err(e) => Err(e),
                Ok(rest) => Ok(seq![r] + rest),
            },
        }
    }
}

/// The constructor expression of a struct value.
pub open spec fn struct_ctor_spec(qpath: Seq<Seq<char>>, fs: FieldsShapeM, vs: Seq<ValueM>) -> Result<
    Seq<TokM>,
    DiagM,
> {
    match fs {
        FieldsShapeM::Unit => {
            if vs.len() == 0 {
                Ok(
                    names_toks(qpath) + seq![TokM::Open(Delim::Brace), TokM::Close(Delim::Brace)],
                )
            } else {
                Err(DiagM::ShapeMismatch)
            }
        },
        FieldsShapeM::Named(s) => {
            if s.len() != vs.len() {
                Err(DiagM::ShapeMismatch)
            } else {
                match named_ctors(s, vs) {
                    Err(e) => Err(e),
                    Ok(frags) => Ok(
                        names_toks(qpath) + seq![TokM::Open(Delim::Brace)] + comma_join(frags)
                            + seq![TokM::Close(Delim::Brace)],
                    ),
                }
            }
        },
        FieldsShapeM::Unnamed(s) => {
            if s.len() != vs.len() {
                Err(DiagM::ShapeMismatch)
            } else {
                match unnamed_ctors(s, vs) {
                    Err(e) => Err(e),
                    Ok(frags) => Ok(
                        names_toks(qpath) + seq![TokM::Open(Delim::Paren)] + comma_join(frags)
                            + seq![TokM::Close(Delim::Paren)],
                    ),
                }
            }
        },
    }
}

/// The constructor expression of one enum variant's value.  A skipped variant
/// fails, naming the type and variant; a custom arm's behaviour is user code
/// and cannot be interpreted here.
pub open spec fn variant_ctor_spec(
    ename: Seq<char>,
    qpath: Seq<Seq<char>>,
    vd: VariantDefM,
    vs: Seq<ValueM>,
) -> Result<Seq<TokM>, DiagM> {
    match parse_attrs_spec(vd.attrs) {
        Err(e) => Err(e),
        Ok(a) => {
            if a.skip {
                Err(DiagM::SkippedVariant { ty: ename, variant: vd.name })
            } else if a.custom_with is Some {
                Err(DiagM::CustomArmOpaque { ty: ename, variant: vd.name })
            } else {
                match vd.fields {
                    FieldsShapeM::Unit => {
                        if vs.len() == 0 {
                            Ok(names_toks(qpath) + seq![TokM::Punct("::"@), TokM::Ident(vd.name)])
                        } else {
                            Err(DiagM::ShapeMismatch)
                        }
                    },
                    FieldsShapeM::Named(s) => {
                        if s.len() != vs.len() {
                            Err(DiagM::ShapeMismatch)
                        } else {
                            match named_ctors(s, vs) {
                                Err(e) => Err(e),
                                Ok(frags) => Ok(
                                    names_toks(qpath) + seq![
                                        TokM::Punct("::"@),
                                        TokM::Ident(vd.name),
                                        TokM::Open(Delim::Brace),
                                    ] + comma_join(frags) + seq![TokM::Close(Delim::Brace)],
                                ),
                            }
                        }
                    },
                    FieldsShapeM::Unnamed(s) => {
                        if s.len() != vs.len() {
                            Err(DiagM::ShapeMismatch)
                        } else {
                            match unnamed_ctors(s, vs) {
                                Err(e) => Err(e),
                                Ok(frags) => Ok(
                                    names_toks(qpath) + seq![
                                        TokM::Punct("::"@),
                                        TokM::Ident(vd.name),
                                        TokM::Open(Delim::Paren),
                                    ] + comma_join(frags) + seq![TokM::Close(Delim::Paren)],
                                ),
                            }
                        }
                    },
                }
            }
        },
    }
}

/// A value of the subject type itself: its fields, or its variant and that
/// variant's fields.
pub enum Subject {
    StructV(Vec<Value>),
    EnumV { variant: usize, fields: Vec<Value> },
}

/// Mathematical model of `Subject`.
pub enum SubjectM {
    StructV(Seq<ValueM>),
    EnumV { variant: nat, fields: Seq<ValueM> },
}

impl DeepView for Subject {
    type V = SubjectM;

    open spec fn deep_view(&self) -> SubjectM {
        match self {
            Subject::StructV(vs) => SubjectM::StructV(view_values(vs@)),
            Subject::EnumV { variant, fields } => SubjectM::EnumV {
                variant: *variant as nat,
                fields: view_values(fields@),
            },
        }
    }
}

/// The reconstructing expression of a whole value of the subject type.
pub open spec fn ctor_tokens_spec(d: TypeDefM, v: SubjectM) -> Result<Seq<TokM>, DiagM> {
    match parse_attrs_spec(d.attrs) {
        Err(e) => Err(e),
        Ok(a) => {
            let qpath = crate::qpath_of(d, a);
            match d.data {
                crate::def::DataShapeM::Union => Err(DiagM::UnionUnsupported),
                crate::def::DataShapeM::Struct(fs) => match v {
                    SubjectM::StructV(vs) => struct_ctor_spec(qpath, fs, vs),
                    _ => Err(DiagM::ShapeMismatch),
                },
                crate::def::DataShapeM::Enum(variants) => match v {
                    SubjectM::EnumV { variant, fields } => {
                        if variant >= variants.len() {
                            Err(DiagM::ShapeMismatch)
                        } else {
                            variant_ctor_spec(d.name, qpath, variants[variant as int], fields)
                        }
                    },
                    _ => Err(DiagM::ShapeMismatch),
                },
            }
        },
    }
}

/// A value and its model are the same constructor.
proof fn lemma_view_variant(v: Value)
    ensures
        (view_value(v) is Leaf <==> v is Leaf),
        (view_value(v) is Custom <==> v is Custom),
        (view_value(v) is BoxV <==> v is BoxV),
        (view_value(v) is OptV <==> v is OptV),
        (view_value(v) is SeqV <==> v is SeqV),
        (view_value(v) is MapV <==> v is MapV),
        (view_value(v) is CellV <==> v is CellV),
        (view_value(v) is RcV <==> v is RcV),
        (view_value(v) is TupleV <==> v is TupleV),
{
    match v {
        Value::Leaf(_) => {},
        Value::Custom(_) => {},
        Value::BoxV(_) => {},
        Value::OptV(_) => {},
        Value::SeqV(_) => {},
        Value::MapV(_) => {},
        Value::CellV(_) => {},
        Value::RcV(_) => {},
        Value::TupleV(_) => {},
    }
}

/// Reconstructs one value against its declared type.  The classifier's
/// diagnostics concern the derive pass and are not repeated here.
#[verifier::rlimit(100)]
#[verifier::spinoff_prover]
pub fn ctor_value(ty: &Ty, v: &Value) -> (r: Result<Vec<Tok>, Diag>)
    ensures
        match r {
            Ok(out) => ctor_toks(ty.deep_view(), v.deep_view()) == Ok::<Seq<TokM>, DiagM>(
                out.deep_view(),
            ),
            Err(e) => ctor_toks(ty.deep_view(), v.deep_view()) == Err::<Seq<TokM>, DiagM>(
                e.deep_view(),
            ),
        },
    decreases *v, 0nat,
{
    let ghost tm = ty.deep_view();
    let ghost vm = v.deep_view();
    let ghost sp = ctor_toks(tm, vm);
    proof {
        lemma_view_variant(*v);
    }
    let mut cdiags: Vec<Diag> = Vec::new();
    let w = crate::fields::type_wrapper(ty, &mut cdiags);
    match w {
        Some(TypeWrapper::Box(inner)) => {
            match v {
                Value::BoxV(b) => {
                    proof {
                        assert(decreases_to!(*v => v->BoxV_0));
                    }
                    match ctor_value(&inner, &**b) {
                        Err(e) => Err(e),
                        Ok(r) => {
                            let mut out: Vec<Tok> = Vec::new();
                            crate::tokens::push_ident(&mut out, "Box");
                            crate::tokens::push_punct(&mut out, "::");
                            crate::tokens::push_ident(&mut out, "new");
                            crate::tokens::push_open(&mut out, Delim::Paren);
                            crate::tokens::extend_toks(&mut out, &r);
                            crate::tokens::push_close(&mut out, Delim::Paren);
                            proof {
                                match sp {
                                    Ok(o) => {
                                        assert(out.deep_view() =~= o);
                                    },
                                    Err(_) => {
                                        assert(false);
                                    },
                                }
                            }
                            Ok(out)
                        },
                    }
                },
                _ => Err(Diag::ShapeMismatch),
            }
        },
        Some(TypeWrapper::Option(inner)) => {
            match v {
                Value::OptV(o) => {
                    match o {
                        None => {
                            let mut out: Vec<Tok> = Vec::new();
                            crate::tokens::push_ident(&mut out, "None");
                            proof {
                                match sp {
                                    Ok(oo) => {
                                        assert(out.deep_view() =~= oo);
                                    },
                                    Err(_) => {
                                        assert(false);
                                    },
                                }
                            }
                            Ok(out)
                        },
                        Some(b) => {
                            proof {
                                assert(decreases_to!(*v => v->OptV_0));
                            }
                            match ctor_value(&inner, &**b) {
                                Err(e) => Err(e),
                                Ok(r) => {
                                    let mut out: Vec<Tok> = Vec::new();
                                    crate::tokens::push_ident(&mut out, "Some");
                                    crate::tokens::push_open(&mut out, Delim::Paren);
                                    crate::tokens::extend_toks(&mut out, &r);
                                    crate::tokens::push_close(&mut out, Delim::Paren);
                                    proof {
                                        match sp {
                                            Ok(oo) => {
                                                assert(out.deep_view() =~= oo);
                                            },
                                            Err(_) => {
                                                assert(false);
                                            },
                                        }
                                    }
                                    Ok(out)
                                },
                            }
                        },
                    }
                },
                _ => Err(Diag::ShapeMismatch),
            }
        },
        Some(TypeWrapper::Iterable(inner, cp)) => {
            match v {
                Value::SeqV(vs) => {
                    proof {
                        assert(decreases_to!(*v => v->SeqV_0));
                        crate::fields::lemma_seg_names_index(tm->Path_0.segs);
                        assert(cp.segs@.len() > 0);
                    }
                    match ctor_elems(&inner, vs) {
                        Err(e) => Err(e),
                        Ok(joined) => {
                            let mut out: Vec<Tok> = Vec::new();
                            if crate::tokens::str_eq(
                                cp.segs[cp.segs.len() - 1].as_str(),
                                "Vec",
                            ) {
                                crate::tokens::push_ident(&mut out, "vec");
                                crate::tokens::push_punct(&mut out, "!");
                                crate::tokens::push_open(&mut out, Delim::Bracket);
                                crate::tokens::extend_toks(&mut out, &joined);
                                crate::tokens::push_close(&mut out, Delim::Bracket);
                            } else {
                                crate::types::push_ctor_path_tokens(&cp, &mut out);
                                crate::tokens::push_punct(&mut out, "::");
                                crate::tokens::push_ident(&mut out, "from");
                                crate::tokens::push_open(&mut out, Delim::Paren);
                                crate::tokens::push_open(&mut out, Delim::Bracket);
                                crate::tokens::extend_toks(&mut out, &joined);
                                crate::tokens::push_close(&mut out, Delim::Bracket);
                                crate::tokens::push_close(&mut out, Delim::Paren);
                            }
                            proof {
                                match sp {
                                    Ok(o) => {
                                        assert(out.deep_view() =~= o);
                                    },
                                    Err(_) => {
                                        assert(false);
                                    },
                                }
                            }
                            Ok(out)
                        },
                    }
                },
                _ => Err(Diag::ShapeMismatch),
            }
        },
        Some(TypeWrapper::MapLike(kt, vt, cp)) => {
            match v {
                Value::MapV(es) => {
                    proof {
                        assert(decreases_to!(*v => v->MapV_0));
                    }
                    match ctor_entry_list(&kt, &vt, es) {
                        Err(e) => Err(e),
                        Ok(joined) => {
                            let mut out: Vec<Tok> = Vec::new();
                            crate::types::push_ctor_path_tokens(&cp, &mut out);
                            crate::tokens::push_punct(&mut out, "::");
                            crate::tokens::push_ident(&mut out, "from");
                            crate::tokens::push_open(&mut out, Delim::Paren);
                            crate::tokens::push_open(&mut out, Delim::Bracket);
                            crate::tokens::extend_toks(&mut out, &joined);
                            crate::tokens::push_close(&mut out, Delim::Bracket);
                            crate::tokens::push_close(&mut out, Delim::Paren);
                            proof {
                                match sp {
                                    Ok(o) => {
                                        assert(out.deep_view() =~= o);
                                    },
                                    Err(_) => {
                                        assert(false);
                                    },
                                }
                            }
                            Ok(out)
                        },
                    }
                },
                _ => Err(Diag::ShapeMismatch),
            }
        },
        Some(TypeWrapper::CellLike(inner, cp)) => {
            match v {
                Value::CellV(b) => {
                    proof {
                        assert(decreases_to!(*v => v->CellV_0));
                    }
                    match ctor_value(&inner, &**b) {
                        Err(e) => Err(e),
                        Ok(r) => {
                            let mut out: Vec<Tok> = Vec::new();
                            crate::types::push_ctor_path_tokens(&cp, &mut out);
                            crate::tokens::push_punct(&mut out, "::");
                            crate::tokens::push_ident(&mut out, "new");
                            crate::tokens::push_open(&mut out, Delim::Paren);
                            crate::tokens::extend_toks(&mut out, &r);
                            crate::tokens::push_close(&mut out, Delim::Paren);
                            proof {
                                match sp {
                                    Ok(o) => {
                                        assert(out.deep_view() =~= o);
                                    },
                                    Err(_) => {
                                        assert(false);
                                    },
                                }
                            }
                            Ok(out)
                        },
                    }
                },
                _ => Err(Diag::ShapeMismatch),
            }
        },
        Some(TypeWrapper::ArcLike(inner, cp)) => {
            match v {
                Value::RcV(b) => {
                    proof {
                        assert(decreases_to!(*v => v->RcV_0));
                    }
                    match ctor_value(&inner, &**b) {
                        Err(e) => Err(e),
                        Ok(r) => {
                            let mut out: Vec<Tok> = Vec::new();
                            crate::types::push_ctor_path_tokens(&cp, &mut out);
                            crate::tokens::push_punct(&mut out, "::");
                            crate::tokens::push_ident(&mut out, "new");
                            crate::tokens::push_open(&mut out, Delim::Paren);
                            crate::tokens::extend_toks(&mut out, &r);
                            crate::tokens::push_close(&mut out, Delim::Paren);
                            proof {
                                match sp {
                                    Ok(o) => {
                                        assert(out.deep_view() =~= o);
                                    },
                                    Err(_) => {
                                        assert(false);
                                    },
                                }
                            }
                            Ok(out)
                        },
                    }
                },
                _ => Err(Diag::ShapeMismatch),
            }
        },
        Some(TypeWrapper::Tuple(ts)) => {
            match v {
                Value::TupleV(vs) => {
                    if ts.len() != vs.len() {
                        proof {
                            crate::types::lemma_view_tys_index(ts@);
                            lemma_view_values_index(vs@);
                        }
                        return Err(Diag::ShapeMismatch);
                    }
                    proof {
                        assert(decreases_to!(*v => v->TupleV_0));
                        crate::types::lemma_view_tys_index(ts@);
                        lemma_view_values_index(vs@);
                    }
                    match ctor_zip_list(&ts, vs) {
                        Err(e) => Err(e),
                        Ok(joined) => {
                            let mut out: Vec<Tok> = Vec::new();
                            crate::tokens::push_open(&mut out, Delim::Paren);
                            crate::tokens::extend_toks(&mut out, &joined);
                            crate::tokens::push_close(&mut out, Delim::Paren);
                            proof {
                                match sp {
                                    Ok(o) => {
                                        assert(out.deep_view() =~= o);
                                    },
                                    Err(_) => {
                                        assert(false);
                                    },
                                }
                            }
                            Ok(out)
                        },
                    }
                },
                _ => Err(Diag::ShapeMismatch),
            }
        },
        Some(TypeWrapper::OtherPathZero(_)) => ctor_leaf(v, Ghost(tm)),
        Some(TypeWrapper::OtherPathOne(_, _)) => ctor_leaf(v, Ghost(tm)),
        Some(TypeWrapper::OtherPathMany(_, _)) => ctor_leaf(v, Ghost(tm)),
        None => ctor_leaf(v, Ghost(tm)),
    }
}

/// The opaque fallback at reconstruction time: the value's own token form,
/// converted with `.into()`.
fn ctor_leaf(v: &Value, tm: Ghost<TyM>) -> (r: Result<Vec<Tok>, Diag>)
    requires
        classify(tm@) is None || classify(tm@) matches Some(TypeWrapperM::OtherPathZero(_))
            || classify(tm@) matches Some(TypeWrapperM::OtherPathOne(_, _)) || classify(tm@)
            matches Some(TypeWrapperM::OtherPathMany(_, _)),
    ensures
        match r {
            Ok(out) => ctor_toks(tm@, v.deep_view()) == Ok::<Seq<TokM>, DiagM>(out.deep_view()),
            Err(e) => ctor_toks(tm@, v.deep_view()) == Err::<Seq<TokM>, DiagM>(e.deep_view()),
        },
{
    proof {
        lemma_view_variant(*v);
    }
    match v {
        Value::Leaf(toks) => {
            let mut out = crate::tokens::toks_clone(toks);
            crate::tokens::push_punct(&mut out, ".");
            crate::tokens::push_ident(&mut out, "into");
            crate::tokens::push_open(&mut out, Delim::Paren);
            crate::tokens::push_close(&mut out, Delim::Paren);
            proof {
                assert(out.deep_view() =~= toks.deep_view() + into_suffix());
            }
            Ok(out)
        },
        _ => Err(Diag::ShapeMismatch),
    }
}

/// Reconstructs a homogeneous element list into a comma-joined fragment run.
#[verifier::rlimit(100)]
#[verifier::spinoff_prover]
#[verifier::loop_isolation(false)]
fn ctor_elems(t: &Ty, elems: &Vec<Value>) -> (r: Result<Vec<Tok>, Diag>)
    ensures
        match r {
            Ok(out) => (ctor_list(t.deep_view(), view_values(elems@)) matches Ok(frags)
                && out.deep_view() == comma_join(frags)),
            Err(e) => (ctor_list(t.deep_view(), view_values(elems@)) matches Err(em) && em
                == e.deep_view()),
        },
    decreases *elems, 1nat,
{
    let ghost tm = t.deep_view();
    let ghost vem = view_values(elems@);
    let ghost sp = ctor_list(tm, vem);
    proof {
        lemma_view_values_index(elems@);
        assert(vem.skip(0) =~= vem);
    }
    let ghost mut el: Seq<Seq<TokM>> = Seq::empty();
    let mut joined: Vec<Tok> = Vec::new();
    let mut i: usize = 0;
    while i < elems.len()
        invariant
            tm == t.deep_view(),
            vem == view_values(elems@),
            vem.len() == elems.len(),
            i <= elems.len(),
            el.len() == i as int,
            joined.deep_view() == comma_join(el),
            sp == ctor_list(tm, vem),
            sp == match ctor_list(tm, vem.skip(i as int)) {
                Err(e) => Err::<Seq<Seq<TokM>>, DiagM>(e),
                Ok(rest) => Ok::<Seq<Seq<TokM>>, DiagM>(el + rest),
            },
        decreases elems.len() - i,
    {
        proof {
            assert(vem.skip(i as int)[0] == vem[i as int]);
            assert(vem.skip(i as int).drop_first() =~= vem.skip(i + 1));
            lemma_view_values_index(elems@);
            assert(decreases_to!(*elems => elems@));
            assert(decreases_to!(elems@ => elems@[i as int]));
        }
        match ctor_value(t, &elems[i]) {
            Err(e) => {
                return Err(e);
            },
            Ok(r) => {
                if i > 0 {
                    crate::tokens::push_punct(&mut joined, ",");
                }
                crate::tokens::extend_toks(&mut joined, &r);
                proof {
                    let frag = r.deep_view();
                    let el2 = el.push(frag);
                    assert(el2.last() == frag);
                    if i == 0 {
                        assert(joined.deep_view() =~= comma_join(el2));
                    } else {
                        assert(el2.drop_last() =~= el);
                        assert(joined.deep_view() =~= comma_join(el2));
                    }
                    match ctor_list(tm, vem.skip(i + 1)) {
                        Err(_) => {},
                        Ok(rest) => {
                            assert((el + (seq![frag] + rest)) =~= (el2 + rest));
                        },
                    }
                    el = el2;
                }
            },
        }
        i = i + 1;
    }
    proof {
        assert(vem.skip(elems.len() as int) =~= Seq::<ValueM>::empty());
        match sp {
            Err(_) => {
                assert(false);
            },
            Ok(frags) => {
                assert(el + Seq::<Seq<TokM>>::empty() =~= el);
            },
        }
    }
    Ok(joined)
}

/// Reconstructs a map's entries into comma-joined `(key, value)` fragments.
#[verifier::rlimit(100)]
#[verifier::spinoff_prover]
#[verifier::loop_isolation(false)]
fn ctor_entry_list(kt: &Ty, vt: &Ty, es: &Vec<(Value, Value)>) -> (r: Result<Vec<Tok>, Diag>)
    ensures
        match r {
            Ok(out) => (ctor_entries(kt.deep_view(), vt.deep_view(), view_entries(es@)) matches Ok(
                frags,
            ) && out.deep_view() == comma_join(frags)),
            Err(e) => (ctor_entries(kt.deep_view(), vt.deep_view(), view_entries(es@)) matches Err(
                em,
            ) && em == e.deep_view()),
        },
    decreases *es, 1nat,
{
    let ghost km = kt.deep_view();
    let ghost vm = vt.deep_view();
    let ghost vem = view_entries(es@);
    let ghost sp = ctor_entries(km, vm, vem);
    proof {
        lemma_view_entries_index(es@);
        assert(vem.skip(0) =~= vem);
    }
    let ghost mut el: Seq<Seq<TokM>> = Seq::empty();
    let mut joined: Vec<Tok> = Vec::new();
    let mut i: usize = 0;
    while i < es.len()
        invariant
            km == kt.deep_view(),
            vm == vt.deep_view(),
            vem == view_entries(es@),
            vem.len() == es.len(),
            i <= es.len(),
            el.len() == i as int,
            joined.deep_view() == comma_join(el),
            sp == ctor_entries(km, vm, vem),
            sp == match ctor_entries(km, vm, vem.skip(i as int)) {
                Err(e) => Err::<Seq<Seq<TokM>>, DiagM>(e),
                Ok(rest) => Ok::<Seq<Seq<TokM>>, DiagM>(el + rest),
            },
        decreases es.len() - i,
    {
        proof {
            assert(vem.skip(i as int)[0] == vem[i as int]);
            assert(vem.skip(i as int).drop_first() =~= vem.skip(i + 1));
            lemma_view_entries_index(es@);
            assert(decreases_to!(*es => es@));
            assert(decreases_to!(es@ => es@[i as int]));
            assert(decreases_to!(es@[i as int] => es@[i as int].0));
            assert(decreases_to!(es@[i as int] => es@[i as int].1));
        }
        let kr = match ctor_value(kt, &es[i].0) {
            Err(e) => {
                return Err(e);
            },
            Ok(r) => r,
        };
        let vr = match ctor_value(vt, &es[i].1) {
            Err(e) => {
                return Err(e);
            },
            Ok(r) => r,
        };
        if i > 0 {
            crate::tokens::push_punct(&mut joined, ",");
        }
        crate::tokens::push_open(&mut joined, Delim::Paren);
        crate::tokens::extend_toks(&mut joined, &kr);
        crate::tokens::push_punct(&mut joined, ",");
        crate::tokens::extend_toks(&mut joined, &vr);
        crate::tokens::push_close(&mut joined, Delim::Paren);
        proof {
            let frag = seq![TokM::Open(Delim::Paren)] + kr.deep_view() + seq![TokM::Punct(","@)]
                + vr.deep_view() + seq![TokM::Close(Delim::Paren)];
            let el2 = el.push(frag);
            assert(el2.last() == frag);
            if i == 0 {
                assert(joined.deep_view() =~= comma_join(el2));
            } else {
                assert(el2.drop_last() =~= el);
                assert(joined.deep_view() =~= comma_join(el2));
            }
            match ctor_entries(km, vm, vem.skip(i + 1)) {
                Err(_) => {},
                Ok(rest) => {
                    assert((el + (seq![frag] + rest)) =~= (el2 + rest));
                },
            }
            el = el2;
        }
        i = i + 1;
    }
    proof {
        assert(vem.skip(es.len() as int) =~= Seq::<(ValueM, ValueM)>::empty());
        match sp {
            Err(_) => {
                assert(false);
            },
            Ok(frags) => {
                assert(el + Seq::<Seq<TokM>>::empty() =~= el);
            },
        }
    }
    Ok(joined)
}

/// Reconstructs a tuple's positions, pairing each declared type with the
/// value at the same position.
#[verifier::rlimit(100)]
#[verifier::spinoff_prover]
#[verifier::loop_isolation(false)]
fn ctor_zip_list(ts: &Vec<Ty>, vs: &Vec<Value>) -> (r: Result<Vec<Tok>, Diag>)
    requires
        ts.len() == vs.len(),
    ensures
        match r {
            Ok(out) => (ctor_zip(crate::types::view_tys(ts@), view_values(vs@)) matches Ok(frags)
                && out.deep_view() == comma_join(frags)),
            Err(e) => (ctor_zip(crate::types::view_tys(ts@), view_values(vs@)) matches Err(em)
                && em == e.deep_view()),
        },
    decreases *vs, 1nat,
{
    let ghost tsm = crate::types::view_tys(ts@);
    let ghost vsm = view_values(vs@);
    let ghost sp = ctor_zip(tsm, vsm);
    proof {
        crate::types::lemma_view_tys_index(ts@);
        lemma_view_values_index(vs@);
        assert(tsm.skip(0) =~= tsm);
        assert(vsm.skip(0) =~= vsm);
    }
    let ghost mut el: Seq<Seq<TokM>> = Seq::empty();
    let mut joined: Vec<Tok> = Vec::new();
    let mut i: usize = 0;
    while i < vs.len()
        invariant
            ts.len() == vs.len(),
            tsm == crate::types::view_tys(ts@),
            vsm == view_values(vs@),
            tsm.len() == ts.len(),
            vsm.len() == vs.len(),
            i <= vs.len(),
            el.len() == i as int,
            joined.deep_view() == comma_join(el),
            sp == ctor_zip(tsm, vsm),
            sp == match ctor_zip(tsm.skip(i as int), vsm.skip(i as int)) {
                Err(e) => Err::<Seq<Seq<TokM>>, DiagM>(e),
                Ok(rest) => Ok::<Seq<Seq<TokM>>, DiagM>(el + rest),
            },
        decreases vs.len() - i,
    {
        proof {
            assert(tsm.skip(i as int)[0] == tsm[i as int]);
            assert(vsm.skip(i as int)[0] == vsm[i as int]);
            assert(tsm.skip(i as int).drop_first() =~= tsm.skip(i + 1));
            assert(vsm.skip(i as int).drop_first() =~= vsm.skip(i + 1));
            crate::types::lemma_view_tys_index(ts@);
            lemma_view_values_index(vs@);
            assert(decreases_to!(*vs => vs@));
            assert(decreases_to!(vs@ => vs@[i as int]));
        }
        match ctor_value(&ts[i], &vs[i]) {
            Err(e) => {
                return Err(e);
            },
            Ok(r) => {
                if i > 0 {
                    crate::tokens::push_punct(&mut joined, ",");
                }
                crate::tokens::extend_toks(&mut joined, &r);
                proof {
                    let frag = r.deep_view();
                    let el2 = el.push(frag);
                    assert(el2.last() == frag);
                    if i == 0 {
                        assert(joined.deep_view() =~= comma_join(el2));
                    } else {
                        assert(el2.drop_last() =~= el);
                        assert(joined.deep_view() =~= comma_join(el2));
                    }
                    match ctor_zip(tsm.skip(i + 1), vsm.skip(i + 1)) {
                        Err(_) => {},
                        Ok(rest) => {
                            assert((el + (seq![frag] + rest)) =~= (el2 + rest));
                        },
                    }
                    el = el2;
                }
            },
        }
        i = i + 1;
    }
    proof {
        assert(vsm.skip(vs.len() as int) =~= Seq::<ValueM>::empty());
        match sp {
            Err(_) => {
                assert(false);
            },
            Ok(frags) => {
                assert(el + Seq::<Seq<TokM>>::empty() =~= el);
            },
        }
    }
    Ok(joined)
}

/// Reconstructs one field's value, honouring `custom_with`.
pub fn field_ctor(f: &crate::def::FieldDef, v: &Value) -> (r: Result<Vec<Tok>, Diag>)
    ensures
        match r {
            Ok(out) => field_ctor_spec(f.deep_view(), v.deep_view()) == Ok::<Seq<TokM>, DiagM>(
                out.deep_view(),
            ),
            Err(e) => field_ctor_spec(f.deep_view(), v.deep_view()) == Err::<Seq<TokM>, DiagM>(
                e.deep_view(),
            ),
        },
{
    let attrs = match crate::util::parse_attrs(&f.attrs) {
        Ok(a) => a,
        Err(e) => {
            return Err(e);
        },
    };
    if attrs.custom_with.is_some() {
        proof {
            lemma_view_variant(*v);
        }
        match v {
            Value::Custom(toks) => {
                let mut out = crate::tokens::toks_clone(toks);
                crate::tokens::push_punct(&mut out, ".");
                crate::tokens::push_ident(&mut out, "into");
                crate::tokens::push_open(&mut out, Delim::Paren);
                crate::tokens::push_close(&mut out, Delim::Paren);
                proof {
                    assert(out.deep_view() =~= toks.deep_view() + into_suffix());
                }
                Ok(out)
            },
            _ => Err(Diag::ShapeMismatch),
        }
    } else {
        ctor_value(&f.ty, v)
    }
}

/// Reconstructs a named field list into comma-joined `name: fragment` runs.
#[verifier::rlimit(100)]
#[verifier::spinoff_prover]
#[verifier::loop_isolation(false)]
fn named_ctor_list(fs: &Vec<crate::def::FieldDef>, vals: &Vec<Value>) -> (r: Result<
    Vec<Tok>,
    Diag,
>)
    requires
        fs.len() == vals.len(),
    ensures
        match r {
            Ok(out) => (named_ctors(fs.deep_view(), view_values(vals@)) matches Ok(frags)
                && out.deep_view() == comma_join(frags)),
            Err(e) => (named_ctors(fs.deep_view(), view_values(vals@)) matches Err(em) && em
                == e.deep_view()),
        },
{
    let ghost sm = fs.deep_view();
    let ghost vsm = view_values(vals@);
    let ghost sp = named_ctors(sm, vsm);
    proof {
        lemma_view_values_index(vals@);
        assert(sm.skip(0) =~= sm);
        assert(vsm.skip(0) =~= vsm);
    }
    let ghost mut el: Seq<Seq<TokM>> = Seq::empty();
    let mut joined: Vec<Tok> = Vec::new();
    let mut i: usize = 0;
    while i < fs.len()
        invariant
            fs.len() == vals.len(),
            sm == fs.deep_view(),
            vsm == view_values(vals@),
            sm.len() == fs.len(),
            vsm.len() == vals.len(),
            i <= fs.len(),
            el.len() == i as int,
            joined.deep_view() == comma_join(el),
            sp == named_ctors(sm, vsm),
            sp == match named_ctors(sm.skip(i as int), vsm.skip(i as int)) {
                Err(e) => Err::<Seq<Seq<TokM>>, DiagM>(e),
                Ok(rest) => Ok::<Seq<Seq<TokM>>, DiagM>(el + rest),
            },
        decreases fs.len() - i,
    {
        proof {
            assert(sm.skip(i as int)[0] == sm[i as int]);
            assert(vsm.skip(i as int)[0] == vsm[i as int]);
            assert(sm.skip(i as int).drop_first() =~= sm.skip(i + 1));
            assert(vsm.skip(i as int).drop_first() =~= vsm.skip(i + 1));
            lemma_view_values_index(vals@);
        }
        let f = &fs[i];
        let nm = match &f.name {
            Some(n) => n,
            None => {
                return Err(Diag::MissingFieldName);
            },
        };
        match field_ctor(f, &vals[i]) {
            Err(e) => {
                return Err(e);
            },
            Ok(r) => {
                if i > 0 {
                    crate::tokens::push_punct(&mut joined, ",");
                }
                crate::tokens::push_ident(&mut joined, nm.as_str());
                crate::tokens::push_punct(&mut joined, ":");
                crate::tokens::extend_toks(&mut joined, &r);
                proof {
                    let frag = seq![TokM::Ident(nm@), TokM::Punct(":"@)] + r.deep_view();
                    let el2 = el.push(frag);
                    assert(el2.last() == frag);
                    if i == 0 {
                        assert(joined.deep_view() =~= comma_join(el2));
                    } else {
                        assert(el2.drop_last() =~= el);
                        assert(joined.deep_view() =~= comma_join(el2));
                    }
                    match named_ctors(sm.skip(i + 1), vsm.skip(i + 1)) {
                        Err(_) => {},
                        Ok(rest) => {
                            assert((el + (seq![frag] + rest)) =~= (el2 + rest));
                        },
                    }
                    el = el2;
                }
            },
        }
        i = i + 1;
    }
    proof {
        assert(vsm.skip(vals.len() as int) =~= Seq::<ValueM>::empty());
        match sp {
            Err(_) => {
                assert(false);
            },
            Ok(frags) => {
                assert(el + Seq::<Seq<TokM>>::empty() =~= el);
            },
        }
    }
    Ok(joined)
}

/// Reconstructs a positional field list into comma-joined fragments.
#[verifier::rlimit(100)]
#[verifier::spinoff_prover]
#[verifier::loop_isolation(false)]
fn unnamed_ctor_list(fs: &Vec<crate::def::FieldDef>, vals: &Vec<Value>) -> (r: Result<
    Vec<Tok>,
    Diag,
>)
    requires
        fs.len() == vals.len(),
    ensures
        match r {
            Ok(out) => (unnamed_ctors(fs.deep_view(), view_values(vals@)) matches Ok(frags)
                && out.deep_view() == comma_join(frags)),
            Err(e) => (unnamed_ctors(fs.deep_view(), view_values(vals@)) matches Err(em) && em
                == e.deep_view()),
        },
{
    let ghost sm = fs.deep_view();
    let ghost vsm = view_values(vals@);
    let ghost sp = unnamed_ctors(sm, vsm);
    proof {
        lemma_view_values_index(vals@);
        assert(sm.skip(0) =~= sm);
        assert(vsm.skip(0) =~= vsm);
    }
    let ghost mut el: Seq<Seq<TokM>> = Seq::empty();
    let mut joined: Vec<Tok> = Vec::new();
    let mut i: usize = 0;
    while i < fs.len()
        invariant
            fs.len() == vals.len(),
            sm == fs.deep_view(),
            vsm == view_values(vals@),
            sm.len() == fs.len(),
            vsm.len() == vals.len(),
            i <= fs.len(),
            el.len() == i as int,
            joined.deep_view() == comma_join(el),
            sp == unnamed_ctors(sm, vsm),
            sp == match unnamed_ctors(sm.skip(i as int), vsm.skip(i as int)) {
                Err(e) => Err::<Seq<Seq<TokM>>, DiagM>(e),
                Ok(rest) => Ok::<Seq<Seq<TokM>>, DiagM>(el + rest),
            },
        decreases fs.len() - i,
    {
        proof {
            assert(sm.skip(i as int)[0] == sm[i as int]);
            assert(vsm.skip(i as int)[0] == vsm[i as int]);
            assert(sm.skip(i as int).drop_first() =~= sm.skip(i + 1));
            assert(vsm.skip(i as int).drop_first() =~= vsm.skip(i + 1));
            lemma_view_values_index(vals@);
        }
        match field_ctor(&fs[i], &vals[i]) {
            Err(e) => {
                return Err(e);
            },
            Ok(r) => {
                if i > 0 {
                    crate::tokens::push_punct(&mut joined, ",");
                }
                crate::tokens::extend_toks(&mut joined, &r);
                proof {
                    let frag = r.deep_view();
                    let el2 = el.push(frag);
                    assert(el2.last() == frag);
                    if i == 0 {
                        assert(joined.deep_view() =~= comma_join(el2));
                    } else {
                        assert(el2.drop_last() =~= el);
                        assert(joined.deep_view() =~= comma_join(el2));
                    }
                    match unnamed_ctors(sm.skip(i + 1), vsm.skip(i + 1)) {
                        Err(_) => {},
                        Ok(rest) => {
                            assert((el + (seq![frag] + rest)) =~= (el2 + rest));
                        },
                    }
                    el = el2;
                }
            },
        }
        i = i + 1;
    }
    proof {
        assert(vsm.skip(vals.len() as int) =~= Seq::<ValueM>::empty());
        match sp {
            Err(_) => {
                assert(false);
            },
            Ok(frags) => {
                assert(el + Seq::<Seq<TokM>>::empty() =~= el);
            },
        }
    }
    Ok(joined)
}

/// The reconstructing expression of a whole value of the subject type:
/// what evaluating the derived implementation on that value emits.
#[verifier::rlimit(100)]
#[verifier::spinoff_prover]
pub fn ctor_tokens(item: &TypeDef, v: &Subject) -> (r: Result<Vec<Tok>, Diag>)
    ensures
        match r {
            Ok(out) => ctor_tokens_spec(item.deep_view(), v.deep_view()) == Ok::<
                Seq<TokM>,
                DiagM,
            >(out.deep_view()),
            Err(e) => ctor_tokens_spec(item.deep_view(), v.deep_view()) == Err::<
                Seq<TokM>,
                DiagM,
            >(e.deep_view()),
        },
{
    let ghost dm = item.deep_view();
    let ghost vm = v.deep_view();
    let ghost sp = ctor_tokens_spec(dm, vm);
    let attrs = match crate::util::parse_attrs(&item.attrs) {
        Ok(a) => a,
        Err(e) => {
            return Err(e);
        },
    };
    let mut qpath: Vec<String> = match &attrs.path_prefix {
        Some(p) => crate::strings_clone(p),
        None => crate::strings_clone(&item.module_segs),
    };
    qpath.push(item.name.clone());
    proof {
        assert(qpath.deep_view() =~= crate::qpath_of(dm, attrs.deep_view()));
    }
    match (&item.data, v) {
        (crate::def::DataShape::Union, _) => Err(Diag::UnionUnsupported),
        (crate::def::DataShape::Struct(fs), Subject::StructV(vals)) => {
            struct_ctor(&qpath, fs, vals, Ghost(sp))
        },
        (crate::def::DataShape::Enum(variants), Subject::EnumV { variant, fields }) => {
            if *variant >= variants.len() {
                proof {
                    assert(sp == Err::<Seq<TokM>, DiagM>(DiagM::ShapeMismatch));
                }
                return Err(Diag::ShapeMismatch);
            }
            variant_ctor(item.name.as_str(), &qpath, &variants[*variant], fields, Ghost(sp))
        },
        (crate::def::DataShape::Struct(_), _) => Err(Diag::ShapeMismatch),
        (crate::def::DataShape::Enum(_), _) => Err(Diag::ShapeMismatch),
    }
}

/// Reconstructs a struct value under its qualified name.
#[verifier::rlimit(100)]
#[verifier::spinoff_prover]
fn struct_ctor(
    qpath: &Vec<String>,
    fs: &crate::def::FieldsShape,
    vals: &Vec<Value>,
    sp: Ghost<Result<Seq<TokM>, DiagM>>,
) -> (r: Result<Vec<Tok>, Diag>)
    requires
        sp@ == struct_ctor_spec(qpath.deep_view(), fs.deep_view(), view_values(vals@)),
    ensures
        match r {
            Ok(out) => sp@ == Ok::<Seq<TokM>, DiagM>(out.deep_view()),
            Err(e) => sp@ == Err::<Seq<TokM>, DiagM>(e.deep_view()),
        },
{
    proof {
        lemma_view_values_index(vals@);
    }
    match fs {
        crate::def::FieldsShape::Unit => {
            if vals.len() > 0 {
                return Err(Diag::ShapeMismatch);
            }
            let mut out: Vec<Tok> = Vec::new();
            crate::types::push_names_tokens(qpath, &mut out);
            crate::tokens::push_open(&mut out, Delim::Brace);
            crate::tokens::push_close(&mut out, Delim::Brace);
            proof {
                match sp@ {
                    Ok(o) => {
                        assert(out.deep_view() =~= o);
                    },
                    Err(_) => {
                        assert(false);
                    },
                }
            }
            Ok(out)
        },
        crate::def::FieldsShape::Named(flds) => {
            if flds.len() != vals.len() {
                return Err(Diag::ShapeMismatch);
            }
            let joined = match named_ctor_list(flds, vals) {
                Ok(j) => j,
                Err(e) => {
                    return Err(e);
                },
            };
            let mut out: Vec<Tok> = Vec::new();
            crate::types::push_names_tokens(qpath, &mut out);
            crate::tokens::push_open(&mut out, Delim::Brace);
            crate::tokens::extend_toks(&mut out, &joined);
            crate::tokens::push_close(&mut out, Delim::Brace);
            proof {
                match sp@ {
                    Ok(o) => {
                        assert(out.deep_view() =~= o);
                    },
                    Err(_) => {
                        assert(false);
                    },
                }
            }
            Ok(out)
        },
        crate::def::FieldsShape::Unnamed(flds) => {
            if flds.len() != vals.len() {
                return Err(Diag::ShapeMismatch);
            }
            let joined = match unnamed_ctor_list(flds, vals) {
                Ok(j) => j,
                Err(e) => {
                    return Err(e);
                },
            };
            let mut out: Vec<Tok> = Vec::new();
            crate::types::push_names_tokens(qpath, &mut out);
            crate::tokens::push_open(&mut out, Delim::Paren);
            crate::tokens::extend_toks(&mut out, &joined);
            crate::tokens::push_close(&mut out, Delim::Paren);
            proof {
                match sp@ {
                    Ok(o) => {
                        assert(out.deep_view() =~= o);
                    },
                    Err(_) => {
                        assert(false);
                    },
                }
            }
            Ok(out)
        },
    }
}

/// Reconstructs one enum variant's value.  A skipped variant fails loudly,
/// as the derived implementation would; a custom arm is user code and has no
/// interpretation here.
#[verifier::rlimit(100)]
#[verifier::spinoff_prover]
fn variant_ctor(
    ename: &str,
    qpath: &Vec<String>,
    vd: &crate::def::VariantDef,
    vals: &Vec<Value>,
    sp: Ghost<Result<Seq<TokM>, DiagM>>,
) -> (r: Result<Vec<Tok>, Diag>)
    requires
        sp@ == variant_ctor_spec(ename@, qpath.deep_view(), vd.deep_view(), view_values(vals@)),
    ensures
        match r {
            Ok(out) => sp@ == Ok::<Seq<TokM>, DiagM>(out.deep_view()),
            Err(e) => sp@ == Err::<Seq<TokM>, DiagM>(e.deep_view()),
        },
{
    proof {
        lemma_view_values_index(vals@);
    }
    let attrs = match crate::util::parse_attrs(&vd.attrs) {
        Ok(a) => a,
        Err(e) => {
            return Err(e);
        },
    };
    if attrs.skip {
        return Err(Diag::SkippedVariant { ty: ename.to_owned(), variant: vd.name.clone() });
    }
    if attrs.custom_with.is_some() {
        return Err(Diag::CustomArmOpaque { ty: ename.to_owned(), variant: vd.name.clone() });
    }
    match &vd.fields {
        crate::def::FieldsShape::Unit => {
            if vals.len() > 0 {
                return Err(Diag::ShapeMismatch);
            }
            let mut out: Vec<Tok> = Vec::new();
            crate::types::push_names_tokens(qpath, &mut out);
            crate::tokens::push_punct(&mut out, "::");
            crate::tokens::push_ident(&mut out, vd.name.as_str());
            proof {
                match sp@ {
                    Ok(o) => {
                        assert(out.deep_view() =~= o);
                    },
                    Err(_) => {
                        assert(false);
                    },
                }
            }
            Ok(out)
        },
        crate::def::FieldsShape::Named(flds) => {
            if flds.len() != vals.len() {
                return Err(Diag::ShapeMismatch);
            }
            let joined = match named_ctor_list(flds, vals) {
                Ok(j) => j,
                Err(e) => {
                    return Err(e);
                },
            };
            let mut out: Vec<Tok> = Vec::new();
            crate::types::push_names_tokens(qpath, &mut out);
            crate::tokens::push_punct(&mut out, "::");
            crate::tokens::push_ident(&mut out, vd.name.as_str());
            crate::tokens::push_open(&mut out, Delim::Brace);
            crate::tokens::extend_toks(&mut out, &joined);
            crate::tokens::push_close(&mut out, Delim::Brace);
            proof {
                match sp@ {
                    Ok(o) => {
                        assert(out.deep_view() =~= o);
                    },
                    Err(_) => {
                        assert(false);
                    },
                }
            }
            Ok(out)
        },
        crate::def::FieldsShape::Unnamed(flds) => {
            if flds.len() != vals.len() {
                return Err(Diag::ShapeMismatch);
            }
            let joined = match unnamed_ctor_list(flds, vals) {
                Ok(j) => j,
                Err(e) => {
                    return Err(e);
                },
            };
            let mut out: Vec<Tok> = Vec::new();
            crate::types::push_names_tokens(qpath, &mut out);
            crate::tokens::push_punct(&mut out, "::");
            crate::tokens::push_ident(&mut out, vd.name.as_str());
            crate::tokens::push_open(&mut out, Delim::Paren);
            crate::tokens::extend_toks(&mut out, &joined);
            crate::tokens::push_close(&mut out, Delim::Paren);
            proof {
                match sp@ {
                    Ok(o) => {
                        assert(out.deep_view() =~= o);
                    },
                    Err(_) => {
                        assert(false);
                    },
                }
            }
            Ok(out)
        },
    }
}

} // verus!
