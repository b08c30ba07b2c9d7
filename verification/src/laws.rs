//! Properties of the expansion and reconstruction, stated and proved.

use vstd::prelude::*;

use crate::def::{DataShapeM, FieldDefM, PredM, TypeDefM, VariantDefM};
use crate::diag::DiagM;
use crate::fields::{
    classify, custom_plan, field_plan_spec, leaf_tys, leaf_tys_of_field, shape_leaf_tys,
    TypeWrapperM,
};
use crate::quine::{ctor_toks, ctor_tokens_spec, field_ctor_spec, into_suffix, SubjectM, ValueM};
use crate::tokens::TokM;
use crate::types::TyM;
use crate::util::{add_bounds_spec, bound_preds, dedup_tys, parse_attrs_spec, AttrsM};

verus! {

/// A field with a custom transform never goes through the per-shape
/// expansion: its plan is the same whatever the declared type is, and it is
/// exactly the user transform applied to the binding.
pub proof fn lemma_custom_override_bypass(t1: TyM, t2: TyM, name: Seq<char>, a: AttrsM)
    requires
        a.custom_with is Some,
    ensures
        field_plan_spec(t1, name, a) == field_plan_spec(t2, name, a),
        field_plan_spec(t1, name, a) == custom_plan(name, a.custom_with->0),
{
}

/// At reconstruction time a custom field likewise ignores its declared type:
/// the result is the transform's output spliced and converted, whatever the
/// type says, and any non-transformed value is rejected.
pub proof fn lemma_custom_override_reconstruction(f1: FieldDefM, f2: FieldDefM, v: ValueM)
    requires
        f1.attrs == f2.attrs,
        parse_attrs_spec(f1.attrs) matches Ok(a) && a.custom_with is Some,
    ensures
        field_ctor_spec(f1, v) == field_ctor_spec(f2, v),
        v matches ValueM::Custom(toks) ==> field_ctor_spec(f1, v) == Ok::<Seq<TokM>, DiagM>(
            toks + into_suffix(),
        ),
        !(v is Custom) ==> field_ctor_spec(f1, v) == Err::<Seq<TokM>, DiagM>(
            DiagM::ShapeMismatch,
        ),
{
}

/// A skipped variant still expands: its arm is generated (the derivation
/// compiles), and that arm fails loudly, naming the type and variant.
pub proof fn lemma_skip_expands(ename: Seq<char>, qpath: Seq<Seq<char>>, vd: VariantDefM)
    requires
        parse_attrs_spec(vd.attrs) matches Ok(a) && a.skip,
    ensures
        crate::enums::variant_arm_spec(ename, qpath, vd).0 == Ok::<Seq<TokM>, DiagM>(
            crate::enums::skip_arm(ename, vd.name, vd.fields),
        ),
{
}

/// Reconstructing a value of a skipped variant fails at run time with the
/// error that names the type and the variant.
pub proof fn lemma_skip_fails_at_runtime(
    ename: Seq<char>,
    qpath: Seq<Seq<char>>,
    vd: VariantDefM,
    vs: Seq<ValueM>,
)
    requires
        parse_attrs_spec(vd.attrs) matches Ok(a) && a.skip,
    ensures
        crate::quine::variant_ctor_spec(ename, qpath, vd, vs) == Err::<Seq<TokM>, DiagM>(
            DiagM::SkippedVariant { ty: ename, variant: vd.name },
        ),
{
}

/// Marking one variant as skipped leaves every other variant's
/// reconstruction untouched: a value of a different variant reconstructs the
/// same under both definitions.
pub proof fn lemma_skip_leaves_others_alone(d1: TypeDefM, d2: TypeDefM, v: SubjectM)
    requires
        d1.name == d2.name,
        d1.module_segs == d2.module_segs,
        d1.attrs == d2.attrs,
        (d1.data matches DataShapeM::Enum(vs1) && d2.data matches DataShapeM::Enum(vs2)
            && vs1.len() == vs2.len() && (v matches SubjectM::EnumV { variant, fields } && variant
            < vs1.len() && vs1[variant as int] == vs2[variant as int])),
    ensures
        ctor_tokens_spec(d1, v) == ctor_tokens_spec(d2, v),
{
}

/// A field marked `recursive` contributes no leaf types to bound inference.
pub proof fn lemma_recursive_excludes_leaves(f: FieldDefM)
    requires
        parse_attrs_spec(f.attrs) matches Ok(a) && a.recursive,
    ensures
        leaf_tys_of_field(f) == Ok::<Seq<TyM>, DiagM>(Seq::<TyM>::empty()),
{
}

/// Bound inference for a one-field record: with the `recursive` opt-out the
/// synthesized `where` clause is exactly the declared one, so a
/// self-referential field forces no unsatisfiable constraint; without the
/// opt-out, one constraint per distinct leaf type of the field is added, so a
/// self-referential field demands its own capability.
pub proof fn lemma_recursive_optout(d: TypeDefM, f: FieldDefM, bound: Seq<TokM>)
    requires
        d.data == DataShapeM::Struct(crate::def::FieldsShapeM::Named(seq![f])),
        parse_attrs_spec(f.attrs) is Ok,
    ensures
        parse_attrs_spec(f.attrs)->Ok_0.recursive ==> add_bounds_spec(d, bound) == Ok::<
            Seq<crate::def::PredM>,
            DiagM,
        >(d.generics.preds),
        !parse_attrs_spec(f.attrs)->Ok_0.recursive ==> add_bounds_spec(d, bound) == Ok::<
            Seq<crate::def::PredM>,
            DiagM,
        >(d.generics.preds + bound_preds(dedup_tys(leaf_tys(f.ty)), bound)),
{
    let s = seq![f];
    assert(s.len() == 1);
    assert(s[0] == f);
    assert(s.drop_first() =~= Seq::<FieldDefM>::empty());
    assert(crate::fields::fields_leaf_tys(Seq::<FieldDefM>::empty()) == Ok::<Seq<TyM>, DiagM>(
        Seq::<TyM>::empty(),
    ));
    let a = parse_attrs_spec(f.attrs)->Ok_0;
    if a.recursive {
        assert(leaf_tys_of_field(f) == Ok::<Seq<TyM>, DiagM>(Seq::<TyM>::empty()));
        assert(Seq::<TyM>::empty() + Seq::<TyM>::empty() =~= Seq::<TyM>::empty());
        assert(crate::fields::fields_leaf_tys(s) == Ok::<Seq<TyM>, DiagM>(Seq::<TyM>::empty()));
        assert(shape_leaf_tys(d.data->Struct_0) == Ok::<Seq<TyM>, DiagM>(Seq::<TyM>::empty()));
        assert(dedup_tys(Seq::<TyM>::empty()) =~= Seq::<TyM>::empty());
        assert(bound_preds(Seq::<TyM>::empty(), bound) =~= Seq::<PredM>::empty());
        assert(d.generics.preds + bound_preds(dedup_tys(Seq::<TyM>::empty()), bound)
            =~= d.generics.preds);
    } else {
        assert(leaf_tys_of_field(f) == Ok::<Seq<TyM>, DiagM>(leaf_tys(f.ty)));
        assert(leaf_tys(f.ty) + Seq::<TyM>::empty() =~= leaf_tys(f.ty));
        assert(crate::fields::fields_leaf_tys(s) == Ok::<Seq<TyM>, DiagM>(leaf_tys(f.ty)));
        assert(shape_leaf_tys(d.data->Struct_0) == Ok::<Seq<TyM>, DiagM>(leaf_tys(f.ty)));
    }
}

/// One synthesized predicate per distinct leaf type: the lengths agree.
pub proof fn lemma_bound_preds_len(s: Seq<TyM>, bound: Seq<TokM>)
    ensures
        bound_preds(s, bound).len() == s.len(),
    decreases s.len(),
{
    if s.len() > 0 {
        lemma_bound_preds_len(s.drop_last(), bound);
    }
}

/// De-duplication keeps at least one occurrence of a non-empty list.
pub proof fn lemma_dedup_nonempty(s: Seq<TyM>)
    requires
        s.len() > 0,
    ensures
        dedup_tys(s).len() > 0,
    decreases s.len(),
{
    if s.len() > 1 {
        lemma_dedup_nonempty(s.drop_last());
    }
}

/// The reconstruction of a boxed value is the owned-wrapper constructor
/// applied to the reconstruction of the inner value: composing shapes
/// composes their expressions, the syntactic half of the round-trip
/// guarantee.
pub proof fn lemma_reconstruct_box(t: TyM, inner: TyM, b: Box<ValueM>, r: Seq<TokM>)
    requires
        classify(t) == Some(TypeWrapperM::Box(inner)),
        ctor_toks(inner, *b) == Ok::<Seq<TokM>, DiagM>(r),
    ensures
        ctor_toks(t, ValueM::BoxV(b)) == Ok::<Seq<TokM>, DiagM>(
            seq![
                TokM::Ident("Box"@),
                TokM::Punct("::"@),
                TokM::Ident("new"@),
                TokM::Open(crate::tokens::Delim::Paren),
            ] + r + seq![TokM::Close(crate::tokens::Delim::Paren)],
        ),
{
}

/// A present optional value reconstructs as the present constructor applied
/// to the inner reconstruction.
pub proof fn lemma_reconstruct_some(t: TyM, inner: TyM, b: Box<ValueM>, r: Seq<TokM>)
    requires
        classify(t) == Some(TypeWrapperM::Option(inner)),
        ctor_toks(inner, *b) == Ok::<Seq<TokM>, DiagM>(r),
    ensures
        ctor_toks(t, ValueM::OptV(Some(b))) == Ok::<Seq<TokM>, DiagM>(
            seq![TokM::Ident("Some"@), TokM::Open(crate::tokens::Delim::Paren)] + r + seq![
                TokM::Close(crate::tokens::Delim::Paren),
            ],
        ),
{
}

/// An absent optional value reconstructs as the bare absent constructor.
pub proof fn lemma_reconstruct_none(t: TyM, inner: TyM)
    requires
        classify(t) == Some(TypeWrapperM::Option(inner)),
    ensures
        ctor_toks(t, ValueM::OptV(None)) == Ok::<Seq<TokM>, DiagM>(seq![TokM::Ident("None"@)]),
{
}

/// Reconstruction loses nothing at a leaf: two leaf values with the same
/// reconstructing expression carry the same token form, so evaluating the
/// expression cannot conflate distinct leaves.
pub proof fn lemma_leaf_reconstruction_injective(t: TyM, a: Seq<TokM>, b: Seq<TokM>)
    requires
        classify(t) is None || classify(t) matches Some(TypeWrapperM::OtherPathZero(_))
            || classify(t) matches Some(TypeWrapperM::OtherPathOne(_, _)) || classify(t)
            matches Some(TypeWrapperM::OtherPathMany(_, _)),
        ctor_toks(t, ValueM::Leaf(a)) == ctor_toks(t, ValueM::Leaf(b)),
    ensures
        a == b,
{
    assert((a + into_suffix()).len() == (b + into_suffix()).len());
    assert(a.len() == b.len());
    assert forall|i: int| 0 <= i < a.len() implies a[i] == b[i] by {
        assert((a + into_suffix())[i] == a[i]);
        assert((b + into_suffix())[i] == b[i]);
    }
    assert(a =~= b);
}

/// A present value and an absent value of the same optional type never
/// reconstruct to the same expression: the emitted text distinguishes them,
/// so evaluation cannot confuse the two.
pub proof fn lemma_option_reconstruction_distinguishes(t: TyM, inner: TyM, b: Box<ValueM>)
    requires
        classify(t) == Some(TypeWrapperM::Option(inner)),
        ctor_toks(inner, *b) is Ok,
    ensures
        ctor_toks(t, ValueM::OptV(Some(b))) != ctor_toks(t, ValueM::OptV(None)),
{
    reveal_strlit("Some");
    reveal_strlit("None");
    let r = ctor_toks(inner, *b)->Ok_0;
    let some_toks = seq![TokM::Ident("Some"@), TokM::Open(crate::tokens::Delim::Paren)] + r + seq![
        TokM::Close(crate::tokens::Delim::Paren),
    ];
    let none_toks = seq![TokM::Ident("None"@)];
    assert(some_toks[0] == TokM::Ident("Some"@));
    assert("Some"@ != "None"@) by {
        assert("Some"@[0] == 'S');
        assert("None"@[0] == 'N');
    }
    assert(some_toks[0] != none_toks[0]);
    assert(some_toks != none_toks);
}

/// The synthetic binding names that one field expansion introduces, in the
/// order their bindings appear.
pub open spec fn plan_names(t: TyM, name: Seq<char>) -> Seq<Seq<char>>
    decreases crate::types::ty_size(t), 0nat, 0nat,
    via plan_names_dec
{
    match classify(t) {
        Some(TypeWrapperM::Box(i)) => plan_names(i, name),
        Some(TypeWrapperM::Option(i)) => seq![name + "_option"@, name + "_option_val"@]
            + plan_names(i, name + "_option_val"@),
        Some(TypeWrapperM::Iterable(i, _)) => seq![
            name + "_vec_like"@,
            name + "_vec_like_item"@,
        ] + plan_names(i, name + "_vec_like_item"@),
        Some(TypeWrapperM::MapLike(k, v, _)) => seq![
            name + "_map"@,
            name + "_map_key"@,
            name + "_map_value"@,
        ] + plan_names(k, name + "_map_key"@) + plan_names(v, name + "_map_value"@),
        Some(TypeWrapperM::Tuple(ts)) => plan_names_list(ts, name),
        Some(TypeWrapperM::CellLike(i, _)) => seq![name + "_cell"@] + plan_names(
            i,
            name + "_cell"@,
        ),
        Some(TypeWrapperM::ArcLike(i, _)) => seq![name + "_arc"@] + plan_names(
            i,
            name + "_arc"@,
        ),
        _ => Seq::empty(),
    }
}

#[via_fn]
proof fn plan_names_dec(t: TyM, name: Seq<char>) {
    crate::fields::lemma_classify_size(t);
}

/// The names introduced by the positions of a tuple expansion.
pub open spec fn plan_names_list(ts: Seq<TyM>, name: Seq<char>) -> Seq<Seq<char>>
    decreases crate::types::tys_size(ts), 1nat, ts.len(),
    via plan_names_list_dec
{
    if ts.len() == 0 {
        Seq::empty()
    } else {
        plan_names_list(ts.drop_last(), name) + seq![
            crate::fields::tuple_name(name, (ts.len() - 1) as nat),
        ] + plan_names(ts.last(), crate::fields::tuple_name(name, (ts.len() - 1) as nat))
    }
}

#[via_fn]
proof fn plan_names_list_dec(ts: Seq<TyM>, name: Seq<char>) {
    if ts.len() > 0 {
        crate::types::lemma_tys_size_elem(ts, ts.len() - 1);
    }
}

/// Nesting an optional around a sequence around an optional composes the
/// three shape handlers without any collision among the synthetic names, for
/// any leaf inner type: every introduced name extends the binding it was
/// derived from by a non-empty role suffix, so the six names all differ.
pub proof fn lemma_nested_expansion_no_collisions(
    t: TyM,
    t2: TyM,
    t3: TyM,
    t4: TyM,
    cp: crate::types::CtorPathM,
    name: Seq<char>,
)
    requires
        classify(t) == Some(TypeWrapperM::Option(t2)),
        classify(t2) == Some(TypeWrapperM::Iterable(t3, cp)),
        classify(t3) == Some(TypeWrapperM::Option(t4)),
        classify(t4) is None || classify(t4) matches Some(TypeWrapperM::OtherPathZero(_))
            || classify(t4) matches Some(TypeWrapperM::OtherPathOne(_, _)) || classify(t4)
            matches Some(TypeWrapperM::OtherPathMany(_, _)),
    ensures
        plan_names(t, name).len() == 6,
        forall|i: int, j: int|
            0 <= i < j < plan_names(t, name).len() ==> plan_names(t, name)[i] != plan_names(
                t,
                name,
            )[j],
{
    reveal_strlit("_option");
    reveal_strlit("_option_val");
    reveal_strlit("_vec_like");
    reveal_strlit("_vec_like_item");
    let n0 = name + "_option"@;
    let n1 = name + "_option_val"@;
    let n2 = n1 + "_vec_like"@;
    let n3 = n1 + "_vec_like_item"@;
    let n4 = n3 + "_option"@;
    let n5 = n3 + "_option_val"@;
    assert(plan_names(t4, n3 + "_option_val"@) =~= Seq::<Seq<char>>::empty());
    assert(plan_names(t3, n3) =~~= seq![n4, n5]);
    assert(plan_names(t2, n1) =~~= seq![n2, n3, n4, n5]);
    let names = plan_names(t, name);
    assert(names =~~= seq![n0, n1, n2, n3, n4, n5]);
    assert(n0.len() == name.len() + 7);
    assert(n1.len() == name.len() + 11);
    assert(n2.len() == name.len() + 20);
    assert(n3.len() == name.len() + 25);
    assert(n4.len() == name.len() + 32);
    assert(n5.len() == name.len() + 36);
    assert(names[0] == n0);
    assert(names[1] == n1);
    assert(names[2] == n2);
    assert(names[3] == n3);
    assert(names[4] == n4);
    assert(names[5] == n5);
    assert forall|i: int, j: int| 0 <= i < j < names.len() implies names[i] != names[j] by {
        assert(names[i].len() != names[j].len());
    }
}

} // verus!