//! Per-field and per-variant configuration, and generic-bound synthesis.

use vstd::prelude::*;

use crate::def::{DataShape, DataShapeM, Pred, PredM, TypeDef, TypeDefM, VariantDef, VariantDefM};
use crate::diag::{Diag, DiagM};
use crate::fields::shape_leaf_tys;
use crate::tokens::{str_eq, toks_clone, Tok, TokM};
use crate::types::{lemma_view_tys_concat, lemma_view_tys_index, view_tys, Ty, TyM};

verus! {

/// One annotation as it reaches the parser: a key, optionally with a value
/// given as tokens.
pub struct RawAttr {
    pub key: String,
    pub value: Option<Vec<Tok>>,
}

/// Mathematical model of `RawAttr`.
pub struct RawAttrM {
    pub key: Seq<char>,
    pub value: Option<Seq<TokM>>,
}

impl View for RawAttr {
    type V = RawAttrM;

    open spec fn view(&self) -> RawAttrM {
        RawAttrM { key: self.key@, value: self.value.deep_view() }
    }
}

impl DeepView for RawAttr {
    type V = RawAttrM;

    open spec fn deep_view(&self) -> RawAttrM {
        self.view()
    }
}

/// The recognized per-field / per-variant configuration.
///
/// `recursive` excludes a field's leaf types from bound inference, to break
/// self-referential constraint cycles; it never changes field expansion.
/// `custom_with` replaces a field's default expansion with a user transform.
/// `skip` marks an enum variant whose reconstruction deliberately fails at
/// run time.  `path_prefix` overrides the qualified name of the subject type.
pub struct Attrs {
    pub recursive: bool,
    pub custom_with: Option<Vec<Tok>>,
    pub skip: bool,
    pub path_prefix: Option<Vec<String>>,
}

/// Mathematical model of `Attrs`.
pub struct AttrsM {
    pub recursive: bool,
    pub custom_with: Option<Seq<TokM>>,
    pub skip: bool,
    pub path_prefix: Option<Seq<Seq<char>>>,
}

impl View for Attrs {
    type V = AttrsM;

    open spec fn view(&self) -> AttrsM {
        AttrsM {
            recursive: self.recursive,
            custom_with: self.custom_with.deep_view(),
            skip: self.skip,
            path_prefix: self.path_prefix.deep_view(),
        }
    }
}

impl DeepView for Attrs {
    type V = AttrsM;

    open spec fn deep_view(&self) -> AttrsM {
        self.view()
    }
}

/// The configuration with every option at its default.
pub open spec fn attrs_default() -> AttrsM {
    AttrsM { recursive: false, custom_with: None, skip: false, path_prefix: None }
}

/// Whether a token sequence spells a plain path: a name, then any number of
/// `::`-name pairs.
pub open spec fn path_names_ok(toks: Seq<TokM>) -> bool {
    &&& toks.len() % 2 == 1
    &&& forall|i: int| 0 <= i < toks.len() && i % 2 == 0 ==> toks[i] is Ident
    &&& forall|i: int| 0 <= i < toks.len() && i % 2 == 1 ==> toks[i] == TokM::Punct("::"@)
}

/// The names of a plain path spelled as tokens.
pub open spec fn path_names(toks: Seq<TokM>) -> Seq<Seq<char>> {
    Seq::new((toks.len() + 1) / 2, |i: int| toks[2 * i]->Ident_0)
}

/// One parsing step: how one annotation changes the configuration gathered
/// so far.  Unknown keys, duplicate keys, and missing or unreadable values
/// are hard errors.
pub open spec fn attr_step(acc: AttrsM, a: RawAttrM) -> Result<AttrsM, DiagM> {
    if a.key == "recursive"@ {
        if acc.recursive {
            Err(DiagM::DuplicateAttr { key: a.key })
        } else if a.value is Some {
            Err(DiagM::MalformedAttr { key: a.key })
        } else {
            Ok(AttrsM { recursive: true, ..acc })
        }
    } else if a.key == "skip"@ {
        if acc.skip {
            Err(DiagM::DuplicateAttr { key: a.key })
        } else if a.value is Some {
            Err(DiagM::MalformedAttr { key: a.key })
        } else {
            Ok(AttrsM { skip: true, ..acc })
        }
    } else if a.key == "custom_with"@ {
        if acc.custom_with is Some {
            Err(DiagM::DuplicateAttr { key: a.key })
        } else {
            match a.value {
                Some(toks) => {
                    if toks.len() == 0 {
                        Err(DiagM::MalformedAttr { key: a.key })
                    } else {
                        Ok(AttrsM { custom_with: Some(toks), ..acc })
                    }
                },
                None => Err(DiagM::MalformedAttr { key: a.key }),
            }
        }
    } else if a.key == "path_prefix"@ {
        if acc.path_prefix is Some {
            Err(DiagM::DuplicatePathPrefix)
        } else {
            match a.value {
                Some(toks) => {
                    if path_names_ok(toks) {
                        Ok(AttrsM { path_prefix: Some(path_names(toks)), ..acc })
                    } else {
                        Err(DiagM::MalformedAttr { key: a.key })
                    }
                },
                None => Err(DiagM::MalformedAttr { key: a.key }),
            }
        }
    } else {
        Err(DiagM::UnknownAttr { key: a.key })
    }
}

/// Folding the parser over a list of annotations, starting from `acc`.
pub open spec fn parse_attrs_from(acc: AttrsM, s: Seq<RawAttrM>) -> Result<AttrsM, DiagM>
    decreases s.len(),
{
    if s.len() == 0 {
        Ok(acc)
    } else {
        match attr_step(acc, s[0]) {
            Err(e) => Err(e),
            Ok(acc2) => parse_attrs_from(acc2, s.drop_first()),
        }
    }
}

/// What parsing a whole annotation list yields: every option at its default
/// unless set exactly once, the first offending annotation's error otherwise.
pub open spec fn parse_attrs_spec(s: Seq<RawAttrM>) -> Result<AttrsM, DiagM> {
    parse_attrs_from(attrs_default(), s)
}

/// Reads a plain path (`a::b::c`) out of a token sequence.
fn parse_path_toks(toks: &Vec<Tok>) -> (r: Option<Vec<String>>)
    ensures
        path_names_ok(toks.deep_view()) ==> (r matches Some(names) && names.deep_view()
            == path_names(toks.deep_view())),
        !path_names_ok(toks.deep_view()) ==> r is None,
{
    let ghost tm = toks.deep_view();
    if toks.len() % 2 != 1 {
        return None;
    }
    let n = toks.len() / 2 + 1;
    let mut names: Vec<String> = Vec::new();
    let mut k: usize = 0;
    while k < n
        invariant
            tm == toks.deep_view(),
            tm.len() == toks.len(),
            toks.len() % 2 == 1,
            n == toks.len() / 2 + 1,
            k <= n,
            forall|j: int| 0 <= j < k ==> (#[trigger] tm[2 * j]) is Ident,
            forall|j: int| 1 <= j < k ==> #[trigger] tm[2 * j - 1] == TokM::Punct("::"@),
            names.deep_view().len() == k,
            forall|j: int| 0 <= j < k ==> #[trigger] names.deep_view()[j] == tm[2 * j]->Ident_0,
        decreases n - k,
    {
        if k > 0 {
            match &toks[2 * k - 1] {
                Tok::Punct(s) => {
                    if !str_eq(s.as_str(), "::") {
                        assert(tm[2 * (k as int) - 1] != TokM::Punct("::"@));
                        assert(!path_names_ok(tm));
                        return None;
                    }
                },
                _ => {
                    assert(tm[2 * (k as int) - 1] != TokM::Punct("::"@));
                    assert(!path_names_ok(tm));
                    return None;
                },
            }
        }
        match &toks[2 * k] {
            Tok::Ident(s) => {
                let ghost npre = names.deep_view();
                names.push(s.clone());
                proof {
                    assert(names.deep_view() =~= npre.push(s@));
                    assert(tm[2 * (k as int)] == TokM::Ident(s@));
                }
            },
            _ => {
                assert(!(tm[2 * (k as int)] is Ident));
                assert(!path_names_ok(tm));
                return None;
            },
        }
        k = k + 1;
    }
    proof {
        assert forall|i: int| 0 <= i < tm.len() && i % 2 == 0 implies tm[i] is Ident by {
            assert(tm[2 * (i / 2)] is Ident);
        }
        assert forall|i: int| 0 <= i < tm.len() && i % 2 == 1 implies tm[i] == TokM::Punct(
            "::"@,
        ) by {
            assert(tm[2 * ((i + 1) / 2) - 1] == TokM::Punct("::"@));
        }
        assert(path_names_ok(tm));
        assert(names.deep_view() =~= path_names(tm));
    }
    Some(names)
}

/// Parses the recognized annotations, applying defaults and reporting the
/// first unknown key, duplicate, or unreadable value as an error.
pub fn parse_attrs(raw: &Vec<RawAttr>) -> (r: Result<Attrs, Diag>)
    ensures
        match r {
            Ok(a) => parse_attrs_spec(raw.deep_view()) == Ok::<AttrsM, DiagM>(a.deep_view()),
            Err(e) => parse_attrs_spec(raw.deep_view()) == Err::<AttrsM, DiagM>(e.deep_view()),
        },
{
    let ghost rm = raw.deep_view();
    let mut acc = Attrs { recursive: false, custom_with: None, skip: false, path_prefix: None };
    proof {
        assert(rm.skip(0) =~= rm);
    }
    let mut i: usize = 0;
    while i < raw.len()
        invariant
            rm == raw.deep_view(),
            rm.len() == raw.len(),
            i <= raw.len(),
            parse_attrs_spec(rm) == parse_attrs_from(acc.deep_view(), rm.skip(i as int)),
        decreases raw.len() - i,
    {
        let ghost pre = acc.deep_view();
        proof {
            assert(rm.skip(i as int)[0] == rm[i as int]);
            assert(rm.skip(i as int).drop_first() =~= rm.skip(i + 1));
        }
        let a = &raw[i];
        if str_eq(a.key.as_str(), "recursive") {
            if acc.recursive {
                return Err(Diag::DuplicateAttr { key: a.key.clone() });
            }
            match &a.value {
                Some(_) => {
                    return Err(Diag::MalformedAttr { key: a.key.clone() });
                },
                None => {
                    acc.recursive = true;
                },
            }
        } else if str_eq(a.key.as_str(), "skip") {
            if acc.skip {
                return Err(Diag::DuplicateAttr { key: a.key.clone() });
            }
            match &a.value {
                Some(_) => {
                    return Err(Diag::MalformedAttr { key: a.key.clone() });
                },
                None => {
                    acc.skip = true;
                },
            }
        } else if str_eq(a.key.as_str(), "custom_with") {
            if acc.custom_with.is_some() {
                return Err(Diag::DuplicateAttr { key: a.key.clone() });
            }
            match &a.value {
                Some(toks) => {
                    if toks.len() == 0 {
                        return Err(Diag::MalformedAttr { key: a.key.clone() });
                    }
                    acc.custom_with = Some(toks_clone(toks));
                },
                None => {
                    return Err(Diag::MalformedAttr { key: a.key.clone() });
                },
            }
        } else if str_eq(a.key.as_str(), "path_prefix") {
            if acc.path_prefix.is_some() {
                return Err(Diag::DuplicatePathPrefix);
            }
            match &a.value {
                Some(toks) => {
                    match parse_path_toks(toks) {
                        Some(names) => {
                            acc.path_prefix = Some(names);
                        },
                        None => {
                            return Err(Diag::MalformedAttr { key: a.key.clone() });
                        },
                    }
                },
                None => {
                    return Err(Diag::MalformedAttr { key: a.key.clone() });
                },
            }
        } else {
            return Err(Diag::UnknownAttr { key: a.key.clone() });
        }
        proof {
            assert(attr_step(pre, rm[i as int]) == Ok::<AttrsM, DiagM>(acc.deep_view()));
        }
        i = i + 1;
    }
    proof {
        assert(rm.skip(raw.len() as int) =~= Seq::<RawAttrM>::empty());
    }
    Ok(acc)
}

/// The leaf types of an enum's variants, concatenated in declaration order.
pub open spec fn variants_leaf_tys(s: Seq<VariantDefM>) -> Result<Seq<TyM>, DiagM>
    decreases s.len(),
{
    if s.len() == 0 {
        Ok(Seq::empty())
    } else {
        match shape_leaf_tys(s[0].fields) {
            Err(e) => Err(e),
            Ok(l) => match variants_leaf_tys(s.drop_first()) {
                Err(e) => Err(e),
                Ok(rest) => Ok(l + rest),
            },
        }
    }
}

/// The leaf types of a whole definition, or the error that stops the walk.
pub open spec fn collected_leaves(d: TypeDefM) -> Result<Seq<TyM>, DiagM> {
    match d.data {
        DataShapeM::Union => Err(DiagM::UnionUnsupported),
        DataShapeM::Struct(fs) => shape_leaf_tys(fs),
        DataShapeM::Enum(vs) => variants_leaf_tys(vs),
    }
}

/// First-occurrence de-duplication of a type list.
pub open spec fn dedup_tys(s: Seq<TyM>) -> Seq<TyM>
    decreases s.len(),
{
    if s.len() == 0 {
        Seq::empty()
    } else {
        dedup_tys(s.drop_last()) + (if s.drop_last().contains(s.last()) {
            Seq::<TyM>::empty()
        } else {
            seq![s.last()]
        })
    }
}

/// One synthesized predicate per type, in order: `<type> : <bound>`.
pub open spec fn bound_preds(s: Seq<TyM>, bound: Seq<TokM>) -> Seq<PredM>
    decreases s.len(),
{
    if s.len() == 0 {
        Seq::empty()
    } else {
        bound_preds(s.drop_last(), bound) + seq![
            PredM { subject: crate::types::ty_toks(s.last()), bound },
        ]
    }
}

/// What bound synthesis yields: the declared predicates, then one predicate
/// for every distinct leaf type that bound inference kept, in first-occurrence
/// order.
pub open spec fn add_bounds_spec(d: TypeDefM, bound: Seq<TokM>) -> Result<Seq<PredM>, DiagM> {
    match collected_leaves(d) {
        Err(e) => Err(e),
        Ok(ls) => Ok(d.generics.preds + bound_preds(dedup_tys(ls), bound)),
    }
}

fn dedup_leaves(leaves: &Vec<Ty>) -> (r: Vec<Ty>)
    ensures
        view_tys(r@) == dedup_tys(view_tys(leaves@)),
{
    let ghost lm = view_tys(leaves@);
    proof {
        lemma_view_tys_index(leaves@);
    }
    let mut out: Vec<Ty> = Vec::new();
    let mut i: usize = 0;
    while i < leaves.len()
        invariant
            lm == view_tys(leaves@),
            lm.len() == leaves.len(),
            forall|k: int| 0 <= k < leaves.len() ==> lm[k] == view_tys(leaves@)[k],
            i <= leaves.len(),
            view_tys(out@) == dedup_tys(lm.take(i as int)),
        decreases leaves.len() - i,
    {
        proof {
            lemma_view_tys_index(leaves@);
        }
        let mut seen = false;
        let mut j: usize = 0;
        while j < i
            invariant
                lm == view_tys(leaves@),
                lm.len() == leaves.len(),
                forall|k: int| 0 <= k < leaves.len() ==> lm[k] == view_tys(leaves@)[k],
                i < leaves.len(),
                j <= i,
                seen ==> lm.take(i as int).contains(lm[i as int]),
                !seen ==> forall|k: int| 0 <= k < j ==> lm[k] != lm[i as int],
            decreases i - j,
        {
            proof {
                lemma_view_tys_index(leaves@);
            }
            if crate::types::ty_eq(&leaves[j], &leaves[i]) {
                proof {
                    assert(lm.take(i as int)[j as int] == lm[i as int]);
                    assert(lm.take(i as int).contains(lm[i as int]));
                }
                seen = true;
                j = i;
            } else {
                j = j + 1;
            }
        }
        let ghost opre = out@;
        if !seen {
            proof {
                let ghost target = lm[i as int];
                assert forall|k: int| 0 <= k < i implies lm.take(i as int)[k] != target by {}
                assert(!lm.take(i as int).contains(lm[i as int]));
            }
            out.push(crate::types::ty_clone(&leaves[i]));
            proof {
                lemma_view_tys_index(opre);
                lemma_view_tys_index(out@);
                assert(out@.drop_last() =~= opre);
                assert(lm.take(i + 1).drop_last() =~= lm.take(i as int));
                assert(view_tys(out@) =~= dedup_tys(lm.take(i + 1)));
            }
        } else {
            proof {
                assert(lm.take(i + 1).drop_last() =~= lm.take(i as int));
                assert(view_tys(out@) =~= dedup_tys(lm.take(i + 1)));
            }
        }
        i = i + 1;
    }
    proof {
        assert(lm.take(leaves.len() as int) =~= lm);
    }
    out
}

fn variant_list_leaves(vs: &Vec<VariantDef>) -> (r: Result<Vec<Ty>, Diag>)
    ensures
        match r {
            Ok(v) => variants_leaf_tys(vs.deep_view()) == Ok::<Seq<TyM>, DiagM>(view_tys(v@)),
            Err(e) => variants_leaf_tys(vs.deep_view()) == Err::<Seq<TyM>, DiagM>(e.deep_view()),
        },
{
    let ghost sm = vs.deep_view();
    let mut out: Vec<Ty> = Vec::new();
    proof {
        assert(sm.skip(0) =~= sm);
    }
    let mut i: usize = 0;
    while i < vs.len()
        invariant
            sm == vs.deep_view(),
            sm.len() == vs.len(),
            i <= vs.len(),
            variants_leaf_tys(sm) == match variants_leaf_tys(sm.skip(i as int)) {
                Err(e) => Err::<Seq<TyM>, DiagM>(e),
                Ok(rest) => Ok::<Seq<TyM>, DiagM>(view_tys(out@) + rest),
            },
        decreases vs.len() - i,
    {
        proof {
            assert(sm.skip(i as int)[0] == sm[i as int]);
            assert(sm.skip(i as int).drop_first() =~= sm.skip(i + 1));
        }
        match crate::fields::field_types(&vs[i].fields) {
            Err(e) => {
                return Err(e);
            },
            Ok(mut l) => {
                let ghost opre = out@;
                let ghost lmv = l@;
                out.append(&mut l);
                proof {
                    lemma_view_tys_concat(opre, lmv);
                    assert(out@ =~= opre + lmv);
                    match variants_leaf_tys(sm.skip(i + 1)) {
                        Ok(rest) => {
                            assert((view_tys(opre) + (view_tys(lmv) + rest)) =~= (view_tys(out@)
                                + rest));
                        },
                        Err(_) => {},
                    }
                }
            },
        }
        i = i + 1;
    }
    proof {
        assert(sm.skip(vs.len() as int) =~= Seq::<VariantDefM>::empty());
        assert(view_tys(out@) + Seq::<TyM>::empty() =~= view_tys(out@));
    }
    Ok(out)
}

/// Synthesizes the `where` clause of the derived implementation: the declared
/// predicates, then `<leaf type> : <bound>` for every distinct leaf type of
/// the definition's fields, skipping fields marked `recursive`.
pub fn add_bounds(input: &TypeDef, bound: &Vec<Tok>) -> (r: Result<Vec<Pred>, Diag>)
    ensures
        match r {
            Ok(preds) => add_bounds_spec(input.deep_view(), bound.deep_view()) == Ok::<
                Seq<PredM>,
                DiagM,
            >(preds.deep_view()),
            Err(e) => add_bounds_spec(input.deep_view(), bound.deep_view()) == Err::<
                Seq<PredM>,
                DiagM,
            >(e.deep_view()),
        },
{
    let leaves = match &input.data {
        DataShape::Union => {
            return Err(Diag::UnionUnsupported);
        },
        DataShape::Struct(fs) => {
            match crate::fields::field_types(fs) {
                Err(e) => {
                    return Err(e);
                },
                Ok(l) => l,
            }
        },
        DataShape::Enum(vs) => {
            match variant_list_leaves(vs) {
                Err(e) => {
                    return Err(e);
                },
                Ok(l) => l,
            }
        },
    };
    let uniq = dedup_leaves(&leaves);
    let ghost dl = dedup_tys(view_tys(leaves@));
    proof {
        lemma_view_tys_index(uniq@);
    }
    let mut preds: Vec<Pred> = Vec::new();
    let mut i: usize = 0;
    while i < input.generics.preds.len()
        invariant
            i <= input.generics.preds.len(),
            preds.deep_view() =~= input.generics.preds.deep_view().take(i as int),
        decreases input.generics.preds.len() - i,
    {
        let ghost ppre = preds.deep_view();
        let p = &input.generics.preds[i];
        preds.push(Pred { subject: toks_clone(&p.subject), bound: toks_clone(&p.bound) });
        proof {
            assert(preds.deep_view() =~= ppre.push(input.generics.preds.deep_view()[i as int]));
            assert(preds.deep_view() =~= input.generics.preds.deep_view().take(i + 1));
        }
        i = i + 1;
    }
    proof {
        assert(input.generics.preds.deep_view().take(input.generics.preds.len() as int)
            =~= input.generics.preds.deep_view());
    }
    let ghost gpreds = input.generics.preds.deep_view();
    let mut k: usize = 0;
    while k < uniq.len()
        invariant
            k <= uniq.len(),
            dl == view_tys(uniq@),
            dl.len() == uniq.len(),
            forall|j: int| 0 <= j < uniq.len() ==> dl[j] == view_tys(uniq@)[j],
            preds.deep_view() == gpreds + bound_preds(dl.take(k as int), bound.deep_view()),
        decreases uniq.len() - k,
    {
        proof {
            lemma_view_tys_index(uniq@);
        }
        let mut subject: Vec<Tok> = Vec::new();
        crate::types::push_ty_tokens(&uniq[k], &mut subject);
        let ghost ppre = preds.deep_view();
        preds.push(Pred { subject, bound: toks_clone(bound) });
        proof {
            assert(preds.deep_view() =~= ppre.push(
                PredM { subject: crate::types::ty_toks(dl[k as int]), bound: bound.deep_view() },
            ));
            assert(dl.take(k + 1).drop_last() =~= dl.take(k as int));
            assert(dl.take(k + 1).last() == dl[k as int]);
            assert(preds.deep_view() =~= gpreds + bound_preds(dl.take(k + 1), bound.deep_view()));
        }
        k = k + 1;
    }
    proof {
        assert(dl.take(uniq.len() as int) =~= dl);
    }
    Ok(preds)
}

} // verus!
