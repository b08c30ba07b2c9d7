//! Type classification and per-field expansion.
//!
//! Classification is purely syntactic: it looks at the last path segment's
//! name and its generic type arguments, never at trait information.  An
//! unrelated type that happens to be called `Vec` is classified as a sequence;
//! this is a documented property of the design, not an accident.

use vstd::prelude::*;

use crate::diag::{Diag, DiagM};
use crate::tokens::{str_eq, Delim, Tok, TokM};
use crate::types::{
    arg_size, args_size, lemma_segs_size_elem, lemma_tys_size_elem, lemma_view_args_index,
    lemma_view_segs_index, lemma_view_tys_concat, lemma_view_tys_index, ty_clone, ty_size,
    tys_clone, tys_size, view_args, view_segs, view_tys, CtorPath, CtorPathM, GenArg, GenArgM,
    PathSegM, Ty, TyM,
};

verus! {

/// Types that need special handling when a reconstructing expression is
/// built, keyed by name.  Anything else falls back to the opaque scheme.
pub enum TypeWrapper {
    Box(Ty),
    Option(Ty),
    /// `Vec<T>`, `HashSet<T>`, `VecDeque<T>`, `BTreeSet<T>`, ...
    Iterable(Ty, CtorPath),
    /// `HashMap<K, V>`, `BTreeMap<K, V>`
    MapLike(Ty, Ty, CtorPath),
    /// `Arc<T>`, `Rc<T>`
    ArcLike(Ty, CtorPath),
    /// `Cell<T>`, `RefCell<T>`
    CellLike(Ty, CtorPath),
    /// A path with no generic type arguments, like `std::string::String`.
    OtherPathZero(CtorPath),
    /// A path with one generic type argument, like `Wrapper<T>`.
    OtherPathOne(Ty, CtorPath),
    /// A path with several generic type arguments.
    OtherPathMany(Vec<Ty>, CtorPath),
    Tuple(Vec<Ty>),
}

/// Mathematical model of `TypeWrapper`.
pub enum TypeWrapperM {
    Box(TyM),
    Option(TyM),
    Iterable(TyM, CtorPathM),
    MapLike(TyM, TyM, CtorPathM),
    ArcLike(TyM, CtorPathM),
    CellLike(TyM, CtorPathM),
    OtherPathZero(CtorPathM),
    OtherPathOne(TyM, CtorPathM),
    OtherPathMany(Seq<TyM>, CtorPathM),
    Tuple(Seq<TyM>),
}

impl DeepView for TypeWrapper {
    type V = TypeWrapperM;

    open spec fn deep_view(&self) -> TypeWrapperM {
        match self {
            TypeWrapper::Box(t) => TypeWrapperM::Box(t.deep_view()),
            TypeWrapper::Option(t) => TypeWrapperM::Option(t.deep_view()),
            TypeWrapper::Iterable(t, p) => TypeWrapperM::Iterable(t.deep_view(), p.deep_view()),
            TypeWrapper::MapLike(k, v, p) => TypeWrapperM::MapLike(
                k.deep_view(),
                v.deep_view(),
                p.deep_view(),
            ),
            TypeWrapper::ArcLike(t, p) => TypeWrapperM::ArcLike(t.deep_view(), p.deep_view()),
            TypeWrapper::CellLike(t, p) => TypeWrapperM::CellLike(t.deep_view(), p.deep_view()),
            TypeWrapper::OtherPathZero(p) => TypeWrapperM::OtherPathZero(p.deep_view()),
            TypeWrapper::OtherPathOne(t, p) => TypeWrapperM::OtherPathOne(
                t.deep_view(),
                p.deep_view(),
            ),
            TypeWrapper::OtherPathMany(v, p) => TypeWrapperM::OtherPathMany(
                view_tys(v@),
                p.deep_view(),
            ),
            TypeWrapper::Tuple(v) => TypeWrapperM::Tuple(view_tys(v@)),
        }
    }
}

/// The configured set of sequence-like wrapper names.
pub open spec fn iterable_name(s: Seq<char>) -> bool {
    s == "Vec"@ || s == "HashSet"@ || s == "VecDeque"@ || s == "BTreeSet"@
}

/// The configured set of map-like wrapper names.
pub open spec fn maplike_name(s: Seq<char>) -> bool {
    s == "HashMap"@ || s == "BTreeMap"@
}

/// The configured set of cell-like wrapper names.
pub open spec fn celllike_name(s: Seq<char>) -> bool {
    s == "Cell"@ || s == "RefCell"@
}

/// The configured set of shared-pointer wrapper names.
pub open spec fn arclike_name(s: Seq<char>) -> bool {
    s == "Arc"@ || s == "Rc"@
}

/// The name table for sequence-like wrappers.
pub fn is_iterable_name(s: &str) -> (r: bool)
    ensures
        r == iterable_name(s@),
{
    str_eq(s, "Vec") || str_eq(s, "HashSet") || str_eq(s, "VecDeque") || str_eq(s, "BTreeSet")
}

/// The name table for map-like wrappers.
pub fn is_maplike_name(s: &str) -> (r: bool)
    ensures
        r == maplike_name(s@),
{
    str_eq(s, "HashMap") || str_eq(s, "BTreeMap")
}

/// The name table for cell-like wrappers.
pub fn is_celllike_name(s: &str) -> (r: bool)
    ensures
        r == celllike_name(s@),
{
    str_eq(s, "Cell") || str_eq(s, "RefCell")
}

/// The name table for shared-pointer wrappers.
pub fn is_arclike_name(s: &str) -> (r: bool)
    ensures
        r == arclike_name(s@),
{
    str_eq(s, "Arc") || str_eq(s, "Rc")
}

/// The generic type arguments of an argument list, in order; other kinds of
/// argument are dropped.
pub open spec fn type_args_of(args: Seq<GenArgM>) -> Seq<TyM>
    decreases args,
{
    if args.len() == 0 {
        Seq::empty()
    } else {
        type_args_of(args.drop_last()) + (match args.last() {
            GenArgM::TyArg(t) => seq![t],
            GenArgM::OtherArg(_) => Seq::empty(),
        })
    }
}

/// One diagnostic for every dropped (non-type) generic argument.
pub open spec fn dropped_diags(args: Seq<GenArgM>) -> Seq<DiagM>
    decreases args,
{
    if args.len() == 0 {
        Seq::empty()
    } else {
        dropped_diags(args.drop_last()) + (match args.last() {
            GenArgM::TyArg(_) => Seq::empty(),
            GenArgM::OtherArg(_) => seq![DiagM::DroppedGenericArg],
        })
    }
}

/// The names of a segment list.
pub open spec fn seg_names(s: Seq<PathSegM>) -> Seq<Seq<char>>
    decreases s,
{
    if s.len() == 0 {
        Seq::empty()
    } else {
        seg_names(s.drop_last()) + seq![s.last().name]
    }
}

/// The classification of a type, on the model level.  `None` means the type
/// is handled by the opaque fallback without any path information: either it
/// is not path syntax at all, or a recognized wrapper name carried the wrong
/// number of type arguments and classification degraded.
pub open spec fn classify(t: TyM) -> Option<TypeWrapperM> {
    match t {
        TyM::Verbatim(_) => None,
        TyM::Tuple(v) => Some(TypeWrapperM::Tuple(v)),
        TyM::Path(p) => {
            if p.segs.len() == 0 {
                None
            } else {
                let name = p.segs.last().name;
                let tys = type_args_of(p.segs.last().args);
                let cp = CtorPathM { segs: seg_names(p.segs), args: tys };
                if name == "Option"@ {
                    if tys.len() >= 1 {
                        Some(TypeWrapperM::Option(tys[0]))
                    } else {
                        None
                    }
                } else if name == "Box"@ {
                    if tys.len() >= 1 {
                        Some(TypeWrapperM::Box(tys[0]))
                    } else {
                        None
                    }
                } else if iterable_name(name) {
                    if tys.len() >= 1 {
                        Some(TypeWrapperM::Iterable(tys[0], cp))
                    } else {
                        None
                    }
                } else if maplike_name(name) {
                    if tys.len() == 2 {
                        Some(TypeWrapperM::MapLike(tys[0], tys[1], cp))
                    } else {
                        None
                    }
                } else if celllike_name(name) {
                    if tys.len() == 1 {
                        Some(TypeWrapperM::CellLike(tys[0], cp))
                    } else {
                        None
                    }
                } else if arclike_name(name) {
                    if tys.len() == 1 {
                        Some(TypeWrapperM::ArcLike(tys[0], cp))
                    } else {
                        None
                    }
                } else {
                    if tys.len() == 0 {
                        Some(TypeWrapperM::OtherPathZero(cp))
                    } else if tys.len() == 1 {
                        Some(TypeWrapperM::OtherPathOne(tys[0], cp))
                    } else {
                        Some(TypeWrapperM::OtherPathMany(tys, cp))
                    }
                }
            }
        },
    }
}

/// Whether a recognized wrapper name carries the wrong number of arguments,
/// in which case classification reports it and degrades.
pub open spec fn classify_arity_bad(t: TyM) -> bool {
    match t {
        TyM::Path(p) => {
            if p.segs.len() == 0 {
                false
            } else {
                let name = p.segs.last().name;
                let n = type_args_of(p.segs.last().args).len();
                if name == "Option"@ || name == "Box"@ || iterable_name(name) {
                    n == 0
                } else if maplike_name(name) {
                    n != 2
                } else if celllike_name(name) || arclike_name(name) {
                    n != 1
                } else {
                    false
                }
            }
        },
        _ => false,
    }
}

/// The diagnostics that classification of `t` reports.
pub open spec fn classify_diags(t: TyM) -> Seq<DiagM> {
    match t {
        TyM::Path(p) => {
            if p.segs.len() == 0 {
                Seq::empty()
            } else {
                dropped_diags(p.segs.last().args) + (if classify_arity_bad(t) {
                    seq![
                        DiagM::WrongArity {
                            name: p.segs.last().name,
                            count: type_args_of(p.segs.last().args).len(),
                        },
                    ]
                } else {
                    Seq::empty()
                })
            }
        },
        _ => Seq::empty(),
    }
}

/// Classifies a type against the wrapper name tables, reporting dropped
/// generic arguments and arity mismatches into `diags`.
pub fn type_wrapper(ty: &Ty, diags: &mut Vec<Diag>) -> (r: Option<TypeWrapper>)
    ensures
        r.deep_view() == classify(ty.deep_view()),
        final(diags).deep_view() == old(diags).deep_view() + classify_diags(ty.deep_view()),
{
    let ghost dbase = diags.deep_view();
    match ty {
        Ty::Verbatim(_) => {
            assert(diags.deep_view() =~= dbase + classify_diags(ty.deep_view()));
            None
        },
        Ty::Tuple(v) => {
            let elems = tys_clone(v);
            proof {
                assert(diags.deep_view() =~= dbase + classify_diags(ty.deep_view()));
                assert(classify(ty.deep_view()) == Some(TypeWrapperM::Tuple(view_tys(v@))));
            }
            Some(TypeWrapper::Tuple(elems))
        },
        Ty::Path(p) => {
            if p.segs.len() == 0 {
                proof {
                    lemma_view_segs_index(p.segs@);
                    assert(diags.deep_view() =~= dbase + classify_diags(ty.deep_view()));
                }
                return None;
            }
            let last = &p.segs[p.segs.len() - 1];
            let ghost lastm = view_segs(p.segs@).last();
            proof {
                lemma_view_segs_index(p.segs@);
                assert(lastm == last.deep_view());
            }
            // Keep the generic type arguments; drop the rest, with a note.
            let mut tys: Vec<Ty> = Vec::new();
            let mut i: usize = 0;
            while i < last.args.len()
                invariant
                    i <= last.args.len(),
                    view_tys(tys@) == type_args_of(view_args(last.args@).take(i as int)),
                    diags.deep_view() == dbase + dropped_diags(
                        view_args(last.args@).take(i as int),
                    ),
                decreases last.args.len() - i,
            {
                let ghost pre = tys@;
                let ghost dpre = diags.deep_view();
                let ghost va = view_args(last.args@);
                proof {
                    lemma_view_args_index(last.args@);
                    assert(va.take(i + 1).drop_last() =~= va.take(i as int));
                    assert(va.take(i + 1).last() == va[i as int]);
                }
                match &last.args[i] {
                    GenArg::TyArg(t) => {
                        tys.push(ty_clone(t));
                        proof {
                            lemma_view_tys_index(pre);
                            lemma_view_tys_index(tys@);
                            assert(tys@.drop_last() =~= pre);
                            assert(view_tys(tys@) =~= type_args_of(va.take(i + 1)));
                            assert(diags.deep_view() =~= dbase + dropped_diags(va.take(i + 1)));
                        }
                    },
                    GenArg::OtherArg(_) => {
                        diags.push(Diag::DroppedGenericArg);
                        proof {
                            assert(diags.deep_view() =~= dpre.push(DiagM::DroppedGenericArg));
                            assert(diags.deep_view() =~= dbase + dropped_diags(va.take(i + 1)));
                            assert(view_tys(tys@) =~= type_args_of(va.take(i + 1)));
                        }
                    },
                }
                i = i + 1;
            }
            proof {
                lemma_view_args_index(last.args@);
                assert(view_args(last.args@).take(last.args@.len() as int) =~= view_args(
                    last.args@,
                ));
            }
            let ghost tysm = type_args_of(lastm.args);
            assert(view_tys(tys@) == tysm);

            // The names of all segments, for the constructor path.
            let mut names: Vec<String> = Vec::new();
            let mut j: usize = 0;
            while j < p.segs.len()
                invariant
                    j <= p.segs.len(),
                    names.deep_view() == seg_names(view_segs(p.segs@).take(j as int)),
                    view_tys(tys@) == tysm,
                    diags.deep_view() == dbase + dropped_diags(view_args(last.args@)),
                decreases p.segs.len() - j,
            {
                let ghost npre = names.deep_view();
                let ghost vsgs = view_segs(p.segs@);
                proof {
                    lemma_view_segs_index(p.segs@);
                    assert(vsgs.take(j + 1).drop_last() =~= vsgs.take(j as int));
                    assert(vsgs.take(j + 1).last() == vsgs[j as int]);
                }
                names.push(p.segs[j].name.clone());
                proof {
                    assert(names.deep_view() =~= npre.push(p.segs@[j as int].name@));
                    assert(names.deep_view() =~= seg_names(vsgs.take(j + 1)));
                }
                j = j + 1;
            }
            proof {
                assert(view_segs(p.segs@).take(p.segs@.len() as int) =~= view_segs(p.segs@));
            }

            let name = &last.name;
            let nargs = tys.len();
            if str_eq(name.as_str(), "Option") {
                if nargs >= 1 {
                    proof {
                        lemma_view_tys_index(tys@);
                    }
                    let inner = ty_clone(&tys[0]);
                    proof {
                        assert(inner.deep_view() == tysm[0]);
                        assert(classify(ty.deep_view()) == Some(TypeWrapperM::Option(tysm[0])));
                        assert(diags.deep_view() =~= dbase + classify_diags(ty.deep_view()));
                    }
                    Some(TypeWrapper::Option(inner))
                } else {
                    proof {
                        lemma_view_tys_index(tys@);
                    }
                    let ghost dpre = diags.deep_view();
                    diags.push(Diag::WrongArity { name: name.clone(), count: nargs });
                    proof {
                        assert(diags.deep_view() =~= dpre.push(
                            DiagM::WrongArity { name: last.name@, count: nargs as nat },
                        ));
                        assert(classify_arity_bad(ty.deep_view()));
                        assert(diags.deep_view() =~= dbase + classify_diags(ty.deep_view()));
                    }
                    None
                }
            } else if str_eq(name.as_str(), "Box") {
                if nargs >= 1 {
                    proof {
                        lemma_view_tys_index(tys@);
                    }
                    let inner = ty_clone(&tys[0]);
                    proof {
                        assert(inner.deep_view() == tysm[0]);
                        assert(classify(ty.deep_view()) == Some(TypeWrapperM::Box(tysm[0])));
                        assert(diags.deep_view() =~= dbase + classify_diags(ty.deep_view()));
                    }
                    Some(TypeWrapper::Box(inner))
                } else {
                    proof {
                        lemma_view_tys_index(tys@);
                    }
                    let ghost dpre = diags.deep_view();
                    diags.push(Diag::WrongArity { name: name.clone(), count: nargs });
                    proof {
                        assert(diags.deep_view() =~= dpre.push(
                            DiagM::WrongArity { name: last.name@, count: nargs as nat },
                        ));
                        assert(classify_arity_bad(ty.deep_view()));
                        assert(diags.deep_view() =~= dbase + classify_diags(ty.deep_view()));
                    }
                    None
                }
            } else if is_iterable_name(name.as_str()) {
                if nargs >= 1 {
                    proof {
                        lemma_view_tys_index(tys@);
                    }
                    let inner = ty_clone(&tys[0]);
                    let cp = CtorPath { segs: names, args: tys };
                    let ghost cpm = CtorPathM {
                        segs: seg_names(view_segs(p.segs@)),
                        args: tysm,
                    };
                    proof {
                        assert(cp.deep_view() == cpm);
                        assert(inner.deep_view() == tysm[0]);
                        assert(classify(ty.deep_view()) == Some(
                            TypeWrapperM::Iterable(tysm[0], cpm),
                        ));
                        assert(diags.deep_view() =~= dbase + classify_diags(ty.deep_view()));
                    }
                    Some(TypeWrapper::Iterable(inner, cp))
                } else {
                    proof {
                        lemma_view_tys_index(tys@);
                    }
                    let ghost dpre = diags.deep_view();
                    diags.push(Diag::WrongArity { name: name.clone(), count: nargs });
                    proof {
                        assert(diags.deep_view() =~= dpre.push(
                            DiagM::WrongArity { name: last.name@, count: nargs as nat },
                        ));
                        assert(classify_arity_bad(ty.deep_view()));
                        assert(diags.deep_view() =~= dbase + classify_diags(ty.deep_view()));
                    }
                    None
                }
            } else if is_maplike_name(name.as_str()) {
                if nargs == 2 {
                    proof {
                        lemma_view_tys_index(tys@);
                    }
                    let k = ty_clone(&tys[0]);
                    let v = ty_clone(&tys[1]);
                    let cp = CtorPath { segs: names, args: tys };
                    let ghost cpm = CtorPathM {
                        segs: seg_names(view_segs(p.segs@)),
                        args: tysm,
                    };
                    proof {
                        assert(cp.deep_view() == cpm);
                        assert(classify(ty.deep_view()) == Some(
                            TypeWrapperM::MapLike(tysm[0], tysm[1], cpm),
                        ));
                        assert(diags.deep_view() =~= dbase + classify_diags(ty.deep_view()));
                    }
                    Some(TypeWrapper::MapLike(k, v, cp))
                } else {
                    proof {
                        lemma_view_tys_index(tys@);
                    }
                    let ghost dpre = diags.deep_view();
                    diags.push(Diag::WrongArity { name: name.clone(), count: nargs });
                    proof {
                        assert(diags.deep_view() =~= dpre.push(
                            DiagM::WrongArity { name: last.name@, count: nargs as nat },
                        ));
                        assert(classify_arity_bad(ty.deep_view()));
                        assert(diags.deep_view() =~= dbase + classify_diags(ty.deep_view()));
                    }
                    None
                }
            } else if is_celllike_name(name.as_str()) {
                if nargs == 1 {
                    proof {
                        lemma_view_tys_index(tys@);
                    }
                    let inner = ty_clone(&tys[0]);
                    let cp = CtorPath { segs: names, args: tys };
                    let ghost cpm = CtorPathM {
                        segs: seg_names(view_segs(p.segs@)),
                        args: tysm,
                    };
                    proof {
                        assert(cp.deep_view() == cpm);
                        assert(classify(ty.deep_view()) == Some(
                            TypeWrapperM::CellLike(tysm[0], cpm),
                        ));
                        assert(diags.deep_view() =~= dbase + classify_diags(ty.deep_view()));
                    }
                    Some(TypeWrapper::CellLike(inner, cp))
                } else {
                    proof {
                        lemma_view_tys_index(tys@);
                    }
                    let ghost dpre = diags.deep_view();
                    diags.push(Diag::WrongArity { name: name.clone(), count: nargs });
                    proof {
                        assert(diags.deep_view() =~= dpre.push(
                            DiagM::WrongArity { name: last.name@, count: nargs as nat },
                        ));
                        assert(classify_arity_bad(ty.deep_view()));
                        assert(diags.deep_view() =~= dbase + classify_diags(ty.deep_view()));
                    }
                    None
                }
            } else if is_arclike_name(name.as_str()) {
                if nargs == 1 {
                    proof {
                        lemma_view_tys_index(tys@);
                    }
                    let inner = ty_clone(&tys[0]);
                    let cp = CtorPath { segs: names, args: tys };
                    let ghost cpm = CtorPathM {
                        segs: seg_names(view_segs(p.segs@)),
                        args: tysm,
                    };
                    proof {
                        assert(cp.deep_view() == cpm);
                        assert(classify(ty.deep_view()) == Some(
                            TypeWrapperM::ArcLike(tysm[0], cpm),
                        ));
                        assert(diags.deep_view() =~= dbase + classify_diags(ty.deep_view()));
                    }
                    Some(TypeWrapper::ArcLike(inner, cp))
                } else {
                    proof {
                        lemma_view_tys_index(tys@);
                    }
                    let ghost dpre = diags.deep_view();
                    diags.push(Diag::WrongArity { name: name.clone(), count: nargs });
                    proof {
                        assert(diags.deep_view() =~= dpre.push(
                            DiagM::WrongArity { name: last.name@, count: nargs as nat },
                        ));
                        assert(classify_arity_bad(ty.deep_view()));
                        assert(diags.deep_view() =~= dbase + classify_diags(ty.deep_view()));
                    }
                    None
                }
            } else {
                if nargs == 0 {
                    let cp = CtorPath { segs: names, args: tys };
                    let ghost cpm = CtorPathM {
                        segs: seg_names(view_segs(p.segs@)),
                        args: tysm,
                    };
                    proof {
                        lemma_view_tys_index(tys@);
                        assert(cp.deep_view() == cpm);
                        assert(classify(ty.deep_view()) == Some(TypeWrapperM::OtherPathZero(cpm)));
                        assert(diags.deep_view() =~= dbase + classify_diags(ty.deep_view()));
                    }
                    Some(TypeWrapper::OtherPathZero(cp))
                } else if nargs == 1 {
                    proof {
                        lemma_view_tys_index(tys@);
                    }
                    let inner = ty_clone(&tys[0]);
                    let cp = CtorPath { segs: names, args: tys };
                    let ghost cpm = CtorPathM {
                        segs: seg_names(view_segs(p.segs@)),
                        args: tysm,
                    };
                    proof {
                        assert(cp.deep_view() == cpm);
                        assert(classify(ty.deep_view()) == Some(
                            TypeWrapperM::OtherPathOne(tysm[0], cpm),
                        ));
                        assert(diags.deep_view() =~= dbase + classify_diags(ty.deep_view()));
                    }
                    Some(TypeWrapper::OtherPathOne(inner, cp))
                } else {
                    let many = tys_clone(&tys);
                    let cp = CtorPath { segs: names, args: tys };
                    let ghost cpm = CtorPathM {
                        segs: seg_names(view_segs(p.segs@)),
                        args: tysm,
                    };
                    proof {
                        lemma_view_tys_index(tys@);
                        assert(cp.deep_view() == cpm);
                        assert(classify(ty.deep_view()) == Some(
                            TypeWrapperM::OtherPathMany(tysm, cpm),
                        ));
                        assert(diags.deep_view() =~= dbase + classify_diags(ty.deep_view()));
                    }
                    Some(TypeWrapper::OtherPathMany(many, cp))
                }
            }
        },
    }
}

/// The kept type arguments weigh no more than the whole argument list.
pub proof fn lemma_type_args_size(args: Seq<GenArgM>)
    ensures
        tys_size(type_args_of(args)) <= args_size(args),
    decreases args,
{
    if args.len() > 0 {
        let pre = args.drop_last();
        lemma_type_args_size(pre);
        let s = type_args_of(args);
        assert(args_size(args) == args_size(pre) + arg_size(args.last()));
        match args.last() {
            GenArgM::TyArg(t) => {
                assert(s == type_args_of(pre) + seq![t]);
                assert(s.len() > 0);
                assert(s.drop_last() =~= type_args_of(pre));
                assert(s.last() == t);
                assert(tys_size(s) == tys_size(s.drop_last()) + ty_size(s.last()));
                assert(tys_size(s) == tys_size(type_args_of(pre)) + ty_size(t));
                assert(arg_size(args.last()) == 1 + ty_size(t));
            },
            GenArgM::OtherArg(_) => {
                assert(s =~= type_args_of(pre));
                assert(tys_size(s) == tys_size(type_args_of(pre)));
            },
        }
    }
}

/// Every component that classification hands back is strictly smaller than
/// the classified type.
pub proof fn lemma_classify_size(t: TyM)
    ensures
        (classify(t) matches Some(TypeWrapperM::Box(i)) ==> ty_size(i) < ty_size(t)),
        (classify(t) matches Some(TypeWrapperM::Option(i)) ==> ty_size(i) < ty_size(t)),
        (classify(t) matches Some(TypeWrapperM::Iterable(i, p)) ==> ty_size(i) < ty_size(t)),
        (classify(t) matches Some(TypeWrapperM::CellLike(i, p)) ==> ty_size(i) < ty_size(t)),
        (classify(t) matches Some(TypeWrapperM::ArcLike(i, p)) ==> ty_size(i) < ty_size(t)),
        (classify(t) matches Some(TypeWrapperM::OtherPathOne(i, p)) ==> ty_size(i) < ty_size(t)),
        (classify(t) matches Some(TypeWrapperM::MapLike(k, v, p)) ==> ty_size(k) < ty_size(t)
            && ty_size(v) < ty_size(t)),
        (classify(t) matches Some(TypeWrapperM::Tuple(vs)) ==> tys_size(vs) < ty_size(t)),
        (classify(t) matches Some(TypeWrapperM::OtherPathMany(vs, p)) ==> tys_size(vs) < ty_size(
            t,
        )),
{
    match t {
        TyM::Path(p) => {
            if p.segs.len() > 0 {
                let args = p.segs.last().args;
                let tys = type_args_of(args);
                lemma_type_args_size(args);
                lemma_segs_size_elem(p.segs, p.segs.len() - 1);
                assert(tys_size(tys) < ty_size(t));
                assert forall|j: int| 0 <= j < tys.len() implies ty_size(tys[j]) <= tys_size(
                    tys,
                ) by {
                    lemma_tys_size_elem(tys, j);
                }
            }
        },
        _ => {},
    }
}

/// The leaf types reachable from a type: what is left after stripping every
/// recognized wrapper shape.  A path with exactly one generic argument hands
/// back that argument itself; one with several is walked further, as is a
/// tuple.
pub open spec fn leaf_tys(t: TyM) -> Seq<TyM>
    decreases ty_size(t), 0nat, 0nat,
    via leaf_tys_dec
{
    match classify(t) {
        Some(TypeWrapperM::Box(i)) => leaf_tys(i),
        Some(TypeWrapperM::Option(i)) => leaf_tys(i),
        Some(TypeWrapperM::Iterable(i, _)) => leaf_tys(i),
        Some(TypeWrapperM::MapLike(k, v, _)) => leaf_tys(k) + leaf_tys(v),
        Some(TypeWrapperM::Tuple(vs)) => leaf_tys_list(vs),
        Some(TypeWrapperM::CellLike(i, _)) => leaf_tys(i),
        Some(TypeWrapperM::ArcLike(i, _)) => leaf_tys(i),
        Some(TypeWrapperM::OtherPathZero(_)) => seq![t],
        Some(TypeWrapperM::OtherPathOne(i, _)) => seq![i],
        Some(TypeWrapperM::OtherPathMany(vs, _)) => leaf_tys_list(vs),
        None => seq![t],
    }
}

#[via_fn]
proof fn leaf_tys_dec(t: TyM) {
    lemma_classify_size(t);
}

/// The concatenated leaf types of a type list.
pub open spec fn leaf_tys_list(s: Seq<TyM>) -> Seq<TyM>
    decreases tys_size(s), 1nat, s.len(),
    via leaf_tys_list_dec
{
    if s.len() == 0 {
        Seq::empty()
    } else {
        leaf_tys_list(s.drop_last()) + leaf_tys(s.last())
    }
}

#[via_fn]
proof fn leaf_tys_list_dec(s: Seq<TyM>) {
    if s.len() > 0 {
        lemma_tys_size_elem(s, s.len() - 1);
    }
}

/// The leaf types of a type list, element-wise.
pub proof fn lemma_leaf_tys_list_step(s: Seq<TyM>, i: int)
    requires
        0 <= i < s.len(),
    ensures
        leaf_tys_list(s.take(i + 1)) == leaf_tys_list(s.take(i)) + leaf_tys(s[i]),
{
    assert(s.take(i + 1).drop_last() =~= s.take(i));
    assert(s.take(i + 1).last() == s[i]);
}

/// Recursive implementation of the leaf-type walk on a single type.
pub fn leaf_types_impl(ty: &Ty) -> (r: Vec<Ty>)
    ensures
        view_tys(r@) == leaf_tys(ty.deep_view()),
    decreases ty_size(ty.deep_view()), 1nat,
{
    proof {
        lemma_classify_size(ty.deep_view());
    }
    // The walk reuses the classifier; its diagnostics are reported where the
    // field expander classifies the same types, so they are not kept here.
    let mut diags: Vec<Diag> = Vec::new();
    let w = type_wrapper(ty, &mut diags);
    match w {
        Some(TypeWrapper::Box(inner)) => leaf_types_impl(&inner),
        Some(TypeWrapper::Option(inner)) => leaf_types_impl(&inner),
        Some(TypeWrapper::Iterable(inner, _)) => leaf_types_impl(&inner),
        Some(TypeWrapper::CellLike(inner, _)) => leaf_types_impl(&inner),
        Some(TypeWrapper::ArcLike(inner, _)) => leaf_types_impl(&inner),
        Some(TypeWrapper::MapLike(k, v, _)) => {
            let mut r = leaf_types_impl(&k);
            let mut r2 = leaf_types_impl(&v);
            let ghost ra = r@;
            let ghost rb = r2@;
            r.append(&mut r2);
            proof {
                lemma_view_tys_concat(ra, rb);
                assert(r@ =~= ra + rb);
                assert(view_tys(r@) =~= leaf_tys(ty.deep_view()));
            }
            r
        },
        Some(TypeWrapper::Tuple(vs)) => leaf_types_list(&vs, Ghost(ty.deep_view())),
        Some(TypeWrapper::OtherPathMany(vs, _)) => leaf_types_list(&vs, Ghost(ty.deep_view())),
        Some(TypeWrapper::OtherPathOne(inner, _)) => {
            let mut r: Vec<Ty> = Vec::new();
            r.push(inner);
            proof {
                lemma_view_tys_index(r@);
                assert(view_tys(r@) =~= leaf_tys(ty.deep_view()));
            }
            r
        },
        Some(TypeWrapper::OtherPathZero(_)) => {
            let mut r: Vec<Ty> = Vec::new();
            r.push(ty_clone(ty));
            proof {
                lemma_view_tys_index(r@);
                assert(view_tys(r@) =~= leaf_tys(ty.deep_view()));
            }
            r
        },
        None => {
            let mut r: Vec<Ty> = Vec::new();
            r.push(ty_clone(ty));
            proof {
                lemma_view_tys_index(r@);
                assert(view_tys(r@) =~= leaf_tys(ty.deep_view()));
            }
            r
        },
    }
}

/// The leaf-type walk over a list of types whose summed size is strictly
/// below the size of the type they came from.
fn leaf_types_list(vs: &Vec<Ty>, parent: Ghost<TyM>) -> (r: Vec<Ty>)
    requires
        tys_size(view_tys(vs@)) < ty_size(parent@),
    ensures
        view_tys(r@) == leaf_tys_list(view_tys(vs@)),
    decreases ty_size(parent@), 0nat,
{
    let ghost vsm = view_tys(vs@);
    proof {
        lemma_view_tys_index(vs@);
    }
    let mut r: Vec<Ty> = Vec::new();
    let mut i: usize = 0;
    while i < vs.len()
        invariant
            i <= vs.len(),
            vsm == view_tys(vs@),
            vsm.len() == vs.len(),
            tys_size(vsm) < ty_size(parent@),
            forall|j: int| 0 <= j < vs.len() ==> vsm[j] == view_tys(vs@)[j],
            view_tys(r@) == leaf_tys_list(vsm.take(i as int)),
        decreases vs.len() - i,
    {
        proof {
            lemma_view_tys_index(vs@);
            lemma_tys_size_elem(vsm, i as int);
        }
        let mut r2 = leaf_types_impl(&vs[i]);
        let ghost ra = r@;
        let ghost rb = r2@;
        r.append(&mut r2);
        proof {
            lemma_view_tys_concat(ra, rb);
            assert(r@ =~= ra + rb);
            lemma_leaf_tys_list_step(vsm, i as int);
            assert(view_tys(r@) =~= leaf_tys_list(vsm.take(i + 1)));
        }
        i = i + 1;
    }
    assert(vsm.take(vs.len() as int) =~= vsm);
    r
}

/// The result of expanding one field: the expression fragment that rebuilds
/// the value, and the preparatory statements that must precede it.
pub struct FieldPlan {
    pub exp: Vec<Tok>,
    pub top: Vec<Tok>,
}

/// Mathematical model of a field plan, together with the diagnostics the
/// expansion reports.
pub struct PlanM {
    pub exp: Seq<TokM>,
    pub top: Seq<TokM>,
    pub diags: Seq<DiagM>,
}

/// `# name`: an interpolation of a runtime-bound fragment.
pub open spec fn hash_ref(name: Seq<char>) -> Seq<TokM> {
    seq![TokM::Punct("#"@), TokM::Ident(name)]
}

/// `# name . into ( )`: the opaque fallback expression.
pub open spec fn opaque_exp(name: Seq<char>) -> Seq<TokM> {
    hash_ref(name) + seq![
        TokM::Punct("."@),
        TokM::Ident("into"@),
        TokM::Open(Delim::Paren),
        TokM::Close(Delim::Paren),
    ]
}

/// `:: quote :: quote ! {`: the head of an emitted quotation.
pub open spec fn quote_open() -> Seq<TokM> {
    seq![
        TokM::Punct("::"@),
        TokM::Ident("quote"@),
        TokM::Punct("::"@),
        TokM::Ident("quote"@),
        TokM::Punct("!"@),
        TokM::Open(Delim::Brace),
    ]
}

/// `# ( # name ) , *`: repetition of a collected fragment list.
pub open spec fn expand_sequence_toks(name: Seq<char>) -> Seq<TokM> {
    seq![
        TokM::Punct("#"@),
        TokM::Open(Delim::Paren),
        TokM::Punct("#"@),
        TokM::Ident(name),
        TokM::Close(Delim::Paren),
        TokM::Punct(","@),
        TokM::Punct("*"@),
    ]
}

/// `. collect :: < Vec < _ > > ( ) ;`: the tail of a per-element mapping.
pub open spec fn collect_tail() -> Seq<TokM> {
    seq![
        TokM::Punct("."@),
        TokM::Ident("collect"@),
        TokM::Punct("::"@),
        TokM::Punct("<"@),
        TokM::Ident("Vec"@),
        TokM::Punct("<"@),
        TokM::Ident("_"@),
        TokM::Punct(">"@),
        TokM::Punct(">"@),
        TokM::Open(Delim::Paren),
        TokM::Close(Delim::Paren),
        TokM::Punct(";"@),
    ]
}

/// `<path> :: from ( [ # ( # name ) , * ] )`: a from-iterable construction.
pub open spec fn from_iter_exp(cp: CtorPathM, name: Seq<char>) -> Seq<TokM> {
    crate::types::ctor_path_toks(cp) + seq![
        TokM::Punct("::"@),
        TokM::Ident("from"@),
        TokM::Open(Delim::Paren),
        TokM::Open(Delim::Bracket),
    ] + expand_sequence_toks(name) + seq![TokM::Close(Delim::Bracket), TokM::Close(Delim::Paren)]
}

/// The synthetic name of the binding of tuple position `i`.
pub open spec fn tuple_name(name: Seq<char>, i: nat) -> Seq<char> {
    name + "_tuple_"@ + crate::tokens::dec_text(i)
}

/// `let <name>_tuple_<i> = & name . <i> ;`: one tuple-position binding.
pub open spec fn tuple_bind(name: Seq<char>, i: nat) -> Seq<TokM> {
    seq![
        TokM::Ident("let"@),
        TokM::Ident(tuple_name(name, i)),
        TokM::Punct("="@),
        TokM::Punct("&"@),
        TokM::Ident(name),
        TokM::Punct("."@),
        TokM::Lit(crate::tokens::dec_text(i)),
        TokM::Punct(";"@),
    ]
}

/// The bindings of the first `n` tuple positions, in order.
pub open spec fn tuple_binds(name: Seq<char>, n: nat) -> Seq<TokM>
    decreases n,
{
    if n == 0 {
        Seq::empty()
    } else {
        tuple_binds(name, (n - 1) as nat) + tuple_bind(name, (n - 1) as nat)
    }
}

/// The default expansion of one field: the expression fragment, preparatory
/// statements, and diagnostics, driven by classification.
pub open spec fn expand_field_spec(t: TyM, name: Seq<char>) -> PlanM
    decreases ty_size(t), 0nat, 0nat,
    via expand_field_spec_dec
{
    match classify(t) {
        Some(TypeWrapperM::Box(inner)) => {
            let r = expand_field_spec(inner, name);
            PlanM {
                exp: seq![
                    TokM::Ident("Box"@),
                    TokM::Punct("::"@),
                    TokM::Ident("new"@),
                    TokM::Open(Delim::Paren),
                ] + r.exp + seq![TokM::Close(Delim::Paren)],
                top: r.top,
                diags: classify_diags(t) + r.diags,
            }
        },
        Some(TypeWrapperM::Option(inner)) => {
            let gen = name + "_option"@;
            let val = name + "_option_val"@;
            let r = expand_field_spec(inner, val);
            PlanM {
                exp: hash_ref(gen),
                top: seq![
                    TokM::Ident("let"@),
                    TokM::Ident(gen),
                    TokM::Punct("="@),
                    TokM::Ident("match"@),
                    TokM::Ident(name),
                    TokM::Open(Delim::Brace),
                    TokM::Ident("Some"@),
                    TokM::Open(Delim::Paren),
                    TokM::Ident(val),
                    TokM::Close(Delim::Paren),
                    TokM::Punct("=>"@),
                    TokM::Open(Delim::Brace),
                ] + r.top + quote_open() + seq![TokM::Ident("Some"@), TokM::Open(Delim::Paren)]
                    + r.exp + seq![
                    TokM::Close(Delim::Paren),
                    TokM::Close(Delim::Brace),
                    TokM::Close(Delim::Brace),
                    TokM::Punct(","@),
                    TokM::Ident("None"@),
                    TokM::Punct("=>"@),
                ] + quote_open() + seq![
                    TokM::Ident("None"@),
                    TokM::Close(Delim::Brace),
                    TokM::Punct(","@),
                    TokM::Close(Delim::Brace),
                    TokM::Punct(";"@),
                ],
                diags: classify_diags(t) + r.diags,
            }
        },
        Some(TypeWrapperM::Iterable(inner, cp)) => {
            let ei = name + "_vec_like"@;
            let ii = name + "_vec_like_item"@;
            let r = expand_field_spec(inner, ii);
            PlanM {
                exp: if cp.segs.last() == "Vec"@ {
                    seq![TokM::Ident("vec"@), TokM::Punct("!"@), TokM::Open(Delim::Bracket)]
                        + expand_sequence_toks(ei) + seq![TokM::Close(Delim::Bracket)]
                } else {
                    from_iter_exp(cp, ei)
                },
                top: seq![
                    TokM::Ident("let"@),
                    TokM::Ident(ei),
                    TokM::Punct("="@),
                    TokM::Ident(name),
                    TokM::Punct("."@),
                    TokM::Ident("iter"@),
                    TokM::Open(Delim::Paren),
                    TokM::Close(Delim::Paren),
                    TokM::Punct("."@),
                    TokM::Ident("map"@),
                    TokM::Open(Delim::Paren),
                    TokM::Punct("|"@),
                    TokM::Ident(ii),
                    TokM::Punct(":"@),
                    TokM::Punct("&"@),
                ] + crate::types::ty_toks(inner) + seq![
                    TokM::Punct("|"@),
                    TokM::Open(Delim::Brace),
                ] + r.top + quote_open() + r.exp + seq![
                    TokM::Close(Delim::Brace),
                    TokM::Close(Delim::Brace),
                    TokM::Close(Delim::Paren),
                ] + collect_tail(),
                diags: classify_diags(t) + r.diags,
            }
        },
        Some(TypeWrapperM::MapLike(kt, vt, cp)) => {
            let m = name + "_map"@;
            let kn = name + "_map_key"@;
            let vn = name + "_map_value"@;
            let rk = expand_field_spec(kt, kn);
            let rv = expand_field_spec(vt, vn);
            PlanM {
                exp: from_iter_exp(cp, m),
                top: seq![
                    TokM::Ident("let"@),
                    TokM::Ident(m),
                    TokM::Punct("="@),
                    TokM::Ident(name),
                    TokM::Punct("."@),
                    TokM::Ident("iter"@),
                    TokM::Open(Delim::Paren),
                    TokM::Close(Delim::Paren),
                    TokM::Punct("."@),
                    TokM::Ident("map"@),
                    TokM::Open(Delim::Paren),
                    TokM::Punct("|"@),
                    TokM::Open(Delim::Paren),
                    TokM::Ident(kn),
                    TokM::Punct(","@),
                    TokM::Ident(vn),
                    TokM::Close(Delim::Paren),
                    TokM::Punct("|"@),
                    TokM::Open(Delim::Brace),
                ] + rk.top + rv.top + quote_open() + seq![TokM::Open(Delim::Paren)] + rk.exp
                    + seq![TokM::Punct(","@)] + rv.exp + seq![
                    TokM::Close(Delim::Paren),
                    TokM::Close(Delim::Brace),
                    TokM::Close(Delim::Brace),
                    TokM::Close(Delim::Paren),
                ] + collect_tail(),
                diags: classify_diags(t) + rk.diags + rv.diags,
            }
        },
        Some(TypeWrapperM::Tuple(ts)) => {
            PlanM {
                exp: seq![TokM::Open(Delim::Paren)] + tuple_exps(ts, name) + seq![
                    TokM::Close(Delim::Paren),
                ],
                top: tuple_binds(name, ts.len()) + tuple_tops(ts, name),
                diags: classify_diags(t) + tuple_diags(ts, name),
            }
        },
        Some(TypeWrapperM::CellLike(inner, cp)) => {
            let ci = name + "_cell"@;
            let r = expand_field_spec(inner, ci);
            PlanM {
                exp: crate::types::ctor_path_toks(cp) + seq![
                    TokM::Punct("::"@),
                    TokM::Ident("new"@),
                    TokM::Open(Delim::Paren),
                ] + r.exp + seq![TokM::Close(Delim::Paren)],
                top: seq![
                    TokM::Ident("let"@),
                    TokM::Ident(ci),
                    TokM::Punct("="@),
                    TokM::Ident(name),
                    TokM::Punct("."@),
                    TokM::Ident("clone"@),
                    TokM::Open(Delim::Paren),
                    TokM::Close(Delim::Paren),
                    TokM::Punct("."@),
                    TokM::Ident("into_inner"@),
                    TokM::Open(Delim::Paren),
                    TokM::Close(Delim::Paren),
                    TokM::Punct(";"@),
                ] + r.top,
                diags: classify_diags(t) + seq![DiagM::CellAliasing { name: cp.segs.last() }]
                    + r.diags,
            }
        },
        Some(TypeWrapperM::ArcLike(inner, cp)) => {
            let ai = name + "_arc"@;
            let r = expand_field_spec(inner, ai);
            PlanM {
                exp: crate::types::ctor_path_toks(cp) + seq![
                    TokM::Punct("::"@),
                    TokM::Ident("new"@),
                    TokM::Open(Delim::Paren),
                ] + r.exp + seq![TokM::Close(Delim::Paren)],
                top: seq![
                    TokM::Ident("let"@),
                    TokM::Ident(ai),
                    TokM::Punct("="@),
                    TokM::Ident(name),
                    TokM::Punct("."@),
                    TokM::Ident("as_ref"@),
                    TokM::Open(Delim::Paren),
                    TokM::Close(Delim::Paren),
                    TokM::Punct(";"@),
                ] + r.top,
                diags: classify_diags(t) + seq![DiagM::SharedAliasing { name: cp.segs.last() }]
                    + r.diags,
            }
        },
        Some(TypeWrapperM::OtherPathZero(_)) => PlanM {
            exp: opaque_exp(name),
            top: Seq::empty(),
            diags: classify_diags(t),
        },
        Some(TypeWrapperM::OtherPathOne(_, _)) => PlanM {
            exp: opaque_exp(name),
            top: Seq::empty(),
            diags: classify_diags(t),
        },
        Some(TypeWrapperM::OtherPathMany(_, _)) => PlanM {
            exp: opaque_exp(name),
            top: Seq::empty(),
            diags: classify_diags(t),
        },
        None => PlanM { exp: opaque_exp(name), top: Seq::empty(), diags: classify_diags(t) },
    }
}

#[via_fn]
proof fn expand_field_spec_dec(t: TyM, name: Seq<char>) {
    lemma_classify_size(t);
}

/// The preparatory statements of the tuple positions, in order.
pub open spec fn tuple_tops(ts: Seq<TyM>, name: Seq<char>) -> Seq<TokM>
    decreases tys_size(ts), 1nat, ts.len(),
    via tuple_tops_dec
{
    if ts.len() == 0 {
        Seq::empty()
    } else {
        tuple_tops(ts.drop_last(), name) + expand_field_spec(
            ts.last(),
            tuple_name(name, (ts.len() - 1) as nat),
        ).top
    }
}

#[via_fn]
proof fn tuple_tops_dec(ts: Seq<TyM>, name: Seq<char>) {
    if ts.len() > 0 {
        lemma_tys_size_elem(ts, ts.len() - 1);
    }
}

/// The comma-joined expression fragments of the tuple positions.
pub open spec fn tuple_exps(ts: Seq<TyM>, name: Seq<char>) -> Seq<TokM>
    decreases tys_size(ts), 1nat, ts.len(),
    via tuple_exps_dec
{
    if ts.len() == 0 {
        Seq::empty()
    } else if ts.len() == 1 {
        expand_field_spec(ts[0], tuple_name(name, 0)).exp
    } else {
        tuple_exps(ts.drop_last(), name) + seq![TokM::Punct(","@)] + expand_field_spec(
            ts.last(),
            tuple_name(name, (ts.len() - 1) as nat),
        ).exp
    }
}

#[via_fn]
proof fn tuple_exps_dec(ts: Seq<TyM>, name: Seq<char>) {
    if ts.len() > 0 {
        lemma_tys_size_elem(ts, ts.len() - 1);
        lemma_tys_size_elem(ts, 0);
    }
}

/// The diagnostics of the tuple positions, in order.
pub open spec fn tuple_diags(ts: Seq<TyM>, name: Seq<char>) -> Seq<DiagM>
    decreases tys_size(ts), 1nat, ts.len(),
    via tuple_diags_dec
{
    if ts.len() == 0 {
        Seq::empty()
    } else {
        tuple_diags(ts.drop_last(), name) + expand_field_spec(
            ts.last(),
            tuple_name(name, (ts.len() - 1) as nat),
        ).diags
    }
}

#[via_fn]
proof fn tuple_diags_dec(ts: Seq<TyM>, name: Seq<char>) {
    if ts.len() > 0 {
        lemma_tys_size_elem(ts, ts.len() - 1);
    }
}

/// The element-wise names of a segment list.
pub proof fn lemma_seg_names_index(s: Seq<PathSegM>)
    ensures
        seg_names(s).len() == s.len(),
        forall|i: int| 0 <= i < s.len() ==> seg_names(s)[i] == s[i].name,
    decreases s,
{
    if s.len() > 0 {
        lemma_seg_names_index(s.drop_last());
    }
}

pub(crate) fn push_quote_open(out: &mut Vec<Tok>)
    ensures
        final(out).deep_view() == old(out).deep_view() + quote_open(),
{
    let ghost base = out.deep_view();
    crate::tokens::push_punct(out, "::");
    crate::tokens::push_ident(out, "quote");
    crate::tokens::push_punct(out, "::");
    crate::tokens::push_ident(out, "quote");
    crate::tokens::push_punct(out, "!");
    crate::tokens::push_open(out, Delim::Brace);
    assert(out.deep_view() =~= base + quote_open());
}

fn push_collect_tail(out: &mut Vec<Tok>)
    ensures
        final(out).deep_view() == old(out).deep_view() + collect_tail(),
{
    let ghost base = out.deep_view();
    crate::tokens::push_punct(out, ".");
    crate::tokens::push_ident(out, "collect");
    crate::tokens::push_punct(out, "::");
    crate::tokens::push_punct(out, "<");
    crate::tokens::push_ident(out, "Vec");
    crate::tokens::push_punct(out, "<");
    crate::tokens::push_ident(out, "_");
    crate::tokens::push_punct(out, ">");
    crate::tokens::push_punct(out, ">");
    crate::tokens::push_open(out, Delim::Paren);
    crate::tokens::push_close(out, Delim::Paren);
    crate::tokens::push_punct(out, ";");
    assert(out.deep_view() =~= base + collect_tail());
}

/// Emits `#(#name),*`, the repetition that splices a collected fragment
/// list with comma separation.
pub fn expand_sequence(name: &str, out: &mut Vec<Tok>)
    ensures
        final(out).deep_view() == old(out).deep_view() + expand_sequence_toks(name@),
{
    let ghost base = out.deep_view();
    crate::tokens::push_punct(out, "#");
    crate::tokens::push_open(out, Delim::Paren);
    crate::tokens::push_punct(out, "#");
    crate::tokens::push_ident(out, name);
    crate::tokens::push_close(out, Delim::Paren);
    crate::tokens::push_punct(out, ",");
    crate::tokens::push_punct(out, "*");
    assert(out.deep_view() =~= base + expand_sequence_toks(name@));
}

fn push_from_iter(cp: &CtorPath, name: &str, out: &mut Vec<Tok>)
    ensures
        final(out).deep_view() == old(out).deep_view() + from_iter_exp(cp.deep_view(), name@),
{
    let ghost base = out.deep_view();
    crate::types::push_ctor_path_tokens(cp, out);
    crate::tokens::push_punct(out, "::");
    crate::tokens::push_ident(out, "from");
    crate::tokens::push_open(out, Delim::Paren);
    crate::tokens::push_open(out, Delim::Bracket);
    expand_sequence(name, out);
    crate::tokens::push_close(out, Delim::Bracket);
    crate::tokens::push_close(out, Delim::Paren);
    assert(out.deep_view() =~= base + from_iter_exp(cp.deep_view(), name@));
}

fn push_opaque_exp(name: &str, out: &mut Vec<Tok>)
    ensures
        final(out).deep_view() == old(out).deep_view() + opaque_exp(name@),
{
    let ghost base = out.deep_view();
    crate::tokens::push_punct(out, "#");
    crate::tokens::push_ident(out, name);
    crate::tokens::push_punct(out, ".");
    crate::tokens::push_ident(out, "into");
    crate::tokens::push_open(out, Delim::Paren);
    crate::tokens::push_close(out, Delim::Paren);
    assert(out.deep_view() =~= base + opaque_exp(name@));
}

fn tuple_name_string(ident: &str, i: usize) -> (s: String)
    ensures
        s@ == tuple_name(ident@, i as nat),
{
    let mut s = ident.to_owned();
    s.append("_tuple_");
    let d = crate::tokens::dec_string(i as u64);
    s.append(d.as_str());
    assert(s@ =~= tuple_name(ident@, i as nat));
    s
}

/// Expands one field under its default (attribute-free) scheme: classifies
/// the declared type and builds the expression fragment and preparatory
/// statements that reconstruct a value bound to `ident`.
#[verifier::rlimit(100)]
#[verifier::spinoff_prover]
pub fn expand_field(ty: &Ty, ident: &str, diags: &mut Vec<Diag>) -> (plan: FieldPlan)
    ensures
        plan.exp.deep_view() == expand_field_spec(ty.deep_view(), ident@).exp,
        plan.top.deep_view() == expand_field_spec(ty.deep_view(), ident@).top,
        final(diags).deep_view() == old(diags).deep_view() + expand_field_spec(
            ty.deep_view(),
            ident@,
        ).diags,
    decreases ty_size(ty.deep_view()), 1nat,
{
    let ghost tm = ty.deep_view();
    let ghost pm = expand_field_spec(tm, ident@);
    let ghost dbase = diags.deep_view();
    proof {
        lemma_classify_size(tm);
    }
    let w = type_wrapper(ty, diags);
    let ghost dcls = diags.deep_view();
    match w {
        Some(TypeWrapper::Box(inner)) => {
            let r = expand_field(&inner, ident, diags);
            let mut exp: Vec<Tok> = Vec::new();
            crate::tokens::push_ident(&mut exp, "Box");
            crate::tokens::push_punct(&mut exp, "::");
            crate::tokens::push_ident(&mut exp, "new");
            crate::tokens::push_open(&mut exp, Delim::Paren);
            crate::tokens::extend_toks(&mut exp, &r.exp);
            crate::tokens::push_close(&mut exp, Delim::Paren);
            proof {
                assert(exp.deep_view() =~= pm.exp);
                assert(diags.deep_view() =~= dbase + pm.diags);
            }
            FieldPlan { exp, top: r.top }
        },
        Some(TypeWrapper::Option(inner)) => {
            let gen = crate::tokens::derived_name(ident, "_option");
            let val = crate::tokens::derived_name(ident, "_option_val");
            let r = expand_field(&inner, val.as_str(), diags);
            let mut top: Vec<Tok> = Vec::new();
            crate::tokens::push_ident(&mut top, "let");
            crate::tokens::push_ident(&mut top, gen.as_str());
            crate::tokens::push_punct(&mut top, "=");
            crate::tokens::push_ident(&mut top, "match");
            crate::tokens::push_ident(&mut top, ident);
            crate::tokens::push_open(&mut top, Delim::Brace);
            crate::tokens::push_ident(&mut top, "Some");
            crate::tokens::push_open(&mut top, Delim::Paren);
            crate::tokens::push_ident(&mut top, val.as_str());
            crate::tokens::push_close(&mut top, Delim::Paren);
            crate::tokens::push_punct(&mut top, "=>");
            crate::tokens::push_open(&mut top, Delim::Brace);
            crate::tokens::extend_toks(&mut top, &r.top);
            push_quote_open(&mut top);
            crate::tokens::push_ident(&mut top, "Some");
            crate::tokens::push_open(&mut top, Delim::Paren);
            crate::tokens::extend_toks(&mut top, &r.exp);
            crate::tokens::push_close(&mut top, Delim::Paren);
            crate::tokens::push_close(&mut top, Delim::Brace);
            crate::tokens::push_close(&mut top, Delim::Brace);
            crate::tokens::push_punct(&mut top, ",");
            crate::tokens::push_ident(&mut top, "None");
            crate::tokens::push_punct(&mut top, "=>");
            push_quote_open(&mut top);
            crate::tokens::push_ident(&mut top, "None");
            crate::tokens::push_close(&mut top, Delim::Brace);
            crate::tokens::push_punct(&mut top, ",");
            crate::tokens::push_close(&mut top, Delim::Brace);
            crate::tokens::push_punct(&mut top, ";");
            let mut exp: Vec<Tok> = Vec::new();
            crate::tokens::push_punct(&mut exp, "#");
            crate::tokens::push_ident_string(&mut exp, gen);
            proof {
                assert(exp.deep_view() =~= pm.exp);
                assert(top.deep_view() =~= pm.top);
                assert(diags.deep_view() =~= dbase + pm.diags);
            }
            FieldPlan { exp, top }
        },
        Some(TypeWrapper::Iterable(inner, cp)) => {
            let ei = crate::tokens::derived_name(ident, "_vec_like");
            let ii = crate::tokens::derived_name(ident, "_vec_like_item");
            let r = expand_field(&inner, ii.as_str(), diags);
            let mut top: Vec<Tok> = Vec::new();
            crate::tokens::push_ident(&mut top, "let");
            crate::tokens::push_ident(&mut top, ei.as_str());
            crate::tokens::push_punct(&mut top, "=");
            crate::tokens::push_ident(&mut top, ident);
            crate::tokens::push_punct(&mut top, ".");
            crate::tokens::push_ident(&mut top, "iter");
            crate::tokens::push_open(&mut top, Delim::Paren);
            crate::tokens::push_close(&mut top, Delim::Paren);
            crate::tokens::push_punct(&mut top, ".");
            crate::tokens::push_ident(&mut top, "map");
            crate::tokens::push_open(&mut top, Delim::Paren);
            crate::tokens::push_punct(&mut top, "|");
            crate::tokens::push_ident(&mut top, ii.as_str());
            crate::tokens::push_punct(&mut top, ":");
            crate::tokens::push_punct(&mut top, "&");
            crate::types::push_ty_tokens(&inner, &mut top);
            crate::tokens::push_punct(&mut top, "|");
            crate::tokens::push_open(&mut top, Delim::Brace);
            crate::tokens::extend_toks(&mut top, &r.top);
            push_quote_open(&mut top);
            crate::tokens::extend_toks(&mut top, &r.exp);
            crate::tokens::push_close(&mut top, Delim::Brace);
            crate::tokens::push_close(&mut top, Delim::Brace);
            crate::tokens::push_close(&mut top, Delim::Paren);
            push_collect_tail(&mut top);
            proof {
                lemma_seg_names_index(tm->Path_0.segs);
                assert(cp.segs@.len() > 0);
            }
            let mut exp: Vec<Tok> = Vec::new();
            if str_eq(cp.segs[cp.segs.len() - 1].as_str(), "Vec") {
                crate::tokens::push_ident(&mut exp, "vec");
                crate::tokens::push_punct(&mut exp, "!");
                crate::tokens::push_open(&mut exp, Delim::Bracket);
                expand_sequence(ei.as_str(), &mut exp);
                crate::tokens::push_close(&mut exp, Delim::Bracket);
            } else {
                push_from_iter(&cp, ei.as_str(), &mut exp);
            }
            proof {
                assert(exp.deep_view() =~= pm.exp);
                assert(top.deep_view() =~= pm.top);
                assert(diags.deep_view() =~= dbase + pm.diags);
            }
            FieldPlan { exp, top }
        },
        Some(TypeWrapper::MapLike(kt, vt, cp)) => {
            let m = crate::tokens::derived_name(ident, "_map");
            let kn = crate::tokens::derived_name(ident, "_map_key");
            let vn = crate::tokens::derived_name(ident, "_map_value");
            let rk = expand_field(&kt, kn.as_str(), diags);
            let rv = expand_field(&vt, vn.as_str(), diags);
            let mut top: Vec<Tok> = Vec::new();
            crate::tokens::push_ident(&mut top, "let");
            crate::tokens::push_ident(&mut top, m.as_str());
            crate::tokens::push_punct(&mut top, "=");
            crate::tokens::push_ident(&mut top, ident);
            crate::tokens::push_punct(&mut top, ".");
            crate::tokens::push_ident(&mut top, "iter");
            crate::tokens::push_open(&mut top, Delim::Paren);
            crate::tokens::push_close(&mut top, Delim::Paren);
            crate::tokens::push_punct(&mut top, ".");
            crate::tokens::push_ident(&mut top, "map");
            crate::tokens::push_open(&mut top, Delim::Paren);
            crate::tokens::push_punct(&mut top, "|");
            crate::tokens::push_open(&mut top, Delim::Paren);
            crate::tokens::push_ident(&mut top, kn.as_str());
            crate::tokens::push_punct(&mut top, ",");
            crate::tokens::push_ident(&mut top, vn.as_str());
            crate::tokens::push_close(&mut top, Delim::Paren);
            crate::tokens::push_punct(&mut top, "|");
            crate::tokens::push_open(&mut top, Delim::Brace);
            crate::tokens::extend_toks(&mut top, &rk.top);
            crate::tokens::extend_toks(&mut top, &rv.top);
            push_quote_open(&mut top);
            crate::tokens::push_open(&mut top, Delim::Paren);
            crate::tokens::extend_toks(&mut top, &rk.exp);
            crate::tokens::push_punct(&mut top, ",");
            crate::tokens::extend_toks(&mut top, &rv.exp);
            crate::tokens::push_close(&mut top, Delim::Paren);
            crate::tokens::push_close(&mut top, Delim::Brace);
            crate::tokens::push_close(&mut top, Delim::Brace);
            crate::tokens::push_close(&mut top, Delim::Paren);
            push_collect_tail(&mut top);
            let mut exp: Vec<Tok> = Vec::new();
            push_from_iter(&cp, m.as_str(), &mut exp);
            proof {
                assert(exp.deep_view() =~= pm.exp);
                assert(top.deep_view() =~= pm.top);
                assert(diags.deep_view() =~= dbase + pm.diags);
            }
            FieldPlan { exp, top }
        },
        Some(TypeWrapper::CellLike(inner, cp)) => {
            proof {
                lemma_seg_names_index(tm->Path_0.segs);
                assert(cp.segs@.len() > 0);
            }
            diags.push(
                Diag::CellAliasing { name: cp.segs[cp.segs.len() - 1].clone() },
            );
            proof {
                assert(diags.deep_view() =~= dcls.push(
                    DiagM::CellAliasing { name: cp.deep_view().segs.last() },
                ));
            }
            let ci = crate::tokens::derived_name(ident, "_cell");
            let r = expand_field(&inner, ci.as_str(), diags);
            let mut top: Vec<Tok> = Vec::new();
            crate::tokens::push_ident(&mut top, "let");
            crate::tokens::push_ident(&mut top, ci.as_str());
            crate::tokens::push_punct(&mut top, "=");
            crate::tokens::push_ident(&mut top, ident);
            crate::tokens::push_punct(&mut top, ".");
            crate::tokens::push_ident(&mut top, "clone");
            crate::tokens::push_open(&mut top, Delim::Paren);
            crate::tokens::push_close(&mut top, Delim::Paren);
            crate::tokens::push_punct(&mut top, ".");
            crate::tokens::push_ident(&mut top, "into_inner");
            crate::tokens::push_open(&mut top, Delim::Paren);
            crate::tokens::push_close(&mut top, Delim::Paren);
            crate::tokens::push_punct(&mut top, ";");
            crate::tokens::extend_toks(&mut top, &r.top);
            let mut exp: Vec<Tok> = Vec::new();
            crate::types::push_ctor_path_tokens(&cp, &mut exp);
            crate::tokens::push_punct(&mut exp, "::");
            crate::tokens::push_ident(&mut exp, "new");
            crate::tokens::push_open(&mut exp, Delim::Paren);
            crate::tokens::extend_toks(&mut exp, &r.exp);
            crate::tokens::push_close(&mut exp, Delim::Paren);
            proof {
                assert(exp.deep_view() =~= pm.exp);
                assert(top.deep_view() =~= pm.top);
                assert(diags.deep_view() =~= dbase + pm.diags);
            }
            FieldPlan { exp, top }
        },
        Some(TypeWrapper::ArcLike(inner, cp)) => {
            proof {
                lemma_seg_names_index(tm->Path_0.segs);
                assert(cp.segs@.len() > 0);
            }
            diags.push(
                Diag::SharedAliasing { name: cp.segs[cp.segs.len() - 1].clone() },
            );
            proof {
                assert(diags.deep_view() =~= dcls.push(
                    DiagM::SharedAliasing { name: cp.deep_view().segs.last() },
                ));
            }
            let ai = crate::tokens::derived_name(ident, "_arc");
            let r = expand_field(&inner, ai.as_str(), diags);
            let mut top: Vec<Tok> = Vec::new();
            crate::tokens::push_ident(&mut top, "let");
            crate::tokens::push_ident(&mut top, ai.as_str());
            crate::tokens::push_punct(&mut top, "=");
            crate::tokens::push_ident(&mut top, ident);
            crate::tokens::push_punct(&mut top, ".");
            crate::tokens::push_ident(&mut top, "as_ref");
            crate::tokens::push_open(&mut top, Delim::Paren);
            crate::tokens::push_close(&mut top, Delim::Paren);
            crate::tokens::push_punct(&mut top, ";");
            crate::tokens::extend_toks(&mut top, &r.top);
            let mut exp: Vec<Tok> = Vec::new();
            crate::types::push_ctor_path_tokens(&cp, &mut exp);
            crate::tokens::push_punct(&mut exp, "::");
            crate::tokens::push_ident(&mut exp, "new");
            crate::tokens::push_open(&mut exp, Delim::Paren);
            crate::tokens::extend_toks(&mut exp, &r.exp);
            crate::tokens::push_close(&mut exp, Delim::Paren);
            proof {
                assert(exp.deep_view() =~= pm.exp);
                assert(top.deep_view() =~= pm.top);
                assert(diags.deep_view() =~= dbase + pm.diags);
            }
            FieldPlan { exp, top }
        },
        Some(TypeWrapper::Tuple(ts)) => {
            let ghost vsm = view_tys(ts@);
            proof {
                lemma_view_tys_index(ts@);
            }
            let mut top: Vec<Tok> = Vec::new();
            let mut i: usize = 0;
            while i < ts.len()
                invariant
                    i <= ts.len(),
                    top.deep_view() == tuple_binds(ident@, i as nat),
                decreases ts.len() - i,
            {
                let ghost tpre = top.deep_view();
                let nm = tuple_name_string(ident, i);
                crate::tokens::push_ident(&mut top, "let");
                crate::tokens::push_ident_string(&mut top, nm);
                crate::tokens::push_punct(&mut top, "=");
                crate::tokens::push_punct(&mut top, "&");
                crate::tokens::push_ident(&mut top, ident);
                crate::tokens::push_punct(&mut top, ".");
                crate::tokens::push_lit(&mut top, crate::tokens::dec_string(i as u64));
                crate::tokens::push_punct(&mut top, ";");
                assert(top.deep_view() =~= tuple_binds(ident@, (i + 1) as nat));
                i = i + 1;
            }
            let mut exp: Vec<Tok> = Vec::new();
            crate::tokens::push_open(&mut exp, Delim::Paren);
            let ghost tbinds = top.deep_view();
            let ghost ebase = exp.deep_view();
            let mut j: usize = 0;
            while j < ts.len()
                invariant
                    j <= ts.len(),
                    vsm == view_tys(ts@),
                    vsm.len() == ts.len(),
                    forall|k: int| 0 <= k < ts.len() ==> vsm[k] == view_tys(ts@)[k],
                    tm == ty.deep_view(),
                    classify(tm) == Some(TypeWrapperM::Tuple(vsm)),
                    tys_size(vsm) < ty_size(tm),
                    tbinds == tuple_binds(ident@, ts.len() as nat),
                    ebase == seq![TokM::Open(Delim::Paren)],
                    top.deep_view() == tbinds + tuple_tops(vsm.take(j as int), ident@),
                    exp.deep_view() == ebase + tuple_exps(vsm.take(j as int), ident@),
                    diags.deep_view() == dcls + tuple_diags(vsm.take(j as int), ident@),
                decreases ts.len() - j,
            {
                proof {
                    lemma_view_tys_index(ts@);
                    lemma_tys_size_elem(vsm, j as int);
                }
                let nm = tuple_name_string(ident, j);
                if j > 0 {
                    crate::tokens::push_punct(&mut exp, ",");
                }
                let ghost tpre = top.deep_view();
                let ghost epre = exp.deep_view();
                let ghost dpre = diags.deep_view();
                let r = expand_field(&ts[j], nm.as_str(), diags);
                crate::tokens::extend_toks(&mut top, &r.top);
                crate::tokens::extend_toks(&mut exp, &r.exp);
                proof {
                    assert(vsm.take(j + 1).drop_last() =~= vsm.take(j as int));
                    assert(vsm.take(j + 1).last() == vsm[j as int]);
                    assert(vsm.take(j + 1).len() - 1 == j);
                    assert(top.deep_view() =~= tbinds + tuple_tops(vsm.take(j + 1), ident@));
                    assert(exp.deep_view() =~= ebase + tuple_exps(vsm.take(j + 1), ident@));
                    assert(diags.deep_view() =~= dcls + tuple_diags(vsm.take(j + 1), ident@));
                }
                j = j + 1;
            }
            crate::tokens::push_close(&mut exp, Delim::Paren);
            proof {
                assert(vsm.take(ts.len() as int) =~= vsm);
                assert(exp.deep_view() =~= pm.exp);
                assert(top.deep_view() =~= pm.top);
                assert(diags.deep_view() =~= dbase + pm.diags);
            }
            FieldPlan { exp, top }
        },
        Some(TypeWrapper::OtherPathZero(_)) => {
            let mut exp: Vec<Tok> = Vec::new();
            push_opaque_exp(ident, &mut exp);
            let top: Vec<Tok> = Vec::new();
            proof {
                assert(exp.deep_view() =~= pm.exp);
                assert(top.deep_view() =~= pm.top);
                assert(diags.deep_view() =~= dbase + pm.diags);
            }
            FieldPlan { exp, top }
        },
        Some(TypeWrapper::OtherPathOne(_, _)) => {
            let mut exp: Vec<Tok> = Vec::new();
            push_opaque_exp(ident, &mut exp);
            let top: Vec<Tok> = Vec::new();
            proof {
                assert(exp.deep_view() =~= pm.exp);
                assert(top.deep_view() =~= pm.top);
                assert(diags.deep_view() =~= dbase + pm.diags);
            }
            FieldPlan { exp, top }
        },
        Some(TypeWrapper::OtherPathMany(_, _)) => {
            let mut exp: Vec<Tok> = Vec::new();
            push_opaque_exp(ident, &mut exp);
            let top: Vec<Tok> = Vec::new();
            proof {
                assert(exp.deep_view() =~= pm.exp);
                assert(top.deep_view() =~= pm.top);
                assert(diags.deep_view() =~= dbase + pm.diags);
            }
            FieldPlan { exp, top }
        },
        None => {
            let mut exp: Vec<Tok> = Vec::new();
            push_opaque_exp(ident, &mut exp);
            let top: Vec<Tok> = Vec::new();
            proof {
                assert(exp.deep_view() =~= pm.exp);
                assert(top.deep_view() =~= pm.top);
                assert(diags.deep_view() =~= dbase + pm.diags);
            }
            FieldPlan { exp, top }
        },
    }
}

/// The plan of a field whose annotations carry a custom transform: the
/// transform is applied to the binding in one preparatory statement, and the
/// fragment interpolates the result.  No per-shape expansion runs.
pub open spec fn custom_plan(name: Seq<char>, e: Seq<TokM>) -> PlanM {
    PlanM {
        exp: opaque_exp(name + "_custom"@),
        top: seq![
            TokM::Ident("let"@),
            TokM::Ident(name + "_custom"@),
            TokM::Punct("="@),
            TokM::Open(Delim::Paren),
        ] + e + seq![
            TokM::Close(Delim::Paren),
            TokM::Open(Delim::Paren),
            TokM::Ident(name),
            TokM::Close(Delim::Paren),
            TokM::Punct(";"@),
        ],
        diags: Seq::empty(),
    }
}

/// The plan of one field under its parsed annotations: the user transform if
/// one is given, the default type-directed expansion otherwise.
pub open spec fn field_plan_spec(t: TyM, name: Seq<char>, attrs: crate::util::AttrsM) -> PlanM {
    match attrs.custom_with {
        Some(e) => custom_plan(name, e),
        None => expand_field_spec(t, name),
    }
}

/// Expands one field under its parsed annotations.  A custom transform
/// bypasses the per-shape expansion entirely, whatever the type is.
pub fn field_plan(ty: &Ty, ident: &str, attrs: &crate::util::Attrs, diags: &mut Vec<Diag>) -> (plan:
    FieldPlan)
    ensures
        plan.exp.deep_view() == field_plan_spec(ty.deep_view(), ident@, attrs.deep_view()).exp,
        plan.top.deep_view() == field_plan_spec(ty.deep_view(), ident@, attrs.deep_view()).top,
        final(diags).deep_view() == old(diags).deep_view() + field_plan_spec(
            ty.deep_view(),
            ident@,
            attrs.deep_view(),
        ).diags,
{
    let ghost pm = field_plan_spec(ty.deep_view(), ident@, attrs.deep_view());
    match &attrs.custom_with {
        Some(e) => {
            let nm = crate::tokens::derived_name(ident, "_custom");
            let mut top: Vec<Tok> = Vec::new();
            crate::tokens::push_ident(&mut top, "let");
            crate::tokens::push_ident(&mut top, nm.as_str());
            crate::tokens::push_punct(&mut top, "=");
            crate::tokens::push_open(&mut top, Delim::Paren);
            crate::tokens::extend_toks(&mut top, e);
            crate::tokens::push_close(&mut top, Delim::Paren);
            crate::tokens::push_open(&mut top, Delim::Paren);
            crate::tokens::push_ident(&mut top, ident);
            crate::tokens::push_close(&mut top, Delim::Paren);
            crate::tokens::push_punct(&mut top, ";");
            let mut exp: Vec<Tok> = Vec::new();
            push_opaque_exp(nm.as_str(), &mut exp);
            proof {
                assert(exp.deep_view() =~= pm.exp);
                assert(top.deep_view() =~= pm.top);
                assert(diags.deep_view() =~= old(diags).deep_view() + pm.diags);
            }
            FieldPlan { exp, top }
        },
        None => expand_field(ty, ident, diags),
    }
}

/// The leaf types that one field contributes to bound inference: none when
/// the field opts out with `recursive`, the leaf walk of its type otherwise.
pub open spec fn leaf_tys_of_field(f: crate::def::FieldDefM) -> Result<Seq<TyM>, DiagM> {
    match crate::util::parse_attrs_spec(f.attrs) {
        Err(e) => Err(e),
        Ok(a) => Ok(
            if a.recursive {
                Seq::empty()
            } else {
                leaf_tys(f.ty)
            },
        ),
    }
}

/// Gets the leaf types of a field, honouring its `recursive` opt-out.
pub fn leaf_types(field: &crate::def::FieldDef) -> (r: Result<Vec<Ty>, Diag>)
    ensures
        match r {
            Ok(v) => leaf_tys_of_field(field.deep_view()) == Ok::<Seq<TyM>, DiagM>(view_tys(v@)),
            Err(e) => leaf_tys_of_field(field.deep_view()) == Err::<Seq<TyM>, DiagM>(
                e.deep_view(),
            ),
        },
{
    let attrs = match crate::util::parse_attrs(&field.attrs) {
        Ok(a) => a,
        Err(e) => {
            return Err(e);
        },
    };
    if attrs.recursive {
        let empty: Vec<Ty> = Vec::new();
        Ok(empty)
    } else {
        Ok(leaf_types_impl(&field.ty))
    }
}

/// The leaf types that a field list contributes, concatenated in order; the
/// first field with unreadable annotations aborts the walk.
pub open spec fn fields_leaf_tys(s: Seq<crate::def::FieldDefM>) -> Result<Seq<TyM>, DiagM>
    decreases s.len(),
{
    if s.len() == 0 {
        Ok(Seq::empty())
    } else {
        match leaf_tys_of_field(s[0]) {
            Err(e) => Err(e),
            Ok(l) => match fields_leaf_tys(s.drop_first()) {
                Err(e) => Err(e),
                Ok(rest) => Ok(l + rest),
            },
        }
    }
}

/// The leaf types of a whole field shape.
pub open spec fn shape_leaf_tys(fs: crate::def::FieldsShapeM) -> Result<Seq<TyM>, DiagM> {
    match fs {
        crate::def::FieldsShapeM::Unit => Ok(Seq::empty()),
        crate::def::FieldsShapeM::Named(s) => fields_leaf_tys(s),
        crate::def::FieldsShapeM::Unnamed(s) => fields_leaf_tys(s),
    }
}

fn field_list_leaves(fs: &Vec<crate::def::FieldDef>) -> (r: Result<Vec<Ty>, Diag>)
    ensures
        match r {
            Ok(v) => fields_leaf_tys(fs.deep_view()) == Ok::<Seq<TyM>, DiagM>(view_tys(v@)),
            Err(e) => fields_leaf_tys(fs.deep_view()) == Err::<Seq<TyM>, DiagM>(e.deep_view()),
        },
{
    let ghost sm = fs.deep_view();
    let mut out: Vec<Ty> = Vec::new();
    proof {
        assert(sm.skip(0) =~= sm);
    }
    let mut i: usize = 0;
    while i < fs.len()
        invariant
            sm == fs.deep_view(),
            sm.len() == fs.len(),
            i <= fs.len(),
            fields_leaf_tys(sm) == match fields_leaf_tys(sm.skip(i as int)) {
                Err(e) => Err::<Seq<TyM>, DiagM>(e),
                Ok(rest) => Ok::<Seq<TyM>, DiagM>(view_tys(out@) + rest),
            },
        decreases fs.len() - i,
    {
        proof {
            assert(sm.skip(i as int)[0] == sm[i as int]);
            assert(sm.skip(i as int).drop_first() =~= sm.skip(i + 1));
        }
        match leaf_types(&fs[i]) {
            Err(e) => {
                return Err(e);
            },
            Ok(mut l) => {
                let ghost opre = out@;
                let ghost lm = l@;
                out.append(&mut l);
                proof {
                    lemma_view_tys_concat(opre, lm);
                    assert(out@ =~= opre + lm);
                    match fields_leaf_tys(sm.skip(i + 1)) {
                        Ok(rest) => {
                            assert((view_tys(opre) + (view_tys(lm) + rest)) =~= (view_tys(out@)
                                + rest));
                        },
                        Err(_) => {},
                    }
                }
            },
        }
        i = i + 1;
    }
    proof {
        assert(sm.skip(fs.len() as int) =~= Seq::<crate::def::FieldDefM>::empty());
        assert(view_tys(out@) + Seq::<TyM>::empty() =~= view_tys(out@));
    }
    Ok(out)
}

/// Gets the leaf types of every field of a struct or enum-variant shape.
pub fn field_types(flds: &crate::def::FieldsShape) -> (r: Result<Vec<Ty>, Diag>)
    ensures
        match r {
            Ok(v) => shape_leaf_tys(flds.deep_view()) == Ok::<Seq<TyM>, DiagM>(view_tys(v@)),
            Err(e) => shape_leaf_tys(flds.deep_view()) == Err::<Seq<TyM>, DiagM>(e.deep_view()),
        },
{
    match flds {
        crate::def::FieldsShape::Unit => {
            let empty: Vec<Ty> = Vec::new();
            Ok(empty)
        },
        crate::def::FieldsShape::Named(fs) => field_list_leaves(fs),
        crate::def::FieldsShape::Unnamed(fs) => field_list_leaves(fs),
    }
}

} // verus!
