//! The model of type syntax: what a field's declared type looks like.
//!
//! A type is a path with optional generic arguments (`std::vec::Vec<T>`), a
//! tuple of types, or verbatim token text for anything else (references,
//! slices).  Classification and expansion work on this model.

use vstd::prelude::*;

use crate::tokens::{Delim, Tok, TokM};

verus! {

/// One segment of a type path: a name with its generic arguments as written.
pub struct PathSeg {
    pub name: String,
    pub args: Vec<GenArg>,
}

/// A generic argument: a type, or any other argument kept verbatim.
pub enum GenArg {
    TyArg(Ty),
    OtherArg(Vec<Tok>),
}

/// A type path: a non-empty sequence of segments.
pub struct TyPath {
    pub segs: Vec<PathSeg>,
}

/// A field's declared type.
pub enum Ty {
    Path(TyPath),
    Tuple(Vec<Ty>),
    Verbatim(Vec<Tok>),
}

/// Mathematical model of `PathSeg`.
pub struct PathSegM {
    pub name: Seq<char>,
    pub args: Seq<GenArgM>,
}

/// Mathematical model of `GenArg`.
pub enum GenArgM {
    TyArg(TyM),
    OtherArg(Seq<TokM>),
}

/// Mathematical model of `TyPath`.
pub struct TyPathM {
    pub segs: Seq<PathSegM>,
}

/// Mathematical model of `Ty`.
pub enum TyM {
    Path(TyPathM),
    Tuple(Seq<TyM>),
    Verbatim(Seq<TokM>),
}

pub open spec fn view_arg(a: GenArg) -> GenArgM
    decreases a,
{
    match a {
        GenArg::TyArg(t) => GenArgM::TyArg(view_ty(t)),
        GenArg::OtherArg(v) => GenArgM::OtherArg(v.deep_view()),
    }
}

pub open spec fn view_args(s: Seq<GenArg>) -> Seq<GenArgM>
    decreases s,
{
    if s.len() == 0 {
        Seq::empty()
    } else {
        view_args(s.drop_last()) + seq![view_arg(s.last())]
    }
}

pub open spec fn view_seg(s: PathSeg) -> PathSegM
    decreases s,
{
    PathSegM { name: s.name@, args: view_args(s.args@) }
}

pub open spec fn view_segs(s: Seq<PathSeg>) -> Seq<PathSegM>
    decreases s,
{
    if s.len() == 0 {
        Seq::empty()
    } else {
        view_segs(s.drop_last()) + seq![view_seg(s.last())]
    }
}

pub open spec fn view_path(p: TyPath) -> TyPathM
    decreases p,
{
    TyPathM { segs: view_segs(p.segs@) }
}

pub open spec fn view_tys(s: Seq<Ty>) -> Seq<TyM>
    decreases s,
{
    if s.len() == 0 {
        Seq::empty()
    } else {
        view_tys(s.drop_last()) + seq![view_ty(s.last())]
    }
}

pub open spec fn view_ty(t: Ty) -> TyM
    decreases t,
{
    match t {
        Ty::Path(p) => TyM::Path(view_path(p)),
        Ty::Tuple(v) => TyM::Tuple(view_tys(v@)),
        Ty::Verbatim(v) => TyM::Verbatim(v.deep_view()),
    }
}

/// The element-wise view of a vector of types agrees with `view_tys`.
pub proof fn lemma_view_tys_index(s: Seq<Ty>)
    ensures
        view_tys(s).len() == s.len(),
        forall|i: int| 0 <= i < s.len() ==> view_tys(s)[i] == view_ty(s[i]),
    decreases s,
{
    if s.len() > 0 {
        lemma_view_tys_index(s.drop_last());
    }
}

impl DeepView for GenArg {
    type V = GenArgM;

    open spec fn deep_view(&self) -> GenArgM {
        view_arg(*self)
    }
}

impl DeepView for PathSeg {
    type V = PathSegM;

    open spec fn deep_view(&self) -> PathSegM {
        view_seg(*self)
    }
}

impl DeepView for TyPath {
    type V = TyPathM;

    open spec fn deep_view(&self) -> TyPathM {
        view_path(*self)
    }
}

impl DeepView for Ty {
    type V = TyM;

    open spec fn deep_view(&self) -> TyM {
        view_ty(*self)
    }
}

/// A path as used in a generated constructor call: the segment names, with the
/// rewritten generic arguments that go in the final turbofish position.
pub struct CtorPath {
    pub segs: Vec<String>,
    pub args: Vec<Ty>,
}

/// Mathematical model of `CtorPath`.
pub struct CtorPathM {
    pub segs: Seq<Seq<char>>,
    pub args: Seq<TyM>,
}

impl DeepView for CtorPath {
    type V = CtorPathM;

    open spec fn deep_view(&self) -> CtorPathM {
        CtorPathM { segs: self.segs.deep_view(), args: view_tys(self.args@) }
    }
}

/// The element-wise view of a sequence of generic arguments.
pub proof fn lemma_view_args_index(s: Seq<GenArg>)
    ensures
        view_args(s).len() == s.len(),
        forall|i: int| 0 <= i < s.len() ==> view_args(s)[i] == view_arg(s[i]),
    decreases s,
{
    if s.len() > 0 {
        lemma_view_args_index(s.drop_last());
    }
}

/// The element-wise view of a sequence of path segments.
pub proof fn lemma_view_segs_index(s: Seq<PathSeg>)
    ensures
        view_segs(s).len() == s.len(),
        forall|i: int| 0 <= i < s.len() ==> view_segs(s)[i] == view_seg(s[i]),
    decreases s,
{
    if s.len() > 0 {
        lemma_view_segs_index(s.drop_last());
    }
}

/// A structural copy of a generic argument.
pub fn arg_clone(a: &GenArg) -> (r: GenArg)
    ensures
        r.deep_view() == a.deep_view(),
    decreases *a,
{
    match a {
        GenArg::TyArg(t) => GenArg::TyArg(ty_clone(t)),
        GenArg::OtherArg(v) => GenArg::OtherArg(crate::tokens::toks_clone(v)),
    }
}

/// A structural copy of a path segment.
pub fn seg_clone(s: &PathSeg) -> (r: PathSeg)
    ensures
        r.deep_view() == s.deep_view(),
    decreases *s,
{
    let mut args: Vec<GenArg> = Vec::new();
    let mut i: usize = 0;
    while i < s.args.len()
        invariant
            i <= s.args.len(),
            view_args(args@) == view_args(s.args@.take(i as int)),
        decreases s.args.len() - i,
    {
        let ghost pre = args@;
        args.push(arg_clone(&s.args[i]));
        proof {
            lemma_view_args_index(pre);
            lemma_view_args_index(args@);
            lemma_view_args_index(s.args@.take(i as int));
            lemma_view_args_index(s.args@.take(i + 1));
            assert(args@.drop_last() =~= pre);
            assert(view_args(args@) =~= view_args(s.args@.take(i + 1)));
        }
        i = i + 1;
    }
    assert(s.args@.take(s.args@.len() as int) =~= s.args@);
    PathSeg { name: s.name.clone(), args }
}

/// A structural copy of a type.
pub fn ty_clone(t: &Ty) -> (r: Ty)
    ensures
        r.deep_view() == t.deep_view(),
    decreases *t,
{
    match t {
        Ty::Path(p) => Ty::Path(path_clone(p)),
        Ty::Tuple(v) => {
            proof {
                assert(decreases_to!(*t => t->Tuple_0));
            }
            Ty::Tuple(tys_clone(v))
        },
        Ty::Verbatim(v) => Ty::Verbatim(crate::tokens::toks_clone(v)),
    }
}

/// A structural copy of a vector of types.
pub fn tys_clone(v: &Vec<Ty>) -> (r: Vec<Ty>)
    ensures
        view_tys(r@) == view_tys(v@),
    decreases *v,
{
    let mut elems: Vec<Ty> = Vec::new();
    let mut i: usize = 0;
    while i < v.len()
        invariant
            i <= v.len(),
            view_tys(elems@) == view_tys(v@.take(i as int)),
        decreases v.len() - i,
    {
        let ghost pre = elems@;
        proof {
            assert(decreases_to!(*v => v@));
            assert(decreases_to!(v@ => v@[i as int]));
        }
        elems.push(ty_clone(&v[i]));
        proof {
            lemma_view_tys_index(pre);
            lemma_view_tys_index(elems@);
            lemma_view_tys_index(v@.take(i as int));
            lemma_view_tys_index(v@.take(i + 1));
            assert(elems@.drop_last() =~= pre);
            assert(view_tys(elems@) =~= view_tys(v@.take(i + 1)));
        }
        i = i + 1;
    }
    assert(v@.take(v@.len() as int) =~= v@);
    elems
}

/// A structural copy of a type path.
pub fn path_clone(p: &TyPath) -> (r: TyPath)
    ensures
        r.deep_view() == p.deep_view(),
    decreases *p,
{
    let mut segs: Vec<PathSeg> = Vec::new();
    let mut i: usize = 0;
    while i < p.segs.len()
        invariant
            i <= p.segs.len(),
            view_segs(segs@) == view_segs(p.segs@.take(i as int)),
        decreases p.segs.len() - i,
    {
        let ghost pre = segs@;
        segs.push(seg_clone(&p.segs[i]));
        proof {
            lemma_view_segs_index(pre);
            lemma_view_segs_index(segs@);
            lemma_view_segs_index(p.segs@.take(i as int));
            lemma_view_segs_index(p.segs@.take(i + 1));
            assert(segs@.drop_last() =~= pre);
            assert(view_segs(segs@) =~= view_segs(p.segs@.take(i + 1)));
        }
        i = i + 1;
    }
    assert(p.segs@.take(p.segs@.len() as int) =~= p.segs@);
    TyPath { segs }
}

/// Compares two generic arguments.
pub fn arg_eq(a: &GenArg, b: &GenArg) -> (r: bool)
    ensures
        r == (a.deep_view() == b.deep_view()),
    decreases *a,
{
    match (a, b) {
        (GenArg::TyArg(x), GenArg::TyArg(y)) => ty_eq(x, y),
        (GenArg::OtherArg(x), GenArg::OtherArg(y)) => crate::tokens::toks_eq(x, y),
        _ => false,
    }
}

/// Compares two path segments.
pub fn seg_eq(a: &PathSeg, b: &PathSeg) -> (r: bool)
    ensures
        r == (a.deep_view() == b.deep_view()),
    decreases *a,
{
    if !crate::tokens::str_eq(a.name.as_str(), b.name.as_str()) {
        return false;
    }
    if a.args.len() != b.args.len() {
        proof {
            lemma_view_args_index(a.args@);
            lemma_view_args_index(b.args@);
        }
        return false;
    }
    let mut i: usize = 0;
    while i < a.args.len()
        invariant
            i <= a.args.len(),
            a.args.len() == b.args.len(),
            forall|j: int| 0 <= j < i ==> view_args(a.args@)[j] == view_args(b.args@)[j],
        decreases a.args.len() - i,
    {
        proof {
            assert(decreases_to!(*a => a.args));
            assert(decreases_to!(a.args => a.args@));
            assert(decreases_to!(a.args@ => a.args@[i as int]));
            lemma_view_args_index(a.args@);
            lemma_view_args_index(b.args@);
        }
        if !arg_eq(&a.args[i], &b.args[i]) {
            assert(view_args(a.args@)[i as int] != view_args(b.args@)[i as int]);
            return false;
        }
        i = i + 1;
    }
    proof {
        lemma_view_args_index(a.args@);
        lemma_view_args_index(b.args@);
        assert(view_args(a.args@) =~= view_args(b.args@));
    }
    true
}

/// Compares two type paths.
pub fn path_eq(a: &TyPath, b: &TyPath) -> (r: bool)
    ensures
        r == (a.deep_view() == b.deep_view()),
    decreases *a,
{
    if a.segs.len() != b.segs.len() {
        proof {
            lemma_view_segs_index(a.segs@);
            lemma_view_segs_index(b.segs@);
        }
        return false;
    }
    let mut i: usize = 0;
    while i < a.segs.len()
        invariant
            i <= a.segs.len(),
            a.segs.len() == b.segs.len(),
            forall|j: int| 0 <= j < i ==> view_segs(a.segs@)[j] == view_segs(b.segs@)[j],
        decreases a.segs.len() - i,
    {
        proof {
            assert(decreases_to!(*a => a.segs));
            assert(decreases_to!(a.segs => a.segs@));
            assert(decreases_to!(a.segs@ => a.segs@[i as int]));
            lemma_view_segs_index(a.segs@);
            lemma_view_segs_index(b.segs@);
        }
        if !seg_eq(&a.segs[i], &b.segs[i]) {
            assert(view_segs(a.segs@)[i as int] != view_segs(b.segs@)[i as int]);
            return false;
        }
        i = i + 1;
    }
    proof {
        lemma_view_segs_index(a.segs@);
        lemma_view_segs_index(b.segs@);
        assert(view_segs(a.segs@) =~= view_segs(b.segs@));
    }
    true
}

/// Compares two types for syntactic equality.
pub fn ty_eq(a: &Ty, b: &Ty) -> (r: bool)
    ensures
        r == (a.deep_view() == b.deep_view()),
    decreases *a,
{
    match (a, b) {
        (Ty::Path(p1), Ty::Path(p2)) => path_eq(p1, p2),
        (Ty::Tuple(v1), Ty::Tuple(v2)) => {
            if v1.len() != v2.len() {
                proof {
                    lemma_view_tys_index(v1@);
                    lemma_view_tys_index(v2@);
                }
                return false;
            }
            let mut i: usize = 0;
            while i < v1.len()
                invariant
                    *a == Ty::Tuple(*v1),
                    *b == Ty::Tuple(*v2),
                    i <= v1.len(),
                    v1.len() == v2.len(),
                    forall|j: int| 0 <= j < i ==> view_tys(v1@)[j] == view_tys(v2@)[j],
                decreases v1.len() - i,
            {
                proof {
                    assert(decreases_to!(*a => a->Tuple_0));
                    assert(decreases_to!(*v1 => v1@));
                    assert(decreases_to!(v1@ => v1@[i as int]));
                    lemma_view_tys_index(v1@);
                    lemma_view_tys_index(v2@);
                }
                if !ty_eq(&v1[i], &v2[i]) {
                    assert(view_tys(v1@)[i as int] != view_tys(v2@)[i as int]);
                    return false;
                }
                i = i + 1;
            }
            proof {
                lemma_view_tys_index(v1@);
                lemma_view_tys_index(v2@);
                assert(view_tys(v1@) =~= view_tys(v2@));
            }
            true
        },
        (Ty::Verbatim(x), Ty::Verbatim(y)) => crate::tokens::toks_eq(x, y),
        _ => false,
    }
}

/// The size of a type term, used as a termination measure where recursion
/// follows classified components rather than direct subterms.
pub open spec fn ty_size(t: TyM) -> nat
    decreases t,
{
    match t {
        TyM::Path(p) => 1 + segs_size(p.segs),
        TyM::Tuple(v) => 1 + tys_size(v),
        TyM::Verbatim(_) => 1,
    }
}

/// The summed size of a type list.
pub open spec fn tys_size(s: Seq<TyM>) -> nat
    decreases s,
{
    if s.len() == 0 {
        0
    } else {
        tys_size(s.drop_last()) + ty_size(s.last())
    }
}

/// The size of a path segment.
pub open spec fn seg_size(s: PathSegM) -> nat
    decreases s,
{
    1 + args_size(s.args)
}

/// The summed size of a segment list.
pub open spec fn segs_size(s: Seq<PathSegM>) -> nat
    decreases s,
{
    if s.len() == 0 {
        0
    } else {
        segs_size(s.drop_last()) + seg_size(s.last())
    }
}

/// The size of a generic argument.
pub open spec fn arg_size(a: GenArgM) -> nat
    decreases a,
{
    match a {
        GenArgM::TyArg(t) => 1 + ty_size(t),
        GenArgM::OtherArg(_) => 1,
    }
}

/// The summed size of an argument list.
pub open spec fn args_size(s: Seq<GenArgM>) -> nat
    decreases s,
{
    if s.len() == 0 {
        0
    } else {
        args_size(s.drop_last()) + arg_size(s.last())
    }
}

/// An element of a type list weighs no more than the whole list.
pub proof fn lemma_tys_size_elem(s: Seq<TyM>, i: int)
    requires
        0 <= i < s.len(),
    ensures
        ty_size(s[i]) <= tys_size(s),
    decreases s,
{
    if i == s.len() - 1 {
    } else {
        lemma_tys_size_elem(s.drop_last(), i);
    }
}

/// An element of a segment list weighs no more than the whole list.
pub proof fn lemma_segs_size_elem(s: Seq<PathSegM>, i: int)
    requires
        0 <= i < s.len(),
    ensures
        seg_size(s[i]) <= segs_size(s),
    decreases s,
{
    if i == s.len() - 1 {
    } else {
        lemma_segs_size_elem(s.drop_last(), i);
    }
}

/// Concatenation distributes over the element-wise view of type lists.
pub proof fn lemma_view_tys_concat(a: Seq<Ty>, b: Seq<Ty>)
    ensures
        view_tys(a + b) == view_tys(a) + view_tys(b),
    decreases b,
{
    if b.len() == 0 {
        assert(a + b =~= a);
        assert(view_tys(a) + view_tys(b) =~= view_tys(a));
    } else {
        lemma_view_tys_concat(a, b.drop_last());
        assert((a + b).drop_last() =~= a + b.drop_last());
        assert((a + b).last() == b.last());
        assert(view_tys(a + b) =~= view_tys(a) + view_tys(b));
    }
}

/// The source tokens of a generic argument.
pub open spec fn arg_toks(a: GenArgM) -> Seq<TokM>
    decreases a,
{
    match a {
        GenArgM::TyArg(t) => ty_toks(t),
        GenArgM::OtherArg(v) => v,
    }
}

/// The comma-joined source tokens of a generic-argument list.
pub open spec fn args_toks(s: Seq<GenArgM>) -> Seq<TokM>
    decreases s,
{
    if s.len() == 0 {
        Seq::empty()
    } else if s.len() == 1 {
        arg_toks(s[0])
    } else {
        args_toks(s.drop_last()) + seq![TokM::Punct(","@)] + arg_toks(s.last())
    }
}

/// The source tokens of one path segment, arguments as written (`Vec<T>`).
pub open spec fn seg_toks(s: PathSegM) -> Seq<TokM>
    decreases s,
{
    if s.args.len() == 0 {
        seq![TokM::Ident(s.name)]
    } else {
        seq![TokM::Ident(s.name), TokM::Punct("<"@)] + args_toks(s.args) + seq![
            TokM::Punct(">"@),
        ]
    }
}

/// The `::`-joined source tokens of a segment list.
pub open spec fn segs_toks(s: Seq<PathSegM>) -> Seq<TokM>
    decreases s,
{
    if s.len() == 0 {
        Seq::empty()
    } else if s.len() == 1 {
        seg_toks(s[0])
    } else {
        segs_toks(s.drop_last()) + seq![TokM::Punct("::"@)] + seg_toks(s.last())
    }
}

/// The comma-joined source tokens of a type list.
pub open spec fn tys_toks(s: Seq<TyM>) -> Seq<TokM>
    decreases s,
{
    if s.len() == 0 {
        Seq::empty()
    } else if s.len() == 1 {
        ty_toks(s[0])
    } else {
        tys_toks(s.drop_last()) + seq![TokM::Punct(","@)] + ty_toks(s.last())
    }
}

/// The source tokens of a type, as it was written.
pub open spec fn ty_toks(t: TyM) -> Seq<TokM>
    decreases t,
{
    match t {
        TyM::Path(p) => segs_toks(p.segs),
        TyM::Tuple(v) => seq![TokM::Open(Delim::Paren)] + tys_toks(v) + seq![
            TokM::Close(Delim::Paren),
        ],
        TyM::Verbatim(v) => v,
    }
}

/// The source tokens of a constructor path: the segment names `::`-joined,
/// then the rewritten generic arguments in turbofish position.
pub open spec fn ctor_path_toks(p: CtorPathM) -> Seq<TokM> {
    names_toks(p.segs) + seq![TokM::Punct("::"@), TokM::Punct("<"@)] + tys_toks(p.args) + seq![
        TokM::Punct(">"@),
    ]
}

/// The `::`-joined source tokens of a list of plain names.
pub open spec fn names_toks(s: Seq<Seq<char>>) -> Seq<TokM>
    decreases s,
{
    if s.len() == 0 {
        Seq::empty()
    } else if s.len() == 1 {
        seq![TokM::Ident(s[0])]
    } else {
        names_toks(s.drop_last()) + seq![TokM::Punct("::"@), TokM::Ident(s.last())]
    }
}

/// Emits the source tokens of a generic argument.
pub fn push_arg_tokens(a: &GenArg, out: &mut Vec<Tok>)
    ensures
        final(out).deep_view() == old(out).deep_view() + arg_toks(a.deep_view()),
    decreases *a,
{
    let ghost base = out.deep_view();
    match a {
        GenArg::TyArg(t) => {
            push_ty_tokens(t, out);
        },
        GenArg::OtherArg(v) => {
            crate::tokens::extend_toks(out, v);
        },
    }
}

/// Emits the comma-joined source tokens of a generic-argument list.
pub fn push_args_tokens(args: &Vec<GenArg>, out: &mut Vec<Tok>)
    ensures
        final(out).deep_view() == old(out).deep_view() + args_toks(view_args(args@)),
    decreases *args,
{
    let ghost base = out.deep_view();
    let ghost vs = view_args(args@);
    proof {
        lemma_view_args_index(args@);
    }
    let mut i: usize = 0;
    while i < args.len()
        invariant
            i <= args.len(),
            vs == view_args(args@),
            vs.len() == args.len(),
            forall|j: int| 0 <= j < args.len() ==> vs[j] == view_args(args@)[j],
            out.deep_view() == base + args_toks(vs.take(i as int)),
        decreases args.len() - i,
    {
        if i > 0 {
            crate::tokens::push_punct(out, ",");
        }
        proof {
            assert(decreases_to!(*args => args@));
            assert(decreases_to!(args@ => args@[i as int]));
            lemma_view_args_index(args@);
        }
        push_arg_tokens(&args[i], out);
        proof {
            assert(vs.take(i + 1).drop_last() =~= vs.take(i as int));
            assert(vs.take(i + 1).last() == vs[i as int]);
            assert(out.deep_view() =~= base + args_toks(vs.take(i + 1)));
        }
        i = i + 1;
    }
    assert(vs.take(args.len() as int) =~= vs);
}

/// Emits the source tokens of one path segment.
pub fn push_seg_tokens(s: &PathSeg, out: &mut Vec<Tok>)
    ensures
        final(out).deep_view() == old(out).deep_view() + seg_toks(s.deep_view()),
    decreases *s,
{
    let ghost base = out.deep_view();
    crate::tokens::push_ident(out, s.name.as_str());
    if s.args.len() > 0 {
        crate::tokens::push_punct(out, "<");
        proof {
            assert(decreases_to!(*s => s.args));
            lemma_view_args_index(s.args@);
        }
        push_args_tokens(&s.args, out);
        crate::tokens::push_punct(out, ">");
        assert(out.deep_view() =~= base + seg_toks(s.deep_view()));
    } else {
        proof {
            lemma_view_args_index(s.args@);
            assert(out.deep_view() =~= base + seg_toks(s.deep_view()));
        }
    }
}

/// Emits the `::`-joined source tokens of a segment list.
pub fn push_segs_tokens(segs: &Vec<PathSeg>, out: &mut Vec<Tok>)
    ensures
        final(out).deep_view() == old(out).deep_view() + segs_toks(view_segs(segs@)),
    decreases *segs,
{
    let ghost base = out.deep_view();
    let ghost vs = view_segs(segs@);
    proof {
        lemma_view_segs_index(segs@);
    }
    let mut i: usize = 0;
    while i < segs.len()
        invariant
            i <= segs.len(),
            vs == view_segs(segs@),
            vs.len() == segs.len(),
            forall|j: int| 0 <= j < segs.len() ==> vs[j] == view_segs(segs@)[j],
            out.deep_view() == base + segs_toks(vs.take(i as int)),
        decreases segs.len() - i,
    {
        if i > 0 {
            crate::tokens::push_punct(out, "::");
        }
        proof {
            assert(decreases_to!(*segs => segs@));
            assert(decreases_to!(segs@ => segs@[i as int]));
            lemma_view_segs_index(segs@);
        }
        push_seg_tokens(&segs[i], out);
        proof {
            assert(vs.take(i + 1).drop_last() =~= vs.take(i as int));
            assert(vs.take(i + 1).last() == vs[i as int]);
            assert(out.deep_view() =~= base + segs_toks(vs.take(i + 1)));
        }
        i = i + 1;
    }
    assert(vs.take(segs.len() as int) =~= vs);
}

/// Emits the comma-joined source tokens of a type list.
pub fn push_tys_tokens(v: &Vec<Ty>, out: &mut Vec<Tok>)
    ensures
        final(out).deep_view() == old(out).deep_view() + tys_toks(view_tys(v@)),
    decreases *v,
{
    let ghost base = out.deep_view();
    let ghost vs = view_tys(v@);
    proof {
        lemma_view_tys_index(v@);
    }
    let mut i: usize = 0;
    while i < v.len()
        invariant
            i <= v.len(),
            vs == view_tys(v@),
            vs.len() == v.len(),
            forall|j: int| 0 <= j < v.len() ==> vs[j] == view_tys(v@)[j],
            out.deep_view() == base + tys_toks(vs.take(i as int)),
        decreases v.len() - i,
    {
        if i > 0 {
            crate::tokens::push_punct(out, ",");
        }
        proof {
            assert(decreases_to!(*v => v@));
            assert(decreases_to!(v@ => v@[i as int]));
            lemma_view_tys_index(v@);
        }
        push_ty_tokens(&v[i], out);
        proof {
            assert(vs.take(i + 1).drop_last() =~= vs.take(i as int));
            assert(vs.take(i + 1).last() == vs[i as int]);
            assert(out.deep_view() =~= base + tys_toks(vs.take(i + 1)));
        }
        i = i + 1;
    }
    assert(vs.take(v.len() as int) =~= vs);
}

/// Emits the source tokens of a type, as it was written.
pub fn push_ty_tokens(t: &Ty, out: &mut Vec<Tok>)
    ensures
        final(out).deep_view() == old(out).deep_view() + ty_toks(t.deep_view()),
    decreases *t,
{
    let ghost base = out.deep_view();
    match t {
        Ty::Path(p) => {
            proof {
                assert(decreases_to!(*t => t->Path_0));
                assert(decreases_to!(*p => p.segs));
            }
            push_segs_tokens(&p.segs, out);
        },
        Ty::Tuple(v) => {
            crate::tokens::push_open(out, Delim::Paren);
            proof {
                assert(decreases_to!(*t => t->Tuple_0));
            }
            push_tys_tokens(v, out);
            crate::tokens::push_close(out, Delim::Paren);
            assert(out.deep_view() =~= base + ty_toks(t.deep_view()));
        },
        Ty::Verbatim(v) => {
            crate::tokens::extend_toks(out, v);
        },
    }
}

/// Emits the `::`-joined tokens of a list of plain names.
pub fn push_names_tokens(names: &Vec<String>, out: &mut Vec<Tok>)
    ensures
        final(out).deep_view() == old(out).deep_view() + names_toks(names.deep_view()),
{
    let ghost base = out.deep_view();
    let ghost vs = names.deep_view();
    let mut i: usize = 0;
    while i < names.len()
        invariant
            i <= names.len(),
            vs == names.deep_view(),
            out.deep_view() == base + names_toks(vs.take(i as int)),
        decreases names.len() - i,
    {
        if i > 0 {
            crate::tokens::push_punct(out, "::");
        }
        crate::tokens::push_ident(out, names[i].as_str());
        proof {
            assert(vs.take(i + 1).drop_last() =~= vs.take(i as int));
            assert(vs.take(i + 1).last() == vs[i as int]);
            assert(out.deep_view() =~= base + names_toks(vs.take(i + 1)));
        }
        i = i + 1;
    }
    assert(vs.take(names.len() as int) =~= vs);
}

/// Emits the source tokens of a constructor path (turbofish form).
pub fn push_ctor_path_tokens(p: &CtorPath, out: &mut Vec<Tok>)
    ensures
        final(out).deep_view() == old(out).deep_view() + ctor_path_toks(p.deep_view()),
{
    let ghost base = out.deep_view();
    push_names_tokens(&p.segs, out);
    crate::tokens::push_punct(out, "::");
    crate::tokens::push_punct(out, "<");
    push_tys_tokens(&p.args, out);
    crate::tokens::push_punct(out, ">");
    assert(out.deep_view() =~= base + ctor_path_toks(p.deep_view()));
}

} // verus!
