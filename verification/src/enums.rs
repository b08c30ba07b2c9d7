//! Composing field plans into a discriminated reconstruction for enums.

use vstd::prelude::*;

use crate::def::{FieldDefM, FieldsShape, FieldsShapeM, VariantDef, VariantDefM};
use crate::diag::{diag_text_spec, Diag, DiagM};
use crate::fields::quote_open;
use crate::structs::{
    comma_join, extend_head, extend_tail, named_list_parts, named_parts, pos_name,
    pos_name_string, unnamed_list_parts, unnamed_parts, PartsOkM,
};
use crate::tokens::{Delim, Tok, TokM};
use crate::types::names_toks;
use crate::util::{parse_attrs, parse_attrs_spec};

verus! {

/// `<name> :: <variant>`: the head of every match arm.
pub open spec fn arm_head(name: Seq<char>, vname: Seq<char>) -> Seq<TokM> {
    seq![TokM::Ident(name), TokM::Punct("::"@), TokM::Ident(vname)]
}

/// The wildcard pattern piece of a skipped variant, by field shape.
pub open spec fn skip_pattern(fields: FieldsShapeM) -> Seq<TokM> {
    match fields {
        FieldsShapeM::Unit => Seq::empty(),
        FieldsShapeM::Unnamed(_) => seq![
            TokM::Open(Delim::Paren),
            TokM::Punct(".."@),
            TokM::Close(Delim::Paren),
        ],
        FieldsShapeM::Named(_) => seq![
            TokM::Open(Delim::Brace),
            TokM::Punct(".."@),
            TokM::Close(Delim::Brace),
        ],
    }
}

/// The arm of a skipped variant: it matches any value of the variant and
/// fails loudly, naming the type and the variant.
pub open spec fn skip_arm(name: Seq<char>, vname: Seq<char>, fields: FieldsShapeM) -> Seq<TokM> {
    arm_head(name, vname) + skip_pattern(fields) + seq![
        TokM::Punct("=>"@),
        TokM::Open(Delim::Brace),
        TokM::Ident("panic"@),
        TokM::Punct("!"@),
        TokM::Open(Delim::Paren),
        TokM::Str(diag_text_spec(DiagM::SkippedVariant { ty: name, variant: vname })),
        TokM::Close(Delim::Paren),
        TokM::Close(Delim::Brace),
    ]
}

/// The binder fragments of the first `n` positional fields.
pub open spec fn pos_binders(n: nat) -> Seq<Seq<TokM>>
    decreases n,
{
    if n == 0 {
        Seq::empty()
    } else {
        pos_binders((n - 1) as nat) + seq![seq![TokM::Ident(pos_name((n - 1) as nat))]]
    }
}

/// The binder fragments of a named field list.  Only meaningful when every
/// field carries a name; a nameless field has already aborted the arm.
pub open spec fn named_binders(s: Seq<FieldDefM>) -> Seq<Seq<TokM>>
    decreases s.len(),
{
    if s.len() == 0 {
        Seq::empty()
    } else {
        named_binders(s.drop_last()) + seq![
            seq![
                TokM::Ident(
                    match s.last().name {
                        Some(n) => n,
                        None => Seq::empty(),
                    },
                ),
            ],
        ]
    }
}

/// The arm of a unit variant.
pub open spec fn unit_arm(name: Seq<char>, qpath: Seq<Seq<char>>, vname: Seq<char>) -> Seq<
    TokM,
> {
    arm_head(name, vname) + seq![TokM::Punct("=>"@), TokM::Open(Delim::Brace)] + extend_head()
        + quote_open() + names_toks(qpath) + seq![TokM::Punct("::"@), TokM::Ident(vname)]
        + extend_tail() + seq![TokM::Close(Delim::Brace)]
}

/// The arm of a tuple variant: the pattern binds each position, the body runs
/// the preparatory statements and emits the positional constructor literal.
pub open spec fn unnamed_arm(
    name: Seq<char>,
    qpath: Seq<Seq<char>>,
    vname: Seq<char>,
    n: nat,
    p: PartsOkM,
) -> Seq<TokM> {
    arm_head(name, vname) + seq![TokM::Open(Delim::Paren)] + comma_join(pos_binders(n)) + seq![
        TokM::Close(Delim::Paren),
        TokM::Punct("=>"@),
        TokM::Open(Delim::Brace),
    ] + p.top + extend_head() + quote_open() + names_toks(qpath) + seq![
        TokM::Punct("::"@),
        TokM::Ident(vname),
        TokM::Open(Delim::Paren),
    ] + comma_join(p.exps) + seq![TokM::Close(Delim::Paren)] + extend_tail() + seq![
        TokM::Close(Delim::Brace),
    ]
}

/// The arm of a named-field variant.
pub open spec fn named_arm(
    name: Seq<char>,
    qpath: Seq<Seq<char>>,
    vname: Seq<char>,
    s: Seq<FieldDefM>,
    p: PartsOkM,
) -> Seq<TokM> {
    arm_head(name, vname) + seq![TokM::Open(Delim::Brace)] + comma_join(named_binders(s)) + seq![
        TokM::Close(Delim::Brace),
        TokM::Punct("=>"@),
        TokM::Open(Delim::Brace),
    ] + p.top + extend_head() + quote_open() + names_toks(qpath) + seq![
        TokM::Punct("::"@),
        TokM::Ident(vname),
        TokM::Open(Delim::Brace),
    ] + comma_join(p.exps) + seq![TokM::Close(Delim::Brace)] + extend_tail() + seq![
        TokM::Close(Delim::Brace),
    ]
}

/// The arm of one variant, and the diagnostics its expansion reports.
pub open spec fn variant_arm_spec(name: Seq<char>, qpath: Seq<Seq<char>>, v: VariantDefM) -> (
    Result<Seq<TokM>, DiagM>,
    Seq<DiagM>,
) {
    match parse_attrs_spec(v.attrs) {
        Err(e) => (Err(e), Seq::empty()),
        Ok(a) => {
            if a.skip {
                (Ok(skip_arm(name, v.name, v.fields)), Seq::empty())
            } else if a.custom_with is Some {
                (Ok(arm_head(name, v.name) + a.custom_with->0), Seq::empty())
            } else {
                match v.fields {
                    FieldsShapeM::Unit => (Ok(unit_arm(name, qpath, v.name)), Seq::empty()),
                    FieldsShapeM::Unnamed(s) => {
                        let ps = unnamed_parts(s, 0, false);
                        (
                            match ps.res {
                                Err(e) => Err(e),
                                Ok(p) => Ok(unnamed_arm(name, qpath, v.name, s.len(), p)),
                            },
                            ps.diags,
                        )
                    },
                    FieldsShapeM::Named(s) => {
                        let ps = named_parts(s, false);
                        (
                            match ps.res {
                                Err(e) => Err(e),
                                Ok(p) => Ok(named_arm(name, qpath, v.name, s, p)),
                            },
                            ps.diags,
                        )
                    },
                }
            }
        },
    }
}

/// The concatenated arms of a variant list, or the first error.
pub open spec fn variants_arms(name: Seq<char>, qpath: Seq<Seq<char>>, vs: Seq<VariantDefM>) -> (
    Result<Seq<TokM>, DiagM>,
    Seq<DiagM>,
)
    decreases vs.len(),
{
    if vs.len() == 0 {
        (Ok(Seq::empty()), Seq::empty())
    } else {
        let head = variant_arm_spec(name, qpath, vs[0]);
        match head.0 {
            Err(e) => (Err(e), head.1),
            Ok(arm) => {
                let rest = variants_arms(name, qpath, vs.drop_first());
                (
                    match rest.0 {
                        Err(e) => Err(e),
                        Ok(arms) => Ok(arm + arms),
                    },
                    head.1 + rest.1,
                )
            },
        }
    }
}

/// What enum expansion yields: one `match self { .. }` over every arm.
pub open spec fn expand_enum_spec(name: Seq<char>, qpath: Seq<Seq<char>>, vs: Seq<
    VariantDefM,
>) -> (Result<Seq<TokM>, DiagM>, Seq<DiagM>) {
    let arms = variants_arms(name, qpath, vs);
    (
        match arms.0 {
            Err(e) => Err(e),
            Ok(a) => Ok(
                seq![
                    TokM::Ident("match"@),
                    TokM::Ident("self"@),
                    TokM::Open(Delim::Brace),
                ] + a + seq![TokM::Close(Delim::Brace)],
            ),
        },
        arms.1,
    )
}

/// Every field of a list that expands successfully carries a name.
proof fn lemma_named_parts_ok_names(s: Seq<FieldDefM>, bind_self: bool)
    requires
        named_parts(s, bind_self).res is Ok,
    ensures
        forall|i: int| 0 <= i < s.len() ==> s[i].name is Some,
    decreases s.len(),
{
    if s.len() > 0 {
        lemma_named_parts_ok_names(s.drop_first(), bind_self);
        assert forall|i: int| 0 <= i < s.len() implies s[i].name is Some by {
            if i > 0 {
                assert(s.drop_first()[i - 1] == s[i]);
            }
        }
    }
}

fn push_extend_head(out: &mut Vec<Tok>)
    ensures
        final(out).deep_view() == old(out).deep_view() + extend_head(),
{
    let ghost base = out.deep_view();
    crate::tokens::push_ident(out, "tokens");
    crate::tokens::push_punct(out, ".");
    crate::tokens::push_ident(out, "extend");
    crate::tokens::push_open(out, Delim::Paren);
    assert(out.deep_view() =~= base + extend_head());
}

fn push_extend_tail(out: &mut Vec<Tok>)
    ensures
        final(out).deep_view() == old(out).deep_view() + extend_tail(),
{
    let ghost base = out.deep_view();
    crate::tokens::push_close(out, Delim::Brace);
    crate::tokens::push_close(out, Delim::Paren);
    crate::tokens::push_punct(out, ";");
    assert(out.deep_view() =~= base + extend_tail());
}

fn push_arm_head(name: &str, vname: &str, out: &mut Vec<Tok>)
    ensures
        final(out).deep_view() == old(out).deep_view() + arm_head(name@, vname@),
{
    let ghost base = out.deep_view();
    crate::tokens::push_ident(out, name);
    crate::tokens::push_punct(out, "::");
    crate::tokens::push_ident(out, vname);
    assert(out.deep_view() =~= base + arm_head(name@, vname@));
}

/// Emits the match arm of one variant: a loud failure for a skipped variant,
/// the user arm verbatim for a custom one, the per-shape reconstruction
/// otherwise.
#[verifier::rlimit(100)]
#[verifier::spinoff_prover]
#[verifier::loop_isolation(false)]
pub fn expand_variant(name: &str, qpath: &Vec<String>, v: &VariantDef, diags: &mut Vec<Diag>) -> (r:
    Result<Vec<Tok>, Diag>)
    ensures
        final(diags).deep_view() == old(diags).deep_view() + variant_arm_spec(
            name@,
            qpath.deep_view(),
            v.deep_view(),
        ).1,
        match r {
            Ok(arm) => variant_arm_spec(name@, qpath.deep_view(), v.deep_view()).0 == Ok::<
                Seq<TokM>,
                DiagM,
            >(arm.deep_view()),
            Err(e) => variant_arm_spec(name@, qpath.deep_view(), v.deep_view()).0 == Err::<
                Seq<TokM>,
                DiagM,
            >(e.deep_view()),
        },
{
    let ghost vm = v.deep_view();
    let ghost sp = variant_arm_spec(name@, qpath.deep_view(), vm);
    let ghost dbase = diags.deep_view();
    let attrs = match parse_attrs(&v.attrs) {
        Ok(a) => a,
        Err(e) => {
            assert(diags.deep_view() =~= dbase + sp.1);
            return Err(e);
        },
    };
    if attrs.skip {
        let mut arm: Vec<Tok> = Vec::new();
        push_arm_head(name, v.name.as_str(), &mut arm);
        match &v.fields {
            FieldsShape::Unit => {},
            FieldsShape::Unnamed(_) => {
                crate::tokens::push_open(&mut arm, Delim::Paren);
                crate::tokens::push_punct(&mut arm, "..");
                crate::tokens::push_close(&mut arm, Delim::Paren);
            },
            FieldsShape::Named(_) => {
                crate::tokens::push_open(&mut arm, Delim::Brace);
                crate::tokens::push_punct(&mut arm, "..");
                crate::tokens::push_close(&mut arm, Delim::Brace);
            },
        }
        crate::tokens::push_punct(&mut arm, "=>");
        crate::tokens::push_open(&mut arm, Delim::Brace);
        crate::tokens::push_ident(&mut arm, "panic");
        crate::tokens::push_punct(&mut arm, "!");
        crate::tokens::push_open(&mut arm, Delim::Paren);
        let msg = Diag::SkippedVariant { ty: name.to_owned(), variant: v.name.clone() }.text();
        crate::tokens::push_str_tok(&mut arm, msg);
        crate::tokens::push_close(&mut arm, Delim::Paren);
        crate::tokens::push_close(&mut arm, Delim::Brace);
        proof {
            assert(arm.deep_view() =~= skip_arm(name@, vm.name, vm.fields));
            assert(diags.deep_view() =~= dbase + sp.1);
        }
        return Ok(arm);
    }
    match &attrs.custom_with {
        Some(toks) => {
            let mut arm: Vec<Tok> = Vec::new();
            push_arm_head(name, v.name.as_str(), &mut arm);
            crate::tokens::extend_toks(&mut arm, toks);
            proof {
                assert(arm.deep_view() =~= arm_head(name@, vm.name) + attrs.deep_view()
                    .custom_with->0);
                assert(diags.deep_view() =~= dbase + sp.1);
            }
            return Ok(arm);
        },
        None => {},
    }
    match &v.fields {
        FieldsShape::Unit => {
            let mut arm: Vec<Tok> = Vec::new();
            push_arm_head(name, v.name.as_str(), &mut arm);
            crate::tokens::push_punct(&mut arm, "=>");
            crate::tokens::push_open(&mut arm, Delim::Brace);
            push_extend_head(&mut arm);
            crate::fields::push_quote_open(&mut arm);
            crate::types::push_names_tokens(qpath, &mut arm);
            crate::tokens::push_punct(&mut arm, "::");
            crate::tokens::push_ident(&mut arm, v.name.as_str());
            push_extend_tail(&mut arm);
            crate::tokens::push_close(&mut arm, Delim::Brace);
            proof {
                assert(arm.deep_view() =~= unit_arm(name@, qpath.deep_view(), vm.name));
                assert(diags.deep_view() =~= dbase + sp.1);
            }
            Ok(arm)
        },
        FieldsShape::Unnamed(fs) => {
            let pair = match unnamed_list_parts(fs, false, diags) {
                Ok(p) => p,
                Err(e) => {
                    assert(diags.deep_view() =~= dbase + sp.1);
                    return Err(e);
                },
            };
            let (top, joined) = pair;
            let mut binds: Vec<Tok> = Vec::new();
            let mut i: usize = 0;
            while i < fs.len()
                invariant
                    i <= fs.len(),
                    binds.deep_view() == comma_join(pos_binders(i as nat)),
                decreases fs.len() - i,
            {
                if i > 0 {
                    crate::tokens::push_punct(&mut binds, ",");
                }
                let nm = pos_name_string(i);
                crate::tokens::push_ident_string(&mut binds, nm);
                proof {
                    assert(pos_binders((i + 1) as nat).drop_last() =~= pos_binders(i as nat));
                    assert(binds.deep_view() =~= comma_join(pos_binders((i + 1) as nat)));
                }
                i = i + 1;
            }
            let mut arm: Vec<Tok> = Vec::new();
            push_arm_head(name, v.name.as_str(), &mut arm);
            crate::tokens::push_open(&mut arm, Delim::Paren);
            crate::tokens::extend_toks(&mut arm, &binds);
            crate::tokens::push_close(&mut arm, Delim::Paren);
            crate::tokens::push_punct(&mut arm, "=>");
            crate::tokens::push_open(&mut arm, Delim::Brace);
            crate::tokens::extend_toks(&mut arm, &top);
            push_extend_head(&mut arm);
            crate::fields::push_quote_open(&mut arm);
            crate::types::push_names_tokens(qpath, &mut arm);
            crate::tokens::push_punct(&mut arm, "::");
            crate::tokens::push_ident(&mut arm, v.name.as_str());
            crate::tokens::push_open(&mut arm, Delim::Paren);
            crate::tokens::extend_toks(&mut arm, &joined);
            crate::tokens::push_close(&mut arm, Delim::Paren);
            push_extend_tail(&mut arm);
            crate::tokens::push_close(&mut arm, Delim::Brace);
            proof {
                match unnamed_parts(fs.deep_view(), 0, false).res {
                    Ok(p) => {
                        assert(arm.deep_view() =~= unnamed_arm(
                            name@,
                            qpath.deep_view(),
                            vm.name,
                            fs.deep_view().len(),
                            p,
                        ));
                    },
                    Err(_) => {
                        assert(false);
                    },
                }
                assert(diags.deep_view() =~= dbase + sp.1);
            }
            Ok(arm)
        },
        FieldsShape::Named(fs) => {
            let pair = match named_list_parts(fs, false, diags) {
                Ok(p) => p,
                Err(e) => {
                    assert(diags.deep_view() =~= dbase + sp.1);
                    return Err(e);
                },
            };
            let (top, joined) = pair;
            let ghost sm = fs.deep_view();
            proof {
                lemma_named_parts_ok_names(sm, false);
            }
            let mut binds: Vec<Tok> = Vec::new();
            let mut i: usize = 0;
            while i < fs.len()
                invariant
                    sm == fs.deep_view(),
                    sm.len() == fs.len(),
                    forall|j: int| 0 <= j < sm.len() ==> sm[j].name is Some,
                    i <= fs.len(),
                    binds.deep_view() == comma_join(named_binders(sm.take(i as int))),
                decreases fs.len() - i,
            {
                match &fs[i].name {
                    Some(n) => {
                        if i > 0 {
                            crate::tokens::push_punct(&mut binds, ",");
                        }
                        crate::tokens::push_ident(&mut binds, n.as_str());
                        proof {
                            assert(sm.take(i + 1).drop_last() =~= sm.take(i as int));
                            assert(sm.take(i + 1).last() == sm[i as int]);
                            assert(named_binders(sm.take(i + 1)).drop_last() =~= named_binders(
                                sm.take(i as int),
                            ));
                            assert(binds.deep_view() =~= comma_join(named_binders(sm.take(i + 1))));
                        }
                    },
                    None => {
                        proof {
                            assert(false);
                        }
                        return Err(Diag::MissingFieldName);
                    },
                }
                i = i + 1;
            }
            proof {
                assert(sm.take(fs.len() as int) =~= sm);
            }
            let mut arm: Vec<Tok> = Vec::new();
            push_arm_head(name, v.name.as_str(), &mut arm);
            crate::tokens::push_open(&mut arm, Delim::Brace);
            crate::tokens::extend_toks(&mut arm, &binds);
            crate::tokens::push_close(&mut arm, Delim::Brace);
            crate::tokens::push_punct(&mut arm, "=>");
            crate::tokens::push_open(&mut arm, Delim::Brace);
            crate::tokens::extend_toks(&mut arm, &top);
            push_extend_head(&mut arm);
            crate::fields::push_quote_open(&mut arm);
            crate::types::push_names_tokens(qpath, &mut arm);
            crate::tokens::push_punct(&mut arm, "::");
            crate::tokens::push_ident(&mut arm, v.name.as_str());
            crate::tokens::push_open(&mut arm, Delim::Brace);
            crate::tokens::extend_toks(&mut arm, &joined);
            crate::tokens::push_close(&mut arm, Delim::Brace);
            push_extend_tail(&mut arm);
            crate::tokens::push_close(&mut arm, Delim::Brace);
            proof {
                match named_parts(sm, false).res {
                    Ok(p) => {
                        assert(arm.deep_view() =~= named_arm(
                            name@,
                            qpath.deep_view(),
                            vm.name,
                            sm,
                            p,
                        ));
                    },
                    Err(_) => {
                        assert(false);
                    },
                }
                assert(diags.deep_view() =~= dbase + sp.1);
            }
            Ok(arm)
        },
    }
}

/// Emits the whole reconstruction body for an enum: one `match self` whose
/// arms reconstruct, skip, or hand over to user code, variant by variant.
#[verifier::rlimit(100)]
#[verifier::spinoff_prover]
#[verifier::loop_isolation(false)]
pub fn expand_enum(name: &str, qpath: &Vec<String>, data: &Vec<VariantDef>, diags: &mut Vec<
    Diag,
>) -> (r: Result<Vec<Tok>, Diag>)
    ensures
        final(diags).deep_view() == old(diags).deep_view() + expand_enum_spec(
            name@,
            qpath.deep_view(),
            data.deep_view(),
        ).1,
        match r {
            Ok(out) => expand_enum_spec(name@, qpath.deep_view(), data.deep_view()).0 == Ok::<
                Seq<TokM>,
                DiagM,
            >(out.deep_view()),
            Err(e) => expand_enum_spec(name@, qpath.deep_view(), data.deep_view()).0 == Err::<
                Seq<TokM>,
                DiagM,
            >(e.deep_view()),
        },
{
    let ghost sm = data.deep_view();
    let ghost whole = variants_arms(name@, qpath.deep_view(), sm);
    let ghost dbase = diags.deep_view();
    let ghost mut dacc: Seq<DiagM> = Seq::empty();
    let mut arms: Vec<Tok> = Vec::new();
    proof {
        assert(sm.skip(0) =~= sm);
    }
    let mut i: usize = 0;
    while i < data.len()
        invariant
            sm == data.deep_view(),
            sm.len() == data.len(),
            i <= data.len(),
            diags.deep_view() == dbase + dacc,
            whole == variants_arms(name@, qpath.deep_view(), sm),
            whole.1 == dacc + variants_arms(name@, qpath.deep_view(), sm.skip(i as int)).1,
            whole.0 == match variants_arms(name@, qpath.deep_view(), sm.skip(i as int)).0 {
                Err(e) => Err::<Seq<TokM>, DiagM>(e),
                Ok(rest) => Ok::<Seq<TokM>, DiagM>(arms.deep_view() + rest),
            },
        decreases data.len() - i,
    {
        proof {
            assert(sm.skip(i as int)[0] == sm[i as int]);
            assert(sm.skip(i as int).drop_first() =~= sm.skip(i + 1));
        }
        let ghost hd = variant_arm_spec(name@, qpath.deep_view(), sm[i as int]);
        match expand_variant(name, qpath, &data[i], diags) {
            Err(e) => {
                proof {
                    assert(whole.1 =~= dacc + hd.1);
                    assert(diags.deep_view() =~= dbase + whole.1);
                }
                return Err(e);
            },
            Ok(arm) => {
                let ghost apre = arms.deep_view();
                crate::tokens::extend_toks(&mut arms, &arm);
                proof {
                    dacc = dacc + hd.1;
                    assert(diags.deep_view() =~= dbase + dacc);
                    assert(whole.1 =~= dacc + variants_arms(
                        name@,
                        qpath.deep_view(),
                        sm.skip(i + 1),
                    ).1);
                    match variants_arms(name@, qpath.deep_view(), sm.skip(i + 1)).0 {
                        Err(_) => {},
                        Ok(rest) => {
                            assert((apre + (arm.deep_view() + rest)) =~= (arms.deep_view()
                                + rest));
                        },
                    }
                }
            },
        }
        i = i + 1;
    }
    proof {
        assert(sm.skip(data.len() as int) =~= Seq::<VariantDefM>::empty());
        assert(whole.1 =~= dacc);
        assert(diags.deep_view() =~= dbase + whole.1);
    }
    let mut out: Vec<Tok> = Vec::new();
    crate::tokens::push_ident(&mut out, "match");
    crate::tokens::push_ident(&mut out, "self");
    crate::tokens::push_open(&mut out, Delim::Brace);
    crate::tokens::extend_toks(&mut out, &arms);
    crate::tokens::push_close(&mut out, Delim::Brace);
    proof {
        match whole.0 {
            Ok(a) => {
                assert(arms.deep_view() + Seq::<TokM>::empty() =~= arms.deep_view());
                assert(out.deep_view() =~= seq![
                    TokM::Ident("match"@),
                    TokM::Ident("self"@),
                    TokM::Open(Delim::Brace),
                ] + a + seq![TokM::Close(Delim::Brace)]);
            },
            Err(_) => {
                assert(false);
            },
        }
    }
    Ok(out)
}

} // verus!
