//! Composing field plans into a whole-struct reconstruction.

use vstd::prelude::*;

use crate::def::{FieldDefM, FieldsShape, FieldsShapeM};
use crate::diag::{Diag, DiagM};
use crate::fields::{field_plan, field_plan_spec, quote_open};
use crate::tokens::{Delim, Tok, TokM};
use crate::types::names_toks;
use crate::util::{parse_attrs, parse_attrs_spec};

verus! {

/// The comma-joined concatenation of a list of token fragments.
pub open spec fn comma_join(parts: Seq<Seq<TokM>>) -> Seq<TokM>
    decreases parts.len(),
{
    if parts.len() == 0 {
        Seq::empty()
    } else if parts.len() == 1 {
        parts[0]
    } else {
        comma_join(parts.drop_last()) + seq![TokM::Punct(","@)] + parts.last()
    }
}

/// The accumulated pieces of a struct body: preparatory statements and the
/// per-field expression fragments, or the first error; and the diagnostics
/// reported on the way.
pub struct PartsOkM {
    pub top: Seq<TokM>,
    pub exps: Seq<Seq<TokM>>,
}

pub struct PartsM {
    pub res: Result<PartsOkM, DiagM>,
    pub diags: Seq<DiagM>,
}

/// `let <name> = & self . <name> ;`
pub open spec fn self_bind_named(name: Seq<char>) -> Seq<TokM> {
    seq![
        TokM::Ident("let"@),
        TokM::Ident(name),
        TokM::Punct("="@),
        TokM::Punct("&"@),
        TokM::Ident("self"@),
        TokM::Punct("."@),
        TokM::Ident(name),
        TokM::Punct(";"@),
    ]
}

/// `let field_<i> = & self . <i> ;`
pub open spec fn self_bind_pos(i: nat) -> Seq<TokM> {
    seq![
        TokM::Ident("let"@),
        TokM::Ident(pos_name(i)),
        TokM::Punct("="@),
        TokM::Punct("&"@),
        TokM::Ident("self"@),
        TokM::Punct("."@),
        TokM::Lit(crate::tokens::dec_text(i)),
        TokM::Punct(";"@),
    ]
}

/// The synthetic binding name of tuple-struct position `i`.
pub open spec fn pos_name(i: nat) -> Seq<char> {
    "field_"@ + crate::tokens::dec_text(i)
}

/// The pieces contributed by a named field list, in declaration order.
/// With `bind_self`, each field is first bound out of `self`; without it the
/// field names are already bound by an enclosing pattern.
pub open spec fn named_parts(s: Seq<FieldDefM>, bind_self: bool) -> PartsM
    decreases s.len(),
{
    if s.len() == 0 {
        PartsM { res: Ok(PartsOkM { top: Seq::empty(), exps: Seq::empty() }), diags: Seq::empty() }
    } else {
        let f = s[0];
        match parse_attrs_spec(f.attrs) {
            Err(e) => PartsM { res: Err(e), diags: Seq::empty() },
            Ok(a) => match f.name {
                None => PartsM { res: Err(DiagM::MissingFieldName), diags: Seq::empty() },
                Some(nm) => {
                    let p = field_plan_spec(f.ty, nm, a);
                    let rest = named_parts(s.drop_first(), bind_self);
                    PartsM {
                        res: match rest.res {
                            Err(e) => Err(e),
                            Ok(ro) => Ok(
                                PartsOkM {
                                    top: (if bind_self {
                                        self_bind_named(nm)
                                    } else {
                                        Seq::<TokM>::empty()
                                    }) + p.top + ro.top,
                                    exps: seq![
                                        seq![TokM::Ident(nm), TokM::Punct(":"@)] + p.exp,
                                    ] + ro.exps,
                                },
                            ),
                        },
                        diags: p.diags + rest.diags,
                    }
                },
            },
        }
    }
}

/// The pieces contributed by a positional field list, starting at `start`.
pub open spec fn unnamed_parts(s: Seq<FieldDefM>, start: nat, bind_self: bool) -> PartsM
    decreases s.len(),
{
    if s.len() == 0 {
        PartsM { res: Ok(PartsOkM { top: Seq::empty(), exps: Seq::empty() }), diags: Seq::empty() }
    } else {
        let f = s[0];
        match parse_attrs_spec(f.attrs) {
            Err(e) => PartsM { res: Err(e), diags: Seq::empty() },
            Ok(a) => {
                let p = field_plan_spec(f.ty, pos_name(start), a);
                let rest = unnamed_parts(s.drop_first(), start + 1, bind_self);
                PartsM {
                    res: match rest.res {
                        Err(e) => Err(e),
                        Ok(ro) => Ok(
                            PartsOkM {
                                top: (if bind_self {
                                    self_bind_pos(start)
                                } else {
                                    Seq::<TokM>::empty()
                                }) + p.top + ro.top,
                                exps: seq![p.exp] + ro.exps,
                            },
                        ),
                    },
                    diags: p.diags + rest.diags,
                }
            },
        }
    }
}

/// `tokens . extend (`: the head of the emission statement.
pub open spec fn extend_head() -> Seq<TokM> {
    seq![
        TokM::Ident("tokens"@),
        TokM::Punct("."@),
        TokM::Ident("extend"@),
        TokM::Open(Delim::Paren),
    ]
}

/// `} ) ;`: the tail of the emission statement, closing the quotation.
pub open spec fn extend_tail() -> Seq<TokM> {
    seq![TokM::Close(Delim::Brace), TokM::Close(Delim::Paren), TokM::Punct(";"@)]
}

/// The emitted body for a struct with the given literal shape: preparatory
/// statements, then one `tokens.extend(..)` of the braced, parenthesized, or
/// bare constructor literal.
pub open spec fn struct_out(
    qpath: Seq<Seq<char>>,
    top: Seq<TokM>,
    exps: Seq<Seq<TokM>>,
    delim: Delim,
) -> Seq<TokM> {
    top + extend_head() + quote_open() + names_toks(qpath) + seq![TokM::Open(delim)] + comma_join(
        exps,
    ) + seq![TokM::Close(delim)] + extend_tail()
}

/// What struct expansion yields for each shape, and the diagnostics.
pub open spec fn expand_struct_spec(qpath: Seq<Seq<char>>, fs: FieldsShapeM) -> (Result<
    Seq<TokM>,
    DiagM,
>, Seq<DiagM>) {
    match fs {
        FieldsShapeM::Unit => (
            Ok(
                struct_out(qpath, Seq::empty(), Seq::empty(), Delim::Brace),
            ),
            Seq::empty(),
        ),
        FieldsShapeM::Named(s) => {
            let ps = named_parts(s, true);
            (
                match ps.res {
                    Err(e) => Err(e),
                    Ok(p) => Ok(struct_out(qpath, p.top, p.exps, Delim::Brace)),
                },
                ps.diags,
            )
        },
        FieldsShapeM::Unnamed(s) => {
            let ps = unnamed_parts(s, 0, true);
            (
                match ps.res {
                    Err(e) => Err(e),
                    Ok(p) => Ok(struct_out(qpath, p.top, p.exps, Delim::Paren)),
                },
                ps.diags,
            )
        },
    }
}

/// The synthetic binding name of position `i`, as a string.
pub fn pos_name_string(i: usize) -> (s: String)
    ensures
        s@ == pos_name(i as nat),
{
    let mut s = String::from_str("field_");
    let d = crate::tokens::dec_string(i as u64);
    s.append(d.as_str());
    assert(s@ =~= pos_name(i as nat));
    s
}

/// Expands a named field list into preparatory statements and the
/// comma-joined `name: fragment` list.
#[verifier::rlimit(100)]
#[verifier::spinoff_prover]
#[verifier::loop_isolation(false)]
pub fn named_list_parts(fs: &Vec<crate::def::FieldDef>, bind_self: bool, diags: &mut Vec<
    Diag,
>) -> (r: Result<(Vec<Tok>, Vec<Tok>), Diag>)
    ensures
        final(diags).deep_view() == old(diags).deep_view() + named_parts(
            fs.deep_view(),
            bind_self,
        ).diags,
        match r {
            Ok(pair) => (named_parts(fs.deep_view(), bind_self).res matches Ok(p)
                && pair.0.deep_view() == p.top && pair.1.deep_view() == comma_join(p.exps)),
            Err(e) => (named_parts(fs.deep_view(), bind_self).res matches Err(em) && em
                == e.deep_view()),
        },
{
    let ghost sm = fs.deep_view();
    let ghost whole = named_parts(sm, bind_self);
    let ghost dbase = diags.deep_view();
    let ghost mut el: Seq<Seq<TokM>> = Seq::empty();
    let ghost mut dacc: Seq<DiagM> = Seq::empty();
    let mut top: Vec<Tok> = Vec::new();
    let mut joined: Vec<Tok> = Vec::new();
    proof {
        assert(sm.skip(0) =~= sm);
    }
    let mut i: usize = 0;
    while i < fs.len()
        invariant
            sm == fs.deep_view(),
            sm.len() == fs.len(),
            i <= fs.len(),
            el.len() == i as int,
            joined.deep_view() == comma_join(el),
            diags.deep_view() == dbase + dacc,
            whole == named_parts(sm, bind_self),
            whole.diags == dacc + named_parts(sm.skip(i as int), bind_self).diags,
            whole.res == match named_parts(sm.skip(i as int), bind_self).res {
                Err(e) => Err::<PartsOkM, DiagM>(e),
                Ok(ro) => Ok::<PartsOkM, DiagM>(
                    PartsOkM { top: top.deep_view() + ro.top, exps: el + ro.exps },
                ),
            },
        decreases fs.len() - i,
    {
        proof {
            assert(sm.skip(i as int)[0] == sm[i as int]);
            assert(sm.skip(i as int).drop_first() =~= sm.skip(i + 1));
        }
        let f = &fs[i];
        let attrs = match parse_attrs(&f.attrs) {
            Ok(a) => a,
            Err(e) => {
                proof {
                    assert(whole.diags =~= dacc);
                    assert(diags.deep_view() =~= dbase + whole.diags);
                    assert(diags.deep_view() == dbase + named_parts(
                        fs.deep_view(),
                        bind_self,
                    ).diags);
                }
                return Err(e);
            },
        };
        let nm = match &f.name {
            Some(n) => n,
            None => {
                proof {
                    assert(whole.diags =~= dacc);
                    assert(diags.deep_view() =~= dbase + whole.diags);
                    assert(diags.deep_view() == dbase + named_parts(
                        fs.deep_view(),
                        bind_self,
                    ).diags);
                }
                return Err(Diag::MissingFieldName);
            },
        };
        let ghost a = attrs.deep_view();
        let ghost p = field_plan_spec(sm[i as int].ty, nm@, a);
        let plan = field_plan(&f.ty, nm.as_str(), &attrs, diags);
        let ghost tpre = top.deep_view();
        if bind_self {
            crate::tokens::push_ident(&mut top, "let");
            crate::tokens::push_ident(&mut top, nm.as_str());
            crate::tokens::push_punct(&mut top, "=");
            crate::tokens::push_punct(&mut top, "&");
            crate::tokens::push_ident(&mut top, "self");
            crate::tokens::push_punct(&mut top, ".");
            crate::tokens::push_ident(&mut top, nm.as_str());
            crate::tokens::push_punct(&mut top, ";");
        }
        crate::tokens::extend_toks(&mut top, &plan.top);
        if i > 0 {
            crate::tokens::push_punct(&mut joined, ",");
        }
        let ghost jpre = joined.deep_view();
        crate::tokens::push_ident(&mut joined, nm.as_str());
        crate::tokens::push_punct(&mut joined, ":");
        crate::tokens::extend_toks(&mut joined, &plan.exp);
        proof {
            let frag = seq![TokM::Ident(nm@), TokM::Punct(":"@)] + p.exp;
            let el2 = el.push(frag);
            assert(el2.last() == frag);
            if i == 0 {
                assert(joined.deep_view() =~= comma_join(el2));
            } else {
                assert(el2.drop_last() =~= el);
                assert(joined.deep_view() =~= comma_join(el2));
            }
            assert(top.deep_view() =~= tpre + (if bind_self {
                self_bind_named(nm@)
            } else {
                Seq::<TokM>::empty()
            }) + p.top);
            let dacc2 = dacc + p.diags;
            assert(diags.deep_view() =~= dbase + dacc2);
            assert(whole.diags =~= dacc2 + named_parts(sm.skip(i + 1), bind_self).diags);
            match named_parts(sm.skip(i + 1), bind_self).res {
                Err(e) => {},
                Ok(ro) => {
                    assert((tpre + ((if bind_self {
                        self_bind_named(nm@)
                    } else {
                        Seq::<TokM>::empty()
                    }) + p.top + ro.top)) =~= (top.deep_view() + ro.top));
                    assert((el + (seq![frag] + ro.exps)) =~= (el2 + ro.exps));
                },
            }
            el = el2;
            dacc = dacc2;
        }
        i = i + 1;
    }
    proof {
        assert(sm.skip(fs.len() as int) =~= Seq::<FieldDefM>::empty());
        assert(whole.diags =~= dacc);
        assert(diags.deep_view() =~= dbase + whole.diags);
        match whole.res {
            Err(_) => {},
            Ok(p) => {
                assert(top.deep_view() + Seq::<TokM>::empty() =~= top.deep_view());
                assert(el + Seq::<Seq<TokM>>::empty() =~= el);
            },
        }
    }
    Ok((top, joined))
}

/// Expands a positional field list into preparatory statements and the
/// comma-joined fragment list.
#[verifier::rlimit(100)]
#[verifier::spinoff_prover]
#[verifier::loop_isolation(false)]
pub fn unnamed_list_parts(fs: &Vec<crate::def::FieldDef>, bind_self: bool, diags: &mut Vec<
    Diag,
>) -> (r: Result<(Vec<Tok>, Vec<Tok>), Diag>)
    ensures
        final(diags).deep_view() == old(diags).deep_view() + unnamed_parts(
            fs.deep_view(),
            0,
            bind_self,
        ).diags,
        match r {
            Ok(pair) => (unnamed_parts(fs.deep_view(), 0, bind_self).res matches Ok(p)
                && pair.0.deep_view() == p.top && pair.1.deep_view() == comma_join(p.exps)),
            Err(e) => (unnamed_parts(fs.deep_view(), 0, bind_self).res matches Err(em) && em
                == e.deep_view()),
        },
{
    let ghost sm = fs.deep_view();
    let ghost whole = unnamed_parts(sm, 0, bind_self);
    let ghost dbase = diags.deep_view();
    let ghost mut el: Seq<Seq<TokM>> = Seq::empty();
    let ghost mut dacc: Seq<DiagM> = Seq::empty();
    let mut top: Vec<Tok> = Vec::new();
    let mut joined: Vec<Tok> = Vec::new();
    proof {
        assert(sm.skip(0) =~= sm);
    }
    let mut i: usize = 0;
    while i < fs.len()
        invariant
            sm == fs.deep_view(),
            sm.len() == fs.len(),
            i <= fs.len(),
            el.len() == i as int,
            joined.deep_view() == comma_join(el),
            diags.deep_view() == dbase + dacc,
            whole == unnamed_parts(sm, 0, bind_self),
            whole.diags == dacc + unnamed_parts(sm.skip(i as int), i as nat, bind_self).diags,
            whole.res == match unnamed_parts(sm.skip(i as int), i as nat, bind_self).res {
                Err(e) => Err::<PartsOkM, DiagM>(e),
                Ok(ro) => Ok::<PartsOkM, DiagM>(
                    PartsOkM { top: top.deep_view() + ro.top, exps: el + ro.exps },
                ),
            },
        decreases fs.len() - i,
    {
        proof {
            assert(sm.skip(i as int)[0] == sm[i as int]);
            assert(sm.skip(i as int).drop_first() =~= sm.skip(i + 1));
        }
        let f = &fs[i];
        let attrs = match parse_attrs(&f.attrs) {
            Ok(a) => a,
            Err(e) => {
                proof {
                    assert(whole.diags =~= dacc);
                    assert(diags.deep_view() =~= dbase + whole.diags);
                    assert(diags.deep_view() == dbase + unnamed_parts(
                        fs.deep_view(),
                        0,
                        bind_self,
                    ).diags);
                }
                return Err(e);
            },
        };
        let nm = pos_name_string(i);
        let ghost a = attrs.deep_view();
        let ghost p = field_plan_spec(sm[i as int].ty, pos_name(i as nat), a);
        let plan = field_plan(&f.ty, nm.as_str(), &attrs, diags);
        let ghost tpre = top.deep_view();
        if bind_self {
            crate::tokens::push_ident(&mut top, "let");
            crate::tokens::push_ident(&mut top, nm.as_str());
            crate::tokens::push_punct(&mut top, "=");
            crate::tokens::push_punct(&mut top, "&");
            crate::tokens::push_ident(&mut top, "self");
            crate::tokens::push_punct(&mut top, ".");
            crate::tokens::push_lit(&mut top, crate::tokens::dec_string(i as u64));
            crate::tokens::push_punct(&mut top, ";");
        }
        crate::tokens::extend_toks(&mut top, &plan.top);
        if i > 0 {
            crate::tokens::push_punct(&mut joined, ",");
        }
        crate::tokens::extend_toks(&mut joined, &plan.exp);
        proof {
            let frag = p.exp;
            let el2 = el.push(frag);
            assert(el2.last() == frag);
            if i == 0 {
                assert(joined.deep_view() =~= comma_join(el2));
            } else {
                assert(el2.drop_last() =~= el);
                assert(joined.deep_view() =~= comma_join(el2));
            }
            assert(top.deep_view() =~= tpre + (if bind_self {
                self_bind_pos(i as nat)
            } else {
                Seq::<TokM>::empty()
            }) + p.top);
            let dacc2 = dacc + p.diags;
            assert(diags.deep_view() =~= dbase + dacc2);
            assert(whole.diags =~= dacc2 + unnamed_parts(sm.skip(i + 1), (i + 1) as nat,
                bind_self).diags);
            match unnamed_parts(sm.skip(i + 1), (i + 1) as nat, bind_self).res {
                Err(e) => {},
                Ok(ro) => {
                    assert((tpre + ((if bind_self {
                        self_bind_pos(i as nat)
                    } else {
                        Seq::<TokM>::empty()
                    }) + p.top + ro.top)) =~= (top.deep_view() + ro.top));
                    assert((el + (seq![frag] + ro.exps)) =~= (el2 + ro.exps));
                },
            }
            el = el2;
            dacc = dacc2;
        }
        i = i + 1;
    }
    proof {
        assert(sm.skip(fs.len() as int) =~= Seq::<FieldDefM>::empty());
        assert(whole.diags =~= dacc);
        assert(diags.deep_view() =~= dbase + whole.diags);
        match whole.res {
            Err(_) => {},
            Ok(p) => {
                assert(top.deep_view() + Seq::<TokM>::empty() =~= top.deep_view());
                assert(el + Seq::<Seq<TokM>>::empty() =~= el);
            },
        }
    }
    Ok((top, joined))
}

/// Emits the whole reconstruction body for a struct: the preparatory
/// statements of every field, then one `tokens.extend(..)` whose quotation
/// holds the constructor literal under the qualified name.
#[verifier::rlimit(100)]
#[verifier::spinoff_prover]
pub fn expand_struct(qpath: &Vec<String>, data: &FieldsShape, diags: &mut Vec<Diag>) -> (r: Result<
    Vec<Tok>,
    Diag,
>)
    ensures
        final(diags).deep_view() == old(diags).deep_view() + expand_struct_spec(
            qpath.deep_view(),
            data.deep_view(),
        ).1,
        match r {
            Ok(out) => expand_struct_spec(qpath.deep_view(), data.deep_view()).0 == Ok::<
                Seq<TokM>,
                DiagM,
            >(out.deep_view()),
            Err(e) => expand_struct_spec(qpath.deep_view(), data.deep_view()).0 == Err::<
                Seq<TokM>,
                DiagM,
            >(e.deep_view()),
        },
{
    let ghost spec_pair = expand_struct_spec(qpath.deep_view(), data.deep_view());
    let (top, joined, delim) = match data {
        FieldsShape::Unit => {
            let top: Vec<Tok> = Vec::new();
            let joined: Vec<Tok> = Vec::new();
            proof {
                assert(top.deep_view() =~= Seq::<TokM>::empty());
                assert(comma_join(Seq::<Seq<TokM>>::empty()) =~= Seq::<TokM>::empty());
            }
            (top, joined, Delim::Brace)
        },
        FieldsShape::Named(fs) => {
            match named_list_parts(fs, true, diags) {
                Ok(pair) => (pair.0, pair.1, Delim::Brace),
                Err(e) => {
                    return Err(e);
                },
            }
        },
        FieldsShape::Unnamed(fs) => {
            match unnamed_list_parts(fs, true, diags) {
                Ok(pair) => (pair.0, pair.1, Delim::Paren),
                Err(e) => {
                    return Err(e);
                },
            }
        },
    };
    let mut out = top;
    crate::tokens::push_ident(&mut out, "tokens");
    crate::tokens::push_punct(&mut out, ".");
    crate::tokens::push_ident(&mut out, "extend");
    crate::tokens::push_open(&mut out, Delim::Paren);
    crate::tokens::push_punct(&mut out, "::");
    crate::tokens::push_ident(&mut out, "quote");
    crate::tokens::push_punct(&mut out, "::");
    crate::tokens::push_ident(&mut out, "quote");
    crate::tokens::push_punct(&mut out, "!");
    crate::tokens::push_open(&mut out, Delim::Brace);
    crate::types::push_names_tokens(qpath, &mut out);
    crate::tokens::push_open(&mut out, delim);
    crate::tokens::extend_toks(&mut out, &joined);
    crate::tokens::push_close(&mut out, delim);
    crate::tokens::push_close(&mut out, Delim::Brace);
    crate::tokens::push_close(&mut out, Delim::Paren);
    crate::tokens::push_punct(&mut out, ";");
    proof {
        match spec_pair.0 {
            Ok(o) => {
                assert(out.deep_view() =~= o);
            },
            Err(_) => {
                assert(false);
            },
        }
    }
    Ok(out)
}

} // verus!
