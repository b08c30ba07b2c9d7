//! Derive-style generation of reconstructing expressions.
//!
//! Given a description of a struct or enum, the crate produces the body of an
//! implementation that, at run time, rebuilds a literal source expression for
//! any value of that type.  The syntactic substrate (token streams, type
//! syntax, attribute lists) is modelled by the crate's own datatypes; the
//! host's parsing and splicing of real token streams stays outside.

pub mod def;
pub mod diag;
pub mod enums;
pub mod fields;
pub mod laws;
pub mod quine;
pub mod structs;
pub mod tokens;
pub mod types;
pub mod util;

use vstd::prelude::*;

use crate::def::{DataShape, DataShapeM, GenParamM, PredM, TypeDef, TypeDefM};
use crate::diag::{Diag, DiagM};
use crate::structs::comma_join;
use crate::tokens::{Delim, Tok, TokM};
use crate::util::{add_bounds, add_bounds_spec, parse_attrs, parse_attrs_spec, AttrsM};

verus! {

/// The qualified name under which the subject type is reconstructed: the
/// `path_prefix` override if one was given, the module path of the
/// definition site otherwise, followed by the type's own name.
pub open spec fn qpath_of(d: TypeDefM, a: AttrsM) -> Seq<Seq<char>> {
    match a.path_prefix {
        Some(p) => p + seq![d.name],
        None => d.module_segs + seq![d.name],
    }
}

/// The declaration fragments of the generic parameters.
pub open spec fn param_decls(s: Seq<GenParamM>) -> Seq<Seq<TokM>>
    decreases s.len(),
{
    if s.len() == 0 {
        Seq::empty()
    } else {
        param_decls(s.drop_last()) + seq![s.last().decl]
    }
}

/// The bare-name fragments of the generic parameters.
pub open spec fn param_names(s: Seq<GenParamM>) -> Seq<Seq<TokM>>
    decreases s.len(),
{
    if s.len() == 0 {
        Seq::empty()
    } else {
        param_names(s.drop_last()) + seq![seq![TokM::Ident(s.last().name)]]
    }
}

/// The fragments of the `where` predicates: `subject : bound`.
pub open spec fn pred_frags(s: Seq<PredM>) -> Seq<Seq<TokM>>
    decreases s.len(),
{
    if s.len() == 0 {
        Seq::empty()
    } else {
        pred_frags(s.drop_last()) + seq![
            s.last().subject + seq![TokM::Punct(":"@)] + s.last().bound,
        ]
    }
}

/// `< p1 , p2 >`, or nothing when there are no generic parameters.
pub open spec fn angle_list(frags: Seq<Seq<TokM>>) -> Seq<TokM> {
    if frags.len() == 0 {
        Seq::empty()
    } else {
        seq![TokM::Punct("<"@)] + comma_join(frags) + seq![TokM::Punct(">"@)]
    }
}

/// The synthesized `where` clause.
pub open spec fn where_toks(preds: Seq<PredM>) -> Seq<TokM> {
    seq![TokM::Ident("where"@)] + comma_join(pred_frags(preds))
}

/// `:: quote :: ToTokens`, the capability bound placed on every leaf type.
pub open spec fn to_tokens_bound() -> Seq<TokM> {
    seq![TokM::Punct("::"@), TokM::Ident("quote"@), TokM::Punct("::"@), TokM::Ident("ToTokens"@)]
}

/// The generated implementation block around a finished body.
pub open spec fn impl_out(d: TypeDefM, body: Seq<TokM>, preds: Seq<PredM>) -> Seq<TokM> {
    seq![
        TokM::Punct("#"@),
        TokM::Open(Delim::Bracket),
        TokM::Ident("automatically_derived"@),
        TokM::Close(Delim::Bracket),
        TokM::Punct("#"@),
        TokM::Open(Delim::Bracket),
        TokM::Ident("allow"@),
        TokM::Open(Delim::Paren),
        TokM::Ident("non_snake_case"@),
        TokM::Close(Delim::Paren),
        TokM::Close(Delim::Bracket),
        TokM::Ident("impl"@),
    ] + angle_list(param_decls(d.generics.params)) + seq![
        TokM::Punct("::"@),
        TokM::Ident("quote"@),
        TokM::Punct("::"@),
        TokM::Ident("ToTokens"@),
        TokM::Ident("for"@),
        TokM::Ident(d.name),
    ] + angle_list(param_names(d.generics.params)) + where_toks(preds) + seq![
        TokM::Open(Delim::Brace),
        TokM::Ident("fn"@),
        TokM::Ident("to_tokens"@),
        TokM::Open(Delim::Paren),
        TokM::Punct("&"@),
        TokM::Ident("self"@),
        TokM::Punct(","@),
        TokM::Ident("tokens"@),
        TokM::Punct(":"@),
        TokM::Punct("&"@),
        TokM::Ident("mut"@),
        TokM::Punct("::"@),
        TokM::Ident("proc_macro2"@),
        TokM::Punct("::"@),
        TokM::Ident("TokenStream"@),
        TokM::Close(Delim::Paren),
        TokM::Open(Delim::Brace),
    ] + body + seq![TokM::Close(Delim::Brace), TokM::Close(Delim::Brace)]
}

/// What one whole derivation yields: the implementation block, or the first
/// hard error; and the diagnostics reported on the way.
pub open spec fn expand_spec(d: TypeDefM) -> (Result<Seq<TokM>, DiagM>, Seq<DiagM>) {
    match parse_attrs_spec(d.attrs) {
        Err(e) => (Err(e), Seq::empty()),
        Ok(a) => {
            let qpath = qpath_of(d, a);
            let body_pair = match d.data {
                DataShapeM::Union => (Err(DiagM::UnionUnsupported), Seq::<DiagM>::empty()),
                DataShapeM::Struct(fs) => crate::structs::expand_struct_spec(qpath, fs),
                DataShapeM::Enum(vs) => crate::enums::expand_enum_spec(d.name, qpath, vs),
            };
            match body_pair.0 {
                Err(e) => (Err(e), body_pair.1),
                Ok(body) => match add_bounds_spec(d, to_tokens_bound()) {
                    Err(e) => (Err(e), body_pair.1),
                    Ok(preds) => (Ok(impl_out(d, body, preds)), body_pair.1),
                },
            }
        },
    }
}

fn strings_clone(v: &Vec<String>) -> (r: Vec<String>)
    ensures
        r.deep_view() == v.deep_view(),
{
    let mut r: Vec<String> = Vec::new();
    let mut i: usize = 0;
    while i < v.len()
        invariant
            i <= v.len(),
            r.deep_view() == v.deep_view().take(i as int),
        decreases v.len() - i,
    {
        let ghost pre = r.deep_view();
        r.push(v[i].clone());
        proof {
            assert(r.deep_view() =~= pre.push(v.deep_view()[i as int]));
            assert(r.deep_view() =~= v.deep_view().take(i + 1));
        }
        i = i + 1;
    }
    assert(v.deep_view().take(v.len() as int) =~= v.deep_view());
    r
}

fn push_param_decls(params: &Vec<crate::def::GenParam>, out: &mut Vec<Tok>)
    ensures
        final(out).deep_view() == old(out).deep_view() + angle_list(
            param_decls(params.deep_view()),
        ),
{
    let ghost base = out.deep_view();
    let ghost pm = params.deep_view();
    if params.len() == 0 {
        proof {
            assert(out.deep_view() =~= base + angle_list(param_decls(pm)));
        }
        return ;
    }
    crate::tokens::push_punct(out, "<");
    let ghost jbase = out.deep_view();
    let mut i: usize = 0;
    while i < params.len()
        invariant
            pm == params.deep_view(),
            pm.len() == params.len(),
            i <= params.len(),
            out.deep_view() == jbase + comma_join(param_decls(pm.take(i as int))),
        decreases params.len() - i,
    {
        if i > 0 {
            crate::tokens::push_punct(out, ",");
        }
        crate::tokens::extend_toks(out, &params[i].decl);
        proof {
            assert(pm.take(i + 1).drop_last() =~= pm.take(i as int));
            assert(param_decls(pm.take(i + 1)).drop_last() =~= param_decls(pm.take(i as int)));
            assert(pm.take(i + 1).last() == pm[i as int]);
            assert(out.deep_view() =~= jbase + comma_join(param_decls(pm.take(i + 1))));
        }
        i = i + 1;
    }
    crate::tokens::push_punct(out, ">");
    proof {
        assert(pm.take(params.len() as int) =~= pm);
        assert(out.deep_view() =~= base + angle_list(param_decls(pm)));
    }
}

fn push_param_names(params: &Vec<crate::def::GenParam>, out: &mut Vec<Tok>)
    ensures
        final(out).deep_view() == old(out).deep_view() + angle_list(
            param_names(params.deep_view()),
        ),
{
    let ghost base = out.deep_view();
    let ghost pm = params.deep_view();
    if params.len() == 0 {
        proof {
            assert(out.deep_view() =~= base + angle_list(param_names(pm)));
        }
        return ;
    }
    crate::tokens::push_punct(out, "<");
    let ghost jbase = out.deep_view();
    let mut i: usize = 0;
    while i < params.len()
        invariant
            pm == params.deep_view(),
            pm.len() == params.len(),
            i <= params.len(),
            out.deep_view() == jbase + comma_join(param_names(pm.take(i as int))),
        decreases params.len() - i,
    {
        if i > 0 {
            crate::tokens::push_punct(out, ",");
        }
        crate::tokens::push_ident(out, params[i].name.as_str());
        proof {
            assert(pm.take(i + 1).drop_last() =~= pm.take(i as int));
            assert(param_names(pm.take(i + 1)).drop_last() =~= param_names(pm.take(i as int)));
            assert(pm.take(i + 1).last() == pm[i as int]);
            assert(out.deep_view() =~= jbase + comma_join(param_names(pm.take(i + 1))));
        }
        i = i + 1;
    }
    crate::tokens::push_punct(out, ">");
    proof {
        assert(pm.take(params.len() as int) =~= pm);
        assert(out.deep_view() =~= base + angle_list(param_names(pm)));
    }
}

fn push_where_clause(preds: &Vec<crate::def::Pred>, out: &mut Vec<Tok>)
    ensures
        final(out).deep_view() == old(out).deep_view() + where_toks(preds.deep_view()),
{
    let ghost base = out.deep_view();
    let ghost pm = preds.deep_view();
    crate::tokens::push_ident(out, "where");
    let ghost jbase = out.deep_view();
    let mut i: usize = 0;
    while i < preds.len()
        invariant
            pm == preds.deep_view(),
            pm.len() == preds.len(),
            i <= preds.len(),
            out.deep_view() == jbase + comma_join(pred_frags(pm.take(i as int))),
        decreases preds.len() - i,
    {
        if i > 0 {
            crate::tokens::push_punct(out, ",");
        }
        crate::tokens::extend_toks(out, &preds[i].subject);
        crate::tokens::push_punct(out, ":");
        crate::tokens::extend_toks(out, &preds[i].bound);
        proof {
            assert(pm.take(i + 1).drop_last() =~= pm.take(i as int));
            assert(pred_frags(pm.take(i + 1)).drop_last() =~= pred_frags(pm.take(i as int)));
            assert(pm.take(i + 1).last() == pm[i as int]);
            assert(out.deep_view() =~= jbase + comma_join(pred_frags(pm.take(i + 1))));
        }
        i = i + 1;
    }
    proof {
        assert(pm.take(preds.len() as int) =~= pm);
        assert(out.deep_view() =~= base + where_toks(pm));
    }
}

/// Runs one whole derivation: parses the type-level annotations, expands the
/// body by data shape, infers the generic bounds, and assembles the final
/// implementation block.
#[verifier::rlimit(100)]
#[verifier::spinoff_prover]
pub fn expand(item: &TypeDef, diags: &mut Vec<Diag>) -> (r: Result<Vec<Tok>, Diag>)
    ensures
        final(diags).deep_view() == old(diags).deep_view() + expand_spec(item.deep_view()).1,
        match r {
            Ok(out) => expand_spec(item.deep_view()).0 == Ok::<Seq<TokM>, DiagM>(out.deep_view()),
            Err(e) => expand_spec(item.deep_view()).0 == Err::<Seq<TokM>, DiagM>(e.deep_view()),
        },
{
    let ghost dm = item.deep_view();
    let ghost sp = expand_spec(dm);
    let ghost dbase = diags.deep_view();
    let attrs = match parse_attrs(&item.attrs) {
        Ok(a) => a,
        Err(e) => {
            assert(diags.deep_view() =~= dbase + sp.1);
            return Err(e);
        },
    };
    let mut qpath: Vec<String> = match &attrs.path_prefix {
        Some(p) => strings_clone(p),
        None => strings_clone(&item.module_segs),
    };
    qpath.push(item.name.clone());
    proof {
        assert(qpath.deep_view() =~= qpath_of(dm, attrs.deep_view()));
    }
    let body = match &item.data {
        DataShape::Union => {
            proof {
                assert(diags.deep_view() =~= dbase + sp.1);
            }
            return Err(Diag::UnionUnsupported);
        },
        DataShape::Struct(fs) => {
            match crate::structs::expand_struct(&qpath, fs, diags) {
                Ok(b) => b,
                Err(e) => {
                    proof {
                        assert(diags.deep_view() =~= dbase + sp.1);
                    }
                    return Err(e);
                },
            }
        },
        DataShape::Enum(vs) => {
            match crate::enums::expand_enum(item.name.as_str(), &qpath, vs, diags) {
                Ok(b) => b,
                Err(e) => {
                    proof {
                        assert(diags.deep_view() =~= dbase + sp.1);
                    }
                    return Err(e);
                },
            }
        },
    };
    let mut bound: Vec<Tok> = Vec::new();
    crate::tokens::push_punct(&mut bound, "::");
    crate::tokens::push_ident(&mut bound, "quote");
    crate::tokens::push_punct(&mut bound, "::");
    crate::tokens::push_ident(&mut bound, "ToTokens");
    proof {
        assert(bound.deep_view() =~= to_tokens_bound());
    }
    let preds = match add_bounds(item, &bound) {
        Ok(p) => p,
        Err(e) => {
            proof {
                assert(diags.deep_view() =~= dbase + sp.1);
            }
            return Err(e);
        },
    };
    let out = assemble_impl(item, &body, &preds);
    proof {
        match sp.0 {
            Ok(o) => {
                assert(out.deep_view() == o);
                assert(diags.deep_view() =~= dbase + sp.1);
            },
            Err(_) => {
                assert(false);
            },
        }
    }
    Ok(out)
}

#[verifier::rlimit(100)]
#[verifier::spinoff_prover]
fn assemble_impl(item: &TypeDef, body: &Vec<Tok>, preds: &Vec<crate::def::Pred>) -> (out: Vec<
    Tok,
>)
    ensures
        out.deep_view() == impl_out(item.deep_view(), body.deep_view(), preds.deep_view()),
{
    let mut out: Vec<Tok> = Vec::new();
    crate::tokens::push_punct(&mut out, "#");
    crate::tokens::push_open(&mut out, Delim::Bracket);
    crate::tokens::push_ident(&mut out, "automatically_derived");
    crate::tokens::push_close(&mut out, Delim::Bracket);
    crate::tokens::push_punct(&mut out, "#");
    crate::tokens::push_open(&mut out, Delim::Bracket);
    crate::tokens::push_ident(&mut out, "allow");
    crate::tokens::push_open(&mut out, Delim::Paren);
    crate::tokens::push_ident(&mut out, "non_snake_case");
    crate::tokens::push_close(&mut out, Delim::Paren);
    crate::tokens::push_close(&mut out, Delim::Bracket);
    crate::tokens::push_ident(&mut out, "impl");
    push_param_decls(&item.generics.params, &mut out);
    crate::tokens::push_punct(&mut out, "::");
    crate::tokens::push_ident(&mut out, "quote");
    crate::tokens::push_punct(&mut out, "::");
    crate::tokens::push_ident(&mut out, "ToTokens");
    crate::tokens::push_ident(&mut out, "for");
    crate::tokens::push_ident(&mut out, item.name.as_str());
    push_param_names(&item.generics.params, &mut out);
    push_where_clause(&preds, &mut out);
    crate::tokens::push_open(&mut out, Delim::Brace);
    crate::tokens::push_ident(&mut out, "fn");
    crate::tokens::push_ident(&mut out, "to_tokens");
    crate::tokens::push_open(&mut out, Delim::Paren);
    crate::tokens::push_punct(&mut out, "&");
    crate::tokens::push_ident(&mut out, "self");
    crate::tokens::push_punct(&mut out, ",");
    crate::tokens::push_ident(&mut out, "tokens");
    crate::tokens::push_punct(&mut out, ":");
    crate::tokens::push_punct(&mut out, "&");
    crate::tokens::push_ident(&mut out, "mut");
    crate::tokens::push_punct(&mut out, "::");
    crate::tokens::push_ident(&mut out, "proc_macro2");
    crate::tokens::push_punct(&mut out, "::");
    crate::tokens::push_ident(&mut out, "TokenStream");
    crate::tokens::push_close(&mut out, Delim::Paren);
    crate::tokens::push_open(&mut out, Delim::Brace);
    crate::tokens::extend_toks(&mut out, body);
    crate::tokens::push_close(&mut out, Delim::Brace);
    crate::tokens::push_close(&mut out, Delim::Brace);
    assert(out.deep_view() =~= impl_out(item.deep_view(), body.deep_view(), preds.deep_view()));
    out
}

} // verus!
