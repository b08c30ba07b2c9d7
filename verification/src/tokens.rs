//! The token model: the structured form in which generated code is produced.
//!
//! A token stream is a flat `Vec<Tok>`; delimiters appear as explicit open and
//! close tokens.  `render` turns a stream into source text whose tokens are
//! exactly the stream's tokens.

use vstd::prelude::*;

verus! {

/// A bracket kind for `Tok::Open` / `Tok::Close`.
#[derive(Clone, Copy, PartialEq, Eq, Structural, Debug)]
pub enum Delim {
    Paren,
    Bracket,
    Brace,
}

/// One token of generated source text.
#[derive(Debug)]
pub enum Tok {
    /// An identifier or keyword.
    Ident(String),
    /// Punctuation, possibly multi-character (`::`, `=>`).
    Punct(String),
    /// A literal spelled verbatim (`42i32`, `0`).
    Lit(String),
    /// A string literal; the payload is unescaped, `render` quotes it.
    Str(String),
    Open(Delim),
    Close(Delim),
}

/// Mathematical model of a token: the same shape over `Seq<char>`.
pub enum TokM {
    Ident(Seq<char>),
    Punct(Seq<char>),
    Lit(Seq<char>),
    Str(Seq<char>),
    Open(Delim),
    Close(Delim),
}

impl View for Tok {
    type V = TokM;

    open spec fn view(&self) -> TokM {
        match self {
            Tok::Ident(s) => TokM::Ident(s@),
            Tok::Punct(s) => TokM::Punct(s@),
            Tok::Lit(s) => TokM::Lit(s@),
            Tok::Str(s) => TokM::Str(s@),
            Tok::Open(d) => TokM::Open(*d),
            Tok::Close(d) => TokM::Close(*d),
        }
    }
}

impl DeepView for Tok {
    type V = TokM;

    open spec fn deep_view(&self) -> TokM {
        self.view()
    }
}

impl Tok {
    /// A structural copy; `Clone` is avoided because nothing would be known of
    /// a derived clone's result.
    pub fn duplicate(&self) -> (r: Tok)
        ensures
            r@ == self@,
    {
        match self {
            Tok::Ident(s) => Tok::Ident(s.clone()),
            Tok::Punct(s) => Tok::Punct(s.clone()),
            Tok::Lit(s) => Tok::Lit(s.clone()),
            Tok::Str(s) => Tok::Str(s.clone()),
            Tok::Open(d) => Tok::Open(*d),
            Tok::Close(d) => Tok::Close(*d),
        }
    }
}

/// Compares two tokens.
pub fn tok_eq(a: &Tok, b: &Tok) -> (r: bool)
    ensures
        r == (a@ == b@),
{
    match (a, b) {
        (Tok::Ident(x), Tok::Ident(y)) => str_eq(x.as_str(), y.as_str()),
        (Tok::Punct(x), Tok::Punct(y)) => str_eq(x.as_str(), y.as_str()),
        (Tok::Lit(x), Tok::Lit(y)) => str_eq(x.as_str(), y.as_str()),
        (Tok::Str(x), Tok::Str(y)) => str_eq(x.as_str(), y.as_str()),
        (Tok::Open(x), Tok::Open(y)) => *x == *y,
        (Tok::Close(x), Tok::Close(y)) => *x == *y,
        _ => false,
    }
}

/// Compares two token streams.
pub fn toks_eq(a: &Vec<Tok>, b: &Vec<Tok>) -> (r: bool)
    ensures
        r == (a.deep_view() == b.deep_view()),
{
    if a.len() != b.len() {
        assert(a.deep_view().len() != b.deep_view().len());
        return false;
    }
    let mut i: usize = 0;
    while i < a.len()
        invariant
            i <= a.len(),
            a.len() == b.len(),
            forall|j: int| 0 <= j < i ==> a.deep_view()[j] == b.deep_view()[j],
        decreases a.len() - i,
    {
        if !tok_eq(&a[i], &b[i]) {
            assert(a.deep_view()[i as int] != b.deep_view()[i as int]);
            return false;
        }
        i = i + 1;
    }
    assert(a.deep_view() =~= b.deep_view());
    true
}

/// A structural copy of a token stream.
pub fn toks_clone(src: &Vec<Tok>) -> (r: Vec<Tok>)
    ensures
        r.deep_view() == src.deep_view(),
{
    let mut r: Vec<Tok> = Vec::new();
    extend_toks(&mut r, src);
    assert(r.deep_view() =~= src.deep_view());
    r
}

/// Appends a copy of every token of `src` to `dst`.
pub fn extend_toks(dst: &mut Vec<Tok>, src: &Vec<Tok>)
    ensures
        final(dst).deep_view() == old(dst).deep_view() + src.deep_view(),
{
    let ghost base = dst.deep_view();
    let mut i: usize = 0;
    while i < src.len()
        invariant
            i <= src.len(),
            dst.deep_view() == base + src.deep_view().take(i as int),
        decreases src.len() - i,
    {
        let ghost pre = dst.deep_view();
        let t = src[i].duplicate();
        assert(t.deep_view() == src.deep_view()[i as int]);
        dst.push(t);
        assert(dst.deep_view() =~= pre.push(src.deep_view()[i as int]));
        assert(src.deep_view().take(i + 1) =~= src.deep_view().take(i as int).push(
            src.deep_view()[i as int],
        ));
        assert(dst.deep_view() =~= base + src.deep_view().take(i + 1));
        i = i + 1;
    }
    assert(src.deep_view().take(src.len() as int) =~= src.deep_view());
}

/// Pushes an identifier token.
pub fn push_ident(out: &mut Vec<Tok>, s: &str)
    ensures
        final(out).deep_view() == old(out).deep_view().push(TokM::Ident(s@)),
{
    out.push(Tok::Ident(s.to_owned()));
    assert(out.deep_view() =~= old(out).deep_view().push(TokM::Ident(s@)));
}

/// Pushes an identifier token given as an owned string.
pub fn push_ident_string(out: &mut Vec<Tok>, s: String)
    ensures
        final(out).deep_view() == old(out).deep_view().push(TokM::Ident(s@)),
{
    let ghost v = s@;
    out.push(Tok::Ident(s));
    assert(out.deep_view() =~= old(out).deep_view().push(TokM::Ident(v)));
}

/// Pushes a punctuation token.
pub fn push_punct(out: &mut Vec<Tok>, s: &str)
    ensures
        final(out).deep_view() == old(out).deep_view().push(TokM::Punct(s@)),
{
    out.push(Tok::Punct(s.to_owned()));
    assert(out.deep_view() =~= old(out).deep_view().push(TokM::Punct(s@)));
}

/// Pushes a verbatim literal token.
pub fn push_lit(out: &mut Vec<Tok>, s: String)
    ensures
        final(out).deep_view() == old(out).deep_view().push(TokM::Lit(s@)),
{
    let ghost v = s@;
    out.push(Tok::Lit(s));
    assert(out.deep_view() =~= old(out).deep_view().push(TokM::Lit(v)));
}

/// Pushes a string-literal token.
pub fn push_str_tok(out: &mut Vec<Tok>, s: String)
    ensures
        final(out).deep_view() == old(out).deep_view().push(TokM::Str(s@)),
{
    let ghost v = s@;
    out.push(Tok::Str(s));
    assert(out.deep_view() =~= old(out).deep_view().push(TokM::Str(v)));
}

/// Pushes an opening delimiter.
pub fn push_open(out: &mut Vec<Tok>, d: Delim)
    ensures
        final(out).deep_view() == old(out).deep_view().push(TokM::Open(d)),
{
    out.push(Tok::Open(d));
    assert(out.deep_view() =~= old(out).deep_view().push(TokM::Open(d)));
}

/// Pushes a closing delimiter.
pub fn push_close(out: &mut Vec<Tok>, d: Delim)
    ensures
        final(out).deep_view() == old(out).deep_view().push(TokM::Close(d)),
{
    out.push(Tok::Close(d));
    assert(out.deep_view() =~= old(out).deep_view().push(TokM::Close(d)));
}

/// Relies on `String::push`: appends the given character to the end of the string.
pub assume_specification[ String::push ](s: &mut String, c: char)
    ensures
        final(s)@ == old(s)@.push(c),
;

/// Compares two string slices character by character.
pub fn str_eq(a: &str, b: &str) -> (r: bool)
    ensures
        r == (a@ == b@),
{
    let alen = a.unicode_len();
    let blen = b.unicode_len();
    if alen != blen {
        return false;
    }
    let mut i: usize = 0;
    while i < alen
        invariant
            i <= alen,
            alen == a@.len(),
            blen == b@.len(),
            alen == blen,
            forall|j: int| 0 <= j < i ==> a@[j] == b@[j],
        decreases alen - i,
    {
        if a.get_char(i) != b.get_char(i) {
            return false;
        }
        i = i + 1;
    }
    assert(a@ =~= b@);
    true
}

/// The concatenation of a base name and a role suffix.
pub fn derived_name(base: &str, suffix: &str) -> (s: String)
    ensures
        s@ == base@ + suffix@,
{
    let mut s = base.to_owned();
    s.append(suffix);
    s
}

/// The decimal digit `d` as a character, for `d < 10`.
pub open spec fn dec_digit(d: nat) -> char {
    if d == 0 {
        '0'
    } else if d == 1 {
        '1'
    } else if d == 2 {
        '2'
    } else if d == 3 {
        '3'
    } else if d == 4 {
        '4'
    } else if d == 5 {
        '5'
    } else if d == 6 {
        '6'
    } else if d == 7 {
        '7'
    } else if d == 8 {
        '8'
    } else {
        '9'
    }
}

/// The decimal representation of `n`, most significant digit first.
pub open spec fn dec_text(n: nat) -> Seq<char>
    decreases n,
{
    if n < 10 {
        seq![dec_digit(n)]
    } else {
        dec_text(n / 10) + seq![dec_digit(n % 10)]
    }
}

fn push_dec_digit(out: &mut String, d: u64)
    requires
        d < 10,
    ensures
        final(out)@ == old(out)@.push(dec_digit(d as nat)),
{
    if d == 0 {
        out.push('0');
    } else if d == 1 {
        out.push('1');
    } else if d == 2 {
        out.push('2');
    } else if d == 3 {
        out.push('3');
    } else if d == 4 {
        out.push('4');
    } else if d == 5 {
        out.push('5');
    } else if d == 6 {
        out.push('6');
    } else if d == 7 {
        out.push('7');
    } else if d == 8 {
        out.push('8');
    } else {
        out.push('9');
    }
}

fn push_dec(out: &mut String, n: u64)
    ensures
        final(out)@ == old(out)@ + dec_text(n as nat),
    decreases n,
{
    let ghost pre = out@;
    if n < 10 {
        push_dec_digit(out, n);
        assert(out@ =~= pre + dec_text(n as nat));
    } else {
        push_dec(out, n / 10);
        push_dec_digit(out, n % 10);
        assert(out@ =~= pre + dec_text(n as nat));
    }
}

/// The decimal spelling of `n`.
pub fn dec_string(n: u64) -> (s: String)
    ensures
        s@ == dec_text(n as nat),
{
    let mut s = String::new();
    push_dec(&mut s, n);
    assert(s@ =~= dec_text(n as nat));
    s
}

/// The opening character of a delimiter.
pub open spec fn open_char(d: Delim) -> char {
    match d {
        Delim::Paren => '(',
        Delim::Bracket => '[',
        Delim::Brace => '{',
    }
}

/// The closing character of a delimiter.
pub open spec fn close_char(d: Delim) -> char {
    match d {
        Delim::Paren => ')',
        Delim::Bracket => ']',
        Delim::Brace => '}',
    }
}

/// A character of a string literal as it appears in source text.
pub open spec fn esc_char(c: char) -> Seq<char> {
    if c == '"' || c == '\\' {
        seq!['\\', c]
    } else {
        seq![c]
    }
}

/// A string literal's payload as it appears in source text.
pub open spec fn escape_text(s: Seq<char>) -> Seq<char>
    decreases s.len(),
{
    if s.len() == 0 {
        Seq::empty()
    } else {
        escape_text(s.drop_last()) + esc_char(s.last())
    }
}

/// The source text of one token.
pub open spec fn tok_text(t: TokM) -> Seq<char> {
    match t {
        TokM::Ident(s) => s,
        TokM::Punct(s) => s,
        TokM::Lit(s) => s,
        TokM::Str(s) => seq!['"'] + escape_text(s) + seq!['"'],
        TokM::Open(d) => seq![open_char(d)],
        TokM::Close(d) => seq![close_char(d)],
    }
}

/// The source text of a token stream: each token's text followed by a space.
pub open spec fn render_text(ts: Seq<TokM>) -> Seq<char>
    decreases ts.len(),
{
    if ts.len() == 0 {
        Seq::empty()
    } else {
        render_text(ts.drop_last()) + tok_text(ts.last()) + seq![' ']
    }
}

fn push_escaped(out: &mut String, s: &str)
    ensures
        final(out)@ == old(out)@ + escape_text(s@),
{
    let ghost pre = out@;
    let len = s.unicode_len();
    let mut i: usize = 0;
    while i < len
        invariant
            i <= len,
            len == s@.len(),
            out@ == pre + escape_text(s@.take(i as int)),
        decreases len - i,
    {
        let c = s.get_char(i);
        if c == '"' || c == '\\' {
            out.push('\\');
        }
        out.push(c);
        assert(s@.take(i + 1).drop_last() =~= s@.take(i as int));
        assert(s@.take(i + 1).last() == s@[i as int]);
        assert(out@ =~= pre + escape_text(s@.take(i + 1)));
        i = i + 1;
    }
    assert(s@.take(len as int) =~= s@);
}

/// Renders a token stream to source text.
pub fn render(ts: &Vec<Tok>) -> (r: String)
    ensures
        r@ == render_text(ts.deep_view()),
{
    let mut out = String::new();
    let mut i: usize = 0;
    while i < ts.len()
        invariant
            i <= ts.len(),
            out@ == render_text(ts.deep_view().take(i as int)),
        decreases ts.len() - i,
    {
        let ghost pre = out@;
        match &ts[i] {
            Tok::Ident(s) => out.append(s.as_str()),
            Tok::Punct(s) => out.append(s.as_str()),
            Tok::Lit(s) => out.append(s.as_str()),
            Tok::Str(s) => {
                out.push('"');
                push_escaped(&mut out, s.as_str());
                out.push('"');
            },
            Tok::Open(d) => {
                match d {
                    Delim::Paren => out.push('('),
                    Delim::Bracket => out.push('['),
                    Delim::Brace => out.push('{'),
                }
            },
            Tok::Close(d) => {
                match d {
                    Delim::Paren => out.push(')'),
                    Delim::Bracket => out.push(']'),
                    Delim::Brace => out.push('}'),
                }
            },
        }
        assert(out@ =~= pre + tok_text(ts.deep_view()[i as int]));
        out.push(' ');
        assert(ts.deep_view().take(i + 1).drop_last() =~= ts.deep_view().take(i as int));
        assert(out@ =~= render_text(ts.deep_view().take(i + 1)));
        i = i + 1;
    }
    assert(ts.deep_view().take(ts.len() as int) =~= ts.deep_view());
    out
}

} // verus!
