//! Token trees as plain values, as far as the parameter rewriting reads them.
use vstd::prelude::*;

verus! {

/// One token tree: an identifier, a punctuation character (with whether it
/// is joined to the next one), a delimited group held as its text, or a
/// literal held as its text.
#[derive(Debug, PartialEq, Eq)]
pub enum Tok {
    Ident(String),
    Punct(char, bool),
    Group(String),
    Literal(String),
}

/// What a token stands for.
pub enum TokV {
    Ident(Seq<char>),
    Punct(char, bool),
    Group(Seq<char>),
    Literal(Seq<char>),
}

impl View for Tok {
    type V = TokV;

    open spec fn view(&self) -> TokV {
        match self {
            Tok::Ident(s) => TokV::Ident(s@),
            Tok::Punct(c, j) => TokV::Punct(*c, *j),
            Tok::Group(s) => TokV::Group(s@),
            Tok::Literal(s) => TokV::Literal(s@),
        }
    }
}

/// The views of a token sequence.
pub open spec fn toks_view(s: Seq<Tok>) -> Seq<TokV> {
    s.map_values(|t: Tok| t@)
}

/// The views of a sequence of token sequences.
pub open spec fn toks_list_view(s: Seq<Vec<Tok>>) -> Seq<Seq<TokV>> {
    s.map_values(|v: Vec<Tok>| toks_view(v@))
}

pub open spec fn is_punct(t: TokV, c: char) -> bool {
    t is Punct && t->Punct_0 == c
}

pub open spec fn is_ident_text(t: TokV, s: Seq<char>) -> bool {
    t is Ident && t->Ident_0 == s
}

/// A copy of a token.
pub fn copy_tok(t: &Tok) -> (r: Tok)
    ensures
        r@ == t@,
{
    match t {
        Tok::Ident(s) => Tok::Ident(s.clone()),
        Tok::Punct(c, j) => Tok::Punct(*c, *j),
        Tok::Group(s) => Tok::Group(s.clone()),
        Tok::Literal(s) => Tok::Literal(s.clone()),
    }
}

/// A copy of a token sequence.
pub fn copy_toks(v: &Vec<Tok>) -> (r: Vec<Tok>)
    ensures
        toks_view(r@) == toks_view(v@),
{
    let mut r: Vec<Tok> = Vec::new();
    let mut i: usize = 0;
    while i < v.len()
        invariant
            i <= v.len(),
            r@.len() == i,
            forall|j: int| 0 <= j < i ==> r@[j]@ == v@[j]@,
        decreases v.len() - i,
    {
        r.push(copy_tok(&v[i]));
        i = i + 1;
    }
    assert(toks_view(r@) =~= toks_view(v@));
    r
}

/// A copy of a sequence of token sequences.
pub fn copy_toks_list(v: &Vec<Vec<Tok>>) -> (r: Vec<Vec<Tok>>)
    ensures
        toks_list_view(r@) == toks_list_view(v@),
{
    let mut r: Vec<Vec<Tok>> = Vec::new();
    let mut i: usize = 0;
    while i < v.len()
        invariant
            i <= v.len(),
            r@.len() == i,
            forall|j: int| 0 <= j < i ==> toks_view(r@[j]@) == toks_view(v@[j]@),
        decreases v.len() - i,
    {
        r.push(copy_toks(&v[i]));
        i = i + 1;
    }
    assert(toks_list_view(r@) =~= toks_list_view(v@));
    r
}

/// Whether `t` is the identifier `text`.
pub fn ident_is(t: &Tok, text: &str) -> (r: bool)
    ensures
        r == is_ident_text(t@, text@),
{
    match t {
        Tok::Ident(s) => *s == String::from_str(text),
        _ => false,
    }
}

/// Whether `t` is the punctuation character `c`.
pub fn punct_is(t: &Tok, c: char) -> (r: bool)
    ensures
        r == is_punct(t@, c),
{
    match t {
        Tok::Punct(p, _) => *p == c,
        _ => false,
    }
}

pub fn is_ident(t: &Tok) -> (r: bool)
    ensures
        r == (t@ is Ident),
{
    match t {
        Tok::Ident(_) => true,
        _ => false,
    }
}

pub fn is_punct_tok(t: &Tok) -> (r: bool)
    ensures
        r == (t@ is Punct),
{
    match t {
        Tok::Punct(_, _) => true,
        _ => false,
    }
}

} // verus!
