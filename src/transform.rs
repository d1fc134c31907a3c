//! Rewrites a function's borrowing parameters into owned record fields.
use crate::tree::FnDecl;
use crate::paths::{PathEntry, keys_unique, lookup, lookup_path, strs_view, table_view};
use crate::tokens::{
    Tok, TokV, copy_tok, ident_is, is_ident, is_ident_text, is_punct, is_punct_tok, punct_is,
    toks_list_view, toks_view,
};
use vstd::prelude::*;

verus! {

/// The tokens of a path: its segments joined by `::`.
pub open spec fn path_toks(p: Seq<Seq<char>>) -> Seq<TokV>
    decreases p.len(),
{
    if p.len() == 0 {
        Seq::empty()
    } else if p.len() == 1 {
        seq![TokV::Ident(p[0])]
    } else {
        path_toks(p.drop_last()) + seq![
            TokV::Punct(':', true),
            TokV::Punct(':', false),
            TokV::Ident(p.last()),
        ]
    }
}

/// `name : & T`
pub open spec fn is_simple_ref(a: Seq<TokV>) -> bool {
    &&& a.len() == 4
    &&& a[0] is Ident
    &&& a[1] is Punct
    &&& is_punct(a[2], '&')
    &&& a[3] is Ident
}

/// `name : Wrapper < & ... >`
pub open spec fn is_wrapped_ref(a: Seq<TokV>) -> bool {
    &&& a.len() >= 6
    &&& a[0] is Ident
    &&& a[1] is Punct
    &&& a[2] is Ident
    &&& is_punct(a[3], '<')
    &&& is_punct(a[4], '&')
    &&& a[a.len() - 1] is Punct
}

/// A type name used by value: its qualified path where the table knows it,
/// else the name as it stands.
pub open spec fn type_by_value(t: TokV, table: Seq<(Seq<char>, Seq<Seq<char>>)>) -> Seq<TokV> {
    match lookup(table, t->Ident_0) {
        Some(p) => path_toks(p),
        None => seq![t],
    }
}

/// The record field that stands for parameter `a`.
pub open spec fn rewrite_field(a: Seq<TokV>, table: Seq<(Seq<char>, Seq<Seq<char>>)>) -> Seq<TokV> {
    if is_simple_ref(a) {
        if is_ident_text(a[3], "str"@) {
            seq![a[0], a[1], TokV::Ident("String"@)]
        } else {
            seq![a[0], a[1]] + type_by_value(a[3], table)
        }
    } else if is_wrapped_ref(a) {
        if a.len() == 7 && is_ident_text(a[5], "str"@) {
            seq![a[0], a[1], a[2], a[3], TokV::Ident("String"@), a[6]]
        } else if a.len() == 7 && a[5] is Group && a[5]->Group_0 == "[u8]"@ {
            seq![
                a[0],
                a[1],
                a[2],
                a[3],
                TokV::Ident("Vec"@),
                TokV::Punct('<', true),
                TokV::Ident("u8"@),
                TokV::Punct('>', true),
                TokV::Punct('>', true),
            ]
        } else if a[5] is Ident && lookup(table, a[5]->Ident_0) is Some {
            a.subrange(0, 5) + path_toks(lookup(table, a[5]->Ident_0)->Some_0) + a.subrange(6, a.len() as int)
        } else {
            a
        }
    } else {
        a
    }
}

/// The name a parameter is forwarded by: its leading identifier, if any.
pub open spec fn arg_name(a: Seq<TokV>) -> Option<Seq<char>> {
    if a.len() > 0 && a[0] is Ident {
        Some(a[0]->Ident_0)
    } else {
        None
    }
}

/// The forwarding names of a parameter list, in order.
pub open spec fn arg_names(params: Seq<Seq<TokV>>) -> Seq<Seq<char>>
    decreases params.len(),
{
    if params.len() == 0 {
        Seq::empty()
    } else {
        let prev = arg_names(params.drop_last());
        match arg_name(params.last()) {
            Some(n) => prev.push(n),
            None => prev,
        }
    }
}

/// The record fields of a parameter list, one per parameter, in order.
pub open spec fn rewrite_fields(params: Seq<Seq<TokV>>, table: Seq<(Seq<char>, Seq<Seq<char>>)>) -> Seq<Seq<TokV>> {
    params.map_values(|a: Seq<TokV>| rewrite_field(a, table))
}

/// For parameters `(a: &str, b: W<&[u8]>, c: &T, d: u32)` with `T` a known
/// structure, the record's fields are `(a: String, b: W<Vec<u8>>, c: <path of
/// T>, d: u32)` and the call forwards exactly `[a, b, c, d]`, in that order.
pub proof fn lemma_parameter_shapes(
    a: Seq<char>,
    b: Seq<char>,
    c: Seq<char>,
    d: Seq<char>,
    w: Seq<char>,
    t: Seq<char>,
    table: Seq<(Seq<char>, Seq<Seq<char>>)>,
)
    requires
        lookup(table, t) is Some,
        t != "str"@,
    ensures
        ({
            let colon = TokV::Punct(':', false);
            let amp = TokV::Punct('&', false);
            let params = seq![
                seq![TokV::Ident(a), colon, amp, TokV::Ident("str"@)],
                seq![TokV::Ident(b), colon, TokV::Ident(w), TokV::Punct('<', false), amp, TokV::Group("[u8]"@), TokV::Punct('>', false)],
                seq![TokV::Ident(c), colon, amp, TokV::Ident(t)],
                seq![TokV::Ident(d), colon, TokV::Ident("u32"@)],
            ];
            &&& rewrite_fields(params, table) == seq![
                seq![TokV::Ident(a), colon, TokV::Ident("String"@)],
                seq![
                    TokV::Ident(b),
                    colon,
                    TokV::Ident(w),
                    TokV::Punct('<', false),
                    TokV::Ident("Vec"@),
                    TokV::Punct('<', true),
                    TokV::Ident("u8"@),
                    TokV::Punct('>', true),
                    TokV::Punct('>', true),
                ],
                seq![TokV::Ident(c), colon] + path_toks(lookup(table, t)->Some_0),
                seq![TokV::Ident(d), colon, TokV::Ident("u32"@)],
            ]
            &&& arg_names(params) == seq![a, b, c, d]
        }),
{
    let colon = TokV::Punct(':', false);
    let amp = TokV::Punct('&', false);
    let pa = seq![TokV::Ident(a), colon, amp, TokV::Ident("str"@)];
    let pb = seq![TokV::Ident(b), colon, TokV::Ident(w), TokV::Punct('<', false), amp, TokV::Group("[u8]"@), TokV::Punct('>', false)];
    let pc = seq![TokV::Ident(c), colon, amp, TokV::Ident(t)];
    let pd = seq![TokV::Ident(d), colon, TokV::Ident("u32"@)];
    let params = seq![pa, pb, pc, pd];
    assert(is_simple_ref(pa));
    assert(!is_simple_ref(pb) && is_wrapped_ref(pb));
    assert(!is_ident_text(pb[5], "str"@));
    assert(is_simple_ref(pc));
    assert(!is_simple_ref(pd) && !is_wrapped_ref(pd));
    assert(rewrite_fields(params, table) =~= seq![
        rewrite_field(pa, table),
        rewrite_field(pb, table),
        rewrite_field(pc, table),
        rewrite_field(pd, table),
    ]);
    assert(params.drop_last() =~= seq![pa, pb, pc]);
    assert(seq![pa, pb, pc].drop_last() =~= seq![pa, pb]);
    assert(seq![pa, pb].drop_last() =~= seq![pa]);
    assert(seq![pa].drop_last() =~= Seq::<Seq<TokV>>::empty());
    assert(arg_names(Seq::<Seq<TokV>>::empty()) =~= Seq::<Seq<char>>::empty());
    assert(seq![pa].last() == pa);
    assert(arg_name(pa) == Some(a));
    assert(arg_names(seq![pa]) =~= seq![a]);
    assert(arg_names(seq![pa, pb]) =~= seq![a, b]);
    assert(arg_names(seq![pa, pb, pc]) =~= seq![a, b, c]);
    assert(arg_names(params) =~= seq![a, b, c, d]);
}

/// The tokens of the path `p`, segments joined by `::`.
pub fn path_tokens(p: &Vec<String>) -> (r: Vec<Tok>)
    ensures
        toks_view(r@) == path_toks(strs_view(p@)),
{
    let mut r: Vec<Tok> = Vec::new();
    let mut i: usize = 0;
    while i < p.len()
        invariant
            i <= p.len(),
            toks_view(r@) == path_toks(strs_view(p@.subrange(0, i as int))),
        decreases p.len() - i,
    {
        let ghost sp = strs_view(p@.subrange(0, i as int + 1));
        assert(sp.drop_last() =~= strs_view(p@.subrange(0, i as int)));
        if i > 0 {
            r.push(Tok::Punct(':', true));
            r.push(Tok::Punct(':', false));
        }
        r.push(Tok::Ident(p[i].clone()));
        i = i + 1;
        assert(toks_view(r@) =~= path_toks(sp));
    }
    assert(p@.subrange(0, p.len() as int) =~= p@);
    r
}

/// A name used by value: qualified through the table where it is a known structure.
fn type_tokens(t: &Tok, table: &Vec<PathEntry>) -> (r: Vec<Tok>)
    requires
        t@ is Ident,
        keys_unique(table_view(table@)),
    ensures
        toks_view(r@) == type_by_value(t@, table_view(table@)),
{
    match t {
        Tok::Ident(name) => match lookup_path(table, name) {
            Some(p) => path_tokens(&p),
            None => {
                let r = vec![copy_tok(t)];
                assert(toks_view(r@) =~= seq![t@]);
                r
            },
        },
        _ => Vec::new(),
    }
}

/// The record field that stands for parameter `a`: `&str` becomes `String`,
/// `W<&str>` becomes `W<String>`, `W<&[u8]>` becomes `W<Vec<u8>>`, a
/// borrowed structure is taken by value under its qualified path, and any
/// other shape stays as it is.
pub fn rewrite_param(a: &Vec<Tok>, table: &Vec<PathEntry>) -> (r: Vec<Tok>)
    requires
        keys_unique(table_view(table@)),
    ensures
        toks_view(r@) == rewrite_field(toks_view(a@), table_view(table@)),
{
    let ghost av = toks_view(a@);
    let ghost tv = table_view(table@);
    let n = a.len();
    if n == 4 && is_ident(&a[0]) && is_punct_tok(&a[1]) && punct_is(&a[2], '&') && is_ident(&a[3]) {
        assert(is_simple_ref(av));
        let mut r: Vec<Tok> = Vec::new();
        r.push(copy_tok(&a[0]));
        r.push(copy_tok(&a[1]));
        if ident_is(&a[3], "str") {
            r.push(Tok::Ident(String::from_str("String")));
            assert(toks_view(r@) =~= rewrite_field(av, tv));
        } else {
            let ghost front = r@;
            let mut ty = type_tokens(&a[3], table);
            r.append(&mut ty);
            assert(toks_view(r@) =~= toks_view(front) + toks_view(r@.subrange(2, r@.len() as int)));
            assert(toks_view(r@) =~= rewrite_field(av, tv));
        }
        r
    } else if n >= 6 && is_ident(&a[0]) && is_punct_tok(&a[1]) && is_ident(&a[2]) && punct_is(&a[3], '<')
        && punct_is(&a[4], '&') && is_punct_tok(&a[n - 1]) {
        assert(is_wrapped_ref(av));
        assert(!is_simple_ref(av));
        if n == 7 && ident_is(&a[5], "str") {
            let mut r: Vec<Tok> = Vec::new();
            r.push(copy_tok(&a[0]));
            r.push(copy_tok(&a[1]));
            r.push(copy_tok(&a[2]));
            r.push(copy_tok(&a[3]));
            r.push(Tok::Ident(String::from_str("String")));
            r.push(copy_tok(&a[6]));
            assert(toks_view(r@) =~= rewrite_field(av, tv));
            return r;
        }
        let bytes = match &a[5] {
            Tok::Group(g) => n == 7 && *g == String::from_str("[u8]"),
            _ => false,
        };
        if bytes {
            let mut r: Vec<Tok> = Vec::new();
            r.push(copy_tok(&a[0]));
            r.push(copy_tok(&a[1]));
            r.push(copy_tok(&a[2]));
            r.push(copy_tok(&a[3]));
            r.push(Tok::Ident(String::from_str("Vec")));
            r.push(Tok::Punct('<', true));
            r.push(Tok::Ident(String::from_str("u8")));
            r.push(Tok::Punct('>', true));
            r.push(Tok::Punct('>', true));
            assert(toks_view(r@) =~= rewrite_field(av, tv));
            return r;
        }
        let found = match &a[5] {
            Tok::Ident(name) => lookup_path(table, name),
            _ => None,
        };
        match found {
            Some(p) => {
                let mut r: Vec<Tok> = Vec::new();
                let mut i: usize = 0;
                while i < 5
                    invariant
                        i <= 5,
                        n == a@.len(),
                        n >= 6,
                        r@.len() == i,
                        forall|j: int| 0 <= j < i ==> r@[j]@ == a@[j]@,
                    decreases 5 - i,
                {
                    r.push(copy_tok(&a[i]));
                    i = i + 1;
                }
                let ghost r1 = r@;
                let mut pt = path_tokens(&p);
                let ghost r2 = pt@;
                r.append(&mut pt);
                let ghost r12 = r@;
                let mut j: usize = 6;
                while j < n
                    invariant
                        6 <= j <= n,
                        n == a@.len(),
                        r@.len() == r12.len() + (j - 6),
                        r@.subrange(0, r12.len() as int) == r12,
                        forall|k: int| 6 <= k < j ==> r@[r12.len() + k - 6]@ == a@[k]@,
                    decreases n - j,
                {
                    r.push(copy_tok(&a[j]));
                    assert(r@.subrange(0, r12.len() as int) =~= r12);
                    j = j + 1;
                }
                assert(toks_view(r1) =~= av.subrange(0, 5));
                assert(r12 =~= r1 + r2);
                assert forall|k: int| 0 <= k < r12.len() implies r@[k] == r12[k] by {
                    assert(r@.subrange(0, r12.len() as int)[k] == r@[k]);
                }
                let ghost want = toks_view(r1) + toks_view(r2) + av.subrange(6, n as int);
                assert forall|k: int| 0 <= k < r@.len() implies toks_view(r@)[k] == want[k] by {
                    if k >= r12.len() {
                        let kk = k - r12.len() + 6;
                        assert(r@[r12.len() + kk - 6]@ == a@[kk]@);
                        assert(want[k] == av[kk]);
                    } else if k >= 5 {
                        assert(r@[k] == r12[k]);
                        assert(r12[k] == r2[k - 5]);
                        assert(want[k] == toks_view(r2)[k - 5]);
                    } else {
                        assert(r@[k] == r12[k]);
                        assert(r12[k] == r1[k]);
                        assert(want[k] == toks_view(r1)[k]);
                    }
                }
                assert(toks_view(r@) =~= toks_view(r1) + toks_view(r2) + av.subrange(6, n as int));
                assert(toks_view(r@) =~= rewrite_field(av, tv));
                r
            },
            None => {
                let r = crate::tokens::copy_toks(a);
                r
            },
        }
    } else {
        assert(!is_simple_ref(av));
        assert(!is_wrapped_ref(av));
        crate::tokens::copy_toks(a)
    }
}

} // verus!

verus! {

/// The record fields and the forwarding names of a function's parameters.
pub fn invocation_fields(f: &FnDecl, table: &Vec<PathEntry>) -> (r: (Vec<Vec<Tok>>, Vec<String>))
    requires
        keys_unique(table_view(table@)),
    ensures
        toks_list_view(r.0@) == rewrite_fields(toks_list_view(f.params@), table_view(table@)),
        strs_view(r.1@) == arg_names(toks_list_view(f.params@)),
{
    let ghost pv = toks_list_view(f.params@);
    let ghost tv = table_view(table@);
    let mut fields: Vec<Vec<Tok>> = Vec::new();
    let mut args: Vec<String> = Vec::new();
    let mut i: usize = 0;
    while i < f.params.len()
        invariant
            i <= f.params.len(),
            pv == toks_list_view(f.params@),
            tv == table_view(table@),
            keys_unique(tv),
            fields@.len() == i,
            forall|j: int| 0 <= j < i ==> toks_view(#[trigger] fields@[j]@) == rewrite_field(pv[j], tv),
            strs_view(args@) == arg_names(pv.subrange(0, i as int)),
        decreases f.params.len() - i,
    {
        let p = &f.params[i];
        fields.push(rewrite_param(p, table));
        let ghost prev = args@;
        assert(pv.subrange(0, i as int + 1).drop_last() =~= pv.subrange(0, i as int));
        assert(pv.subrange(0, i as int + 1).last() == toks_view(p@));
        if p.len() > 0 {
            match &p[0] {
                Tok::Ident(name) => {
                    args.push(name.clone());
                },
                _ => {},
            }
        }
        assert(strs_view(args@) =~= arg_names(pv.subrange(0, i as int + 1)));
        i = i + 1;
    }
    assert(pv.subrange(0, i as int) =~= pv);
    assert(toks_list_view(fields@) =~= rewrite_fields(pv, tv));
    (fields, args)
}

} // verus!
