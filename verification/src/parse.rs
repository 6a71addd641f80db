//! Annotation-payload parsing: the accepted shapes of one annotation's
//! token list, and selection of the annotations in the recognized `patch`
//! namespace.

use vstd::prelude::*;
use crate::schema::FlatToken;
use crate::schema::FlatTokenV;
use crate::schema::RawAttr;
use crate::schema::RawAttrV;

verus! {

/// One parsed annotation payload.
///
/// `= "<path>"` gives `Target`; `(<word>)` gives `Word`; `(<word> = <path>)`
/// gives `KeyPath`.  A `Target`'s path text is carried as written and
/// validated separately.
#[derive(Debug, Clone, PartialEq, Eq)]
pub enum AttrForm {
    Target(String),
    Word(String),
    KeyPath(String, String),
}

/// Spec-level value of an [`AttrForm`].
pub enum AttrFormV {
    Target(Seq<char>),
    Word(Seq<char>),
    KeyPath(Seq<char>, Seq<char>),
}

impl View for AttrForm {
    type V = AttrFormV;

    open spec fn view(&self) -> AttrFormV {
        match self {
            AttrForm::Target(p) => AttrFormV::Target(p@),
            AttrForm::Word(w) => AttrFormV::Word(w@),
            AttrForm::KeyPath(k, p) => AttrFormV::KeyPath(k@, p@),
        }
    }
}

impl DeepView for AttrForm {
    type V = AttrFormV;

    open spec fn deep_view(&self) -> AttrFormV {
        self.view()
    }
}

/// Whether tokens `i` to `e` (exclusive) form a path reference: identifier
/// tokens separated by `::`.
pub open spec fn tok_path_ok(ts: Seq<FlatTokenV>, i: int, e: int) -> bool
    decreases e - i,
{
    if 0 <= i && i < e && e <= ts.len() && ts[i] is Word {
        if i + 1 == e {
            true
        } else if i + 2 < e && ts[i + 1] == FlatTokenV::Sym(':') && ts[i + 2] == FlatTokenV::Sym(
            ':',
        ) {
            tok_path_ok(ts, i + 3, e)
        } else {
            false
        }
    } else {
        false
    }
}

/// The text of the path reference formed by tokens `i` to `e`, its segments
/// joined with `::`.
pub open spec fn tok_path_text(ts: Seq<FlatTokenV>, i: int, e: int) -> Seq<char>
    decreases e - i,
{
    if 0 <= i && i < e && e <= ts.len() && ts[i] is Word {
        if i + 2 < e && ts[i + 1] == FlatTokenV::Sym(':') && ts[i + 2] == FlatTokenV::Sym(':') {
            ts[i]->Word_0 + "::"@ + tok_path_text(ts, i + 3, e)
        } else {
            ts[i]->Word_0
        }
    } else {
        Seq::empty()
    }
}

/// The payload shape of one annotation, or `None` for a malformed one.
pub open spec fn parse_attr_spec(ts: Seq<FlatTokenV>) -> Option<AttrFormV> {
    if ts.len() == 2 && ts[0] == FlatTokenV::Sym('=') && ts[1] is LitStr {
        Some(AttrFormV::Target(ts[1]->LitStr_0))
    } else if ts.len() >= 3 && ts[0] == FlatTokenV::Sym('(') && ts[ts.len() - 1]
        == FlatTokenV::Sym(')') {
        if ts.len() == 3 && ts[1] is Word {
            Some(AttrFormV::Word(ts[1]->Word_0))
        } else if ts.len() >= 5 && ts[1] is Word && ts[2] == FlatTokenV::Sym('=') && tok_path_ok(
            ts,
            3,
            ts.len() - 1,
        ) {
            Some(AttrFormV::KeyPath(ts[1]->Word_0, tok_path_text(ts, 3, ts.len() - 1)))
        } else {
            None
        }
    } else {
        None
    }
}

/// Whether one token is the given punctuation character.
fn is_sym(t: &FlatToken, c: char) -> (r: bool)
    ensures
        r == (t@ == FlatTokenV::Sym(c)),
{
    if let FlatToken::Sym(x) = t {
        *x == c
    } else {
        false
    }
}

/// Parse the path reference formed by tokens `i` to `e` of `ts`.
fn tok_path_parse(ts: &Vec<FlatToken>, i: usize, e: usize) -> (r: Option<String>)
    requires
        e <= ts@.len(),
    ensures
        (r is Some) == tok_path_ok(ts.deep_view(), i as int, e as int),
        r matches Some(p) ==> p@ == tok_path_text(ts.deep_view(), i as int, e as int),
    decreases e - i,
{
    if i < e {
        if let FlatToken::Word(w) = &ts[i] {
            if i + 1 == e {
                return Some(w.clone());
            }
            if e - i > 2 && is_sym(&ts[i + 1], ':') && is_sym(&ts[i + 2], ':') {
                match tok_path_parse(ts, i + 3, e) {
                    Some(rest) => {
                        let mut s = w.clone();
                        s.append("::");
                        s.append(rest.as_str());
                        proof {
                            assert(s@ =~= tok_path_text(ts.deep_view(), i as int, e as int));
                        }
                        return Some(s);
                    },
                    None => {
                        return None;
                    },
                }
            }
            return None;
        }
        return None;
    }
    None
}

/// Parse one annotation payload into its shape, or report it malformed.
pub fn parse_attr(ts: &Vec<FlatToken>) -> (r: Option<AttrForm>)
    ensures
        r.deep_view() == parse_attr_spec(ts.deep_view()),
{
    let n = ts.len();
    if n == 2 && is_sym(&ts[0], '=') {
        if let FlatToken::LitStr(p) = &ts[1] {
            return Some(AttrForm::Target(p.clone()));
        }
        return None;
    }
    if n >= 3 && is_sym(&ts[0], '(') && is_sym(&ts[n - 1], ')') {
        if n == 3 {
            if let FlatToken::Word(w) = &ts[1] {
                return Some(AttrForm::Word(w.clone()));
            }
            return None;
        }
        if n >= 5 && is_sym(&ts[2], '=') {
            if let FlatToken::Word(w) = &ts[1] {
                match tok_path_parse(ts, 3, n - 1) {
                    Some(p) => {
                        return Some(AttrForm::KeyPath(w.clone(), p));
                    },
                    None => {
                        return None;
                    },
                }
            }
        }
        return None;
    }
    None
}

/// Whether an attribute is in the recognized `patch` namespace: its path's
/// first segment is `patch`.
pub open spec fn is_patch_attr(a: RawAttrV) -> bool {
    a.path.len() > 0 && a.path[0] == "patch"@
}

/// The payload token lists of the `patch`-namespace attributes, in order.
pub open spec fn patch_tokens_of(attrs: Seq<RawAttrV>) -> Seq<Seq<FlatTokenV>>
    decreases attrs.len(),
{
    if attrs.len() == 0 {
        Seq::empty()
    } else {
        let rest = patch_tokens_of(attrs.drop_last());
        if is_patch_attr(attrs.last()) {
            rest.push(attrs.last().tokens)
        } else {
            rest
        }
    }
}

/// Decide whether an attribute is in the `patch` namespace.
pub fn is_patch_attr_exec(a: &RawAttr) -> (r: bool)
    ensures
        r == is_patch_attr(a@),
{
    if a.path.len() > 0 {
        crate::text::string_eq_str(&a.path[0], "patch")
    } else {
        false
    }
}

/// Keep the payload token lists of the `patch`-namespace attributes, in
/// order.
pub fn get_patch_attrs(attrs: Vec<RawAttr>) -> (r: Vec<Vec<FlatToken>>)
    ensures
        r.deep_view() == patch_tokens_of(attrs.deep_view()),
{
    let ghost orig = attrs;
    let ghost all = attrs.deep_view();
    let n_total = attrs.len();
    let mut rest = attrs;
    let mut r: Vec<Vec<FlatToken>> = Vec::new();
    let mut k: usize = 0;
    while rest.len() > 0
        invariant
            n_total == all.len(),
            k + rest@.len() == all.len(),
            all == orig.deep_view(),
            orig@.len() == all.len(),
            rest@ =~= orig@.subrange(k as int, orig@.len() as int),
            r.deep_view() =~= patch_tokens_of(all.subrange(0, k as int)),
        decreases rest@.len(),
    {
        let a = rest.remove(0);
        assert(a == orig@[k as int]);
        assert(a@ == all[k as int]);
        if is_patch_attr_exec(&a) {
            let ghost prev = r;
            let ghost toks = a.tokens;
            r.push(a.tokens);
            proof {
                crate::util::lemma_deep_view_push(prev, r, toks);
            }
        }
        proof {
            assert(all.subrange(0, k as int + 1).drop_last() =~= all.subrange(0, k as int));
            assert(all.subrange(0, k as int + 1).last() == all[k as int]);
            assert(r.deep_view() =~= patch_tokens_of(all.subrange(0, k as int + 1)));
        }
        k += 1;
        proof {
            assert(rest@ =~= orig@.subrange(k as int, orig@.len() as int));
        }
    }
    proof {
        assert(all.subrange(0, k as int) =~= all);
    }
    r
}

} // verus!
