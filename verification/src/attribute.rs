//! The arguments of an attribute: pairs of a key and a literal, as in
//! `name = "value", other = "value"`.

use vstd::prelude::*;
use crate::lease::str_eq;

verus! {

/// A token of the argument list.
#[derive(Debug)]
pub enum Token {
    Ident(String),
    Punct(char),
    Literal(String),
    /// A group of tokens in brackets, which the argument list has no use for.
    Group,
}

/// A token, as contracts speak of it.
pub enum TokenView {
    Ident(Seq<char>),
    Punct(char),
    Literal(Seq<char>),
    Group,
}

impl View for Token {
    type V = TokenView;

    open spec fn view(&self) -> TokenView {
        match self {
            Token::Ident(name) => TokenView::Ident(name@),
            Token::Punct(c) => TokenView::Punct(*c),
            Token::Literal(text) => TokenView::Literal(text@),
            Token::Group => TokenView::Group,
        }
    }
}

/// Why an argument list is none. Each reason comes with the place of the
/// token at fault; the place after the last token stands for the end of the
/// list.
#[derive(Clone, Copy, Debug, PartialEq, Eq, Structural)]
pub enum KvError {
    /// Something stands where a key or a comma has to stand.
    ExpectedKey(usize),
    /// A key is not followed by `=`.
    ExpectedEquals(usize),
    /// A `=` is not followed by a literal.
    ExpectedValue(usize),
    /// A key occurs a second time.
    DuplicateKey(usize),
}

/// Each token by its view.
pub open spec fn token_views(tokens: Seq<Token>) -> Seq<TokenView> {
    Seq::new(tokens.len(), |i: int| tokens[i]@)
}

/// Each pair by its views.
pub open spec fn pair_views(pairs: Seq<(String, String)>) -> Seq<(Seq<char>, Seq<char>)> {
    Seq::new(pairs.len(), |i: int| (pairs[i].0@, pairs[i].1@))
}

/// Whether a key is among the pairs.
pub open spec fn has_key(pairs: Seq<(Seq<char>, Seq<char>)>, key: Seq<char>) -> bool {
    exists|i: int| 0 <= i < pairs.len() && pairs[i].0 == key
}

/// The pairs that the tokens from place `from` on spell out, after those
/// seen before. Commas may stand anywhere between pairs, and any number of
/// them. A pair is a key, `=`, and a literal. No key may occur twice.
pub open spec fn pairs_from(
    tokens: Seq<TokenView>,
    from: int,
    seen: Seq<(Seq<char>, Seq<char>)>,
) -> Result<Seq<(Seq<char>, Seq<char>)>, KvError>
    decreases tokens.len() - from,
{
    if from < 0 || from >= tokens.len() {
        Ok(seen)
    } else {
        match tokens[from] {
            TokenView::Punct(c) => if c == ',' {
                pairs_from(tokens, from + 1, seen)
            } else {
                Err(KvError::ExpectedKey(from as usize))
            },
            TokenView::Ident(key) => if from + 1 >= tokens.len() {
                Err(KvError::ExpectedEquals(tokens.len() as usize))
            } else if tokens[from + 1] != TokenView::Punct('=') {
                Err(KvError::ExpectedEquals((from + 1) as usize))
            } else if from + 2 >= tokens.len() {
                Err(KvError::ExpectedValue(tokens.len() as usize))
            } else {
                match tokens[from + 2] {
                    TokenView::Literal(value) => if has_key(seen, key) {
                        Err(KvError::DuplicateKey(from as usize))
                    } else {
                        pairs_from(tokens, from + 3, seen.push((key, value)))
                    },
                    _ => Err(KvError::ExpectedValue((from + 2) as usize)),
                }
            },
            _ => Err(KvError::ExpectedKey(from as usize)),
        }
    }
}

fn key_seen(pairs: &Vec<(String, String)>, key: &str) -> (r: bool)
    ensures
        r == has_key(pair_views(pairs@), key@),
{
    let mut i: usize = 0;
    while i < pairs.len()
        invariant
            i <= pairs@.len(),
            forall|j: int| 0 <= j < i ==> pair_views(pairs@)[j].0 != key@,
        decreases pairs@.len() - i,
    {
        if str_eq(pairs[i].0.as_str(), key) {
            assert(pair_views(pairs@)[i as int].0 == key@);
            return true;
        }
        i += 1;
    }
    false
}

/// Reads the pairs of an argument list, in the order in which they stand.
pub fn parse_kv_pairs(tokens: &Vec<Token>) -> (r: Result<Vec<(String, String)>, KvError>)
    ensures
        match pairs_from(token_views(tokens@), 0, Seq::empty()) {
            Ok(pairs) => r is Ok && pair_views(r->Ok_0@) == pairs,
            Err(e) => r is Err && r->Err_0 == e,
        },
{
    let mut kv: Vec<(String, String)> = Vec::new();
    let mut i: usize = 0;
    let ghost all = token_views(tokens@);
    assert(pair_views(kv@) =~= Seq::<(Seq<char>, Seq<char>)>::empty());
    while i < tokens.len()
        invariant
            i <= tokens@.len(),
            all == token_views(tokens@),
            pairs_from(all, 0, Seq::empty()) == pairs_from(all, i as int, pair_views(kv@)),
        decreases tokens@.len() - i,
    {
        assert(all[i as int] == tokens@[i as int]@);
        match &tokens[i] {
            Token::Punct(c) => {
                if *c == ',' {
                    i += 1;
                } else {
                    return Err(KvError::ExpectedKey(i));
                }
            },
            Token::Ident(key) => {
                if tokens.len() - i < 2 {
                    return Err(KvError::ExpectedEquals(tokens.len()));
                }
                assert(all[i + 1] == tokens@[i + 1]@);
                match &tokens[i + 1] {
                    Token::Punct(c) => {
                        if *c != '=' {
                            return Err(KvError::ExpectedEquals(i + 1));
                        }
                    },
                    _ => {
                        return Err(KvError::ExpectedEquals(i + 1));
                    },
                }
                if tokens.len() - i < 3 {
                    return Err(KvError::ExpectedValue(tokens.len()));
                }
                assert(all[i + 2] == tokens@[i + 2]@);
                match &tokens[i + 2] {
                    Token::Literal(value) => {
                        if key_seen(&kv, key.as_str()) {
                            return Err(KvError::DuplicateKey(i));
                        }
                        let ghost before = pair_views(kv@);
                        kv.push((key.clone(), value.clone()));
                        assert(pair_views(kv@) =~= before.push((key@, value@)));
                        i += 3;
                    },
                    _ => {
                        return Err(KvError::ExpectedValue(i + 2));
                    },
                }
            },
            _ => {
                return Err(KvError::ExpectedKey(i));
            },
        }
    }
    Ok(kv)
}

} // verus!
