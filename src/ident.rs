use vstd::prelude::*;

use crate::syntax::Tok;

verus! {

/// The words that `syn` refuses to read as an identifier.
pub open spec fn reserved_word(s: Seq<char>) -> bool {
    s == "_"@ || s == "abstract"@ || s == "as"@ || s == "become"@ || s == "box"@
        || s == "break"@ || s == "const"@ || s == "continue"@ || s == "crate"@ || s == "do"@
        || s == "else"@ || s == "enum"@ || s == "extern"@ || s == "false"@ || s == "final"@
        || s == "fn"@ || s == "for"@ || s == "if"@ || s == "impl"@ || s == "in"@
        || s == "let"@ || s == "loop"@ || s == "macro"@ || s == "match"@ || s == "mod"@
        || s == "move"@ || s == "mut"@ || s == "override"@ || s == "priv"@ || s == "pub"@
        || s == "ref"@ || s == "return"@ || s == "Self"@ || s == "self"@ || s == "static"@
        || s == "struct"@ || s == "super"@ || s == "trait"@ || s == "true"@ || s == "type"@
        || s == "typeof"@ || s == "unsafe"@ || s == "unsized"@ || s == "use"@
        || s == "virtual"@ || s == "where"@ || s == "while"@ || s == "yield"@
}

/// The token is an identifier that may name a type.
pub open spec fn plain_ident(t: Tok) -> bool {
    match t {
        Tok::Ident(s) => !reserved_word(s@),
        _ => false,
    }
}

/// The name of the type inside `Wrapper<Type>`, if the tokens spell exactly
/// that shape: identifier, `<`, identifier, `>`.
pub open spec fn wrapped_name(toks: Seq<Tok>) -> Option<Seq<char>> {
    if toks.len() == 4 && plain_ident(toks[0]) && toks[1] == Tok::Punct('<') && plain_ident(
        toks[2],
    ) && toks[3] == Tok::Punct('>') {
        match toks[2] {
            Tok::Ident(s) => Some(s@),
            _ => None,
        }
    } else {
        None
    }
}

fn is_word(name: &String, w: &str) -> (r: bool)
    ensures
        r == (name@ == w@),
{
    *name == w.to_owned()
}

/// Whether `syn` would refuse the identifier `name`.
pub fn is_reserved_word(name: &String) -> (r: bool)
    ensures
        r == reserved_word(name@),
{
    is_word(name, "_") || is_word(name, "abstract") || is_word(name, "as") || is_word(name, "become")
        || is_word(name, "box") || is_word(name, "break") || is_word(name, "const") || is_word(
        name,
        "continue",
    ) || is_word(name, "crate") || is_word(name, "do") || is_word(name, "else") || is_word(
        name,
        "enum",
    ) || is_word(name, "extern") || is_word(name, "false") || is_word(name, "final") || is_word(
        name,
        "fn",
    ) || is_word(name, "for") || is_word(name, "if") || is_word(name, "impl") || is_word(name, "in")
        || is_word(name, "let") || is_word(name, "loop") || is_word(name, "macro") || is_word(
        name,
        "match",
    ) || is_word(name, "mod") || is_word(name, "move") || is_word(name, "mut") || is_word(
        name,
        "override",
    ) || is_word(name, "priv") || is_word(name, "pub") || is_word(name, "ref") || is_word(
        name,
        "return",
    ) || is_word(name, "Self") || is_word(name, "self") || is_word(name, "static") || is_word(
        name,
        "struct",
    ) || is_word(name, "super") || is_word(name, "trait") || is_word(name, "true") || is_word(
        name,
        "type",
    ) || is_word(name, "typeof") || is_word(name, "unsafe") || is_word(name, "unsized") || is_word(
        name,
        "use",
    ) || is_word(name, "virtual") || is_word(name, "where") || is_word(name, "while") || is_word(
        name,
        "yield",
    )
}

fn ident_at(toks: &Vec<Tok>, i: usize) -> (r: Option<&String>)
    requires
        i < toks@.len(),
    ensures
        plain_ident(toks@[i as int]) <==> r.is_some(),
        r.is_some() ==> toks@[i as int] == Tok::Ident(*r.unwrap()),
{
    match &toks[i] {
        Tok::Ident(s) => {
            if is_reserved_word(s) {
                None
            } else {
                Some(s)
            }
        },
        _ => None,
    }
}

fn punct_at(toks: &Vec<Tok>, i: usize, c: char) -> (r: bool)
    requires
        i < toks@.len(),
    ensures
        r == (toks@[i as int] == Tok::Punct(c)),
{
    match &toks[i] {
        Tok::Punct(p) => *p == c,
        _ => false,
    }
}

/// Reads a type expression of the shape `Wrapper<Type>` and returns `Type`;
/// `None` for any other shape (no arguments, several, nested generics, a
/// path, a keyword in place of a name).
pub fn parse_wrapped(toks: &Vec<Tok>) -> (r: Option<String>)
    ensures
        r.is_some() <==> wrapped_name(toks@).is_some(),
        r.is_some() ==> r.unwrap()@ == wrapped_name(toks@).unwrap(),
{
    if toks.len() != 4 {
        return None;
    }
    let wrapper = ident_at(toks, 0);
    let wrapped = ident_at(toks, 2);
    if wrapper.is_none() || !punct_at(toks, 1, '<') || wrapped.is_none() || !punct_at(
        toks,
        3,
        '>',
    ) {
        return None;
    }
    Some(wrapped.unwrap().clone())
}

} // verus!
