//! The `.method` declaration line and the method signature grammar.
use crate::err::{Failure, ParserError, ParserResult, result_view};
use crate::smali_class::{SmaliAccessModifier, SmaliMethod, SmaliType, SpecMethod, SpecType, types_view};
use crate::text::{
    chars_of, find_char, has_prefix, index_of, is_word, split_tokens, starts_with,
    string_of_range, tokens, vecs_view,
};
use crate::util::{
    access_keyword, access_of_token, is_comment, is_comment_token, is_modifier_token,
    is_modifier_word, is_reference_form, parse_type, parse_type_range, primitive_code,
};
use vstd::prelude::*;

verus! {

/// The end of the type token that starts at `i`: any number of `[`, then a
/// reference `L...;` or a single character.
pub open spec fn type_token_end(s: Seq<char>, i: int) -> Option<int>
    decreases s.len() - i,
{
    if i < 0 || i >= s.len() {
        None
    } else if s[i] == '[' {
        type_token_end(s, i + 1)
    } else if s[i] == 'L' {
        match index_of(s, ';', i) {
            Some(j) => Some(j + 1),
            None => None,
        }
    } else {
        Some(i + 1)
    }
}

/// The type tokens of the parameter list that starts at `i`, up to the
/// closing `)`, and the index just after it.
pub open spec fn param_tokens(s: Seq<char>, i: int) -> Option<(Seq<Seq<char>>, int)>
    decreases s.len() - i,
{
    if i < 0 || i >= s.len() {
        None
    } else if s[i] == ')' {
        Some((Seq::empty(), i + 1))
    } else {
        match type_token_end(s, i) {
            None => None,
            Some(j) => if j <= i || j > s.len() {
                None
            } else {
                match param_tokens(s, j) {
                    Some((ts, e)) => Some((seq![s.subrange(i, j)] + ts, e)),
                    None => None,
                }
            },
        }
    }
}

/// The types of the tokens `ts`, if each of them is a valid type.
pub open spec fn parse_all(ts: Seq<Seq<char>>) -> Option<Seq<SpecType>>
    decreases ts.len(),
{
    if ts.len() == 0 {
        Some(Seq::empty())
    } else {
        match (parse_type(ts[0]), parse_all(ts.drop_first())) {
            (Ok(t), Some(rest)) => Some(seq![t] + rest),
            _ => None,
        }
    }
}

/// The parameter types that start at `i`, and the index after the `)`.
pub open spec fn param_types(s: Seq<char>, i: int) -> Option<(Seq<SpecType>, int)> {
    match param_tokens(s, i) {
        Some((ts, e)) => match parse_all(ts) {
            Some(ps) => Some((ps, e)),
            None => None,
        },
        None => None,
    }
}

/// The name, parameter types and return type of a signature
/// `name(params)return`; the name, before the first `(`, must not be empty.
pub open spec fn method_signature(p: Seq<char>) -> Option<(Seq<char>, Seq<SpecType>, SpecType)> {
    match index_of(p, '(', 0) {
        None => None,
        Some(k) => if k == 0 {
            None
        } else {
            match param_types(p, k + 1) {
                None => None,
                Some((ps, e)) => match parse_type(p.subrange(e, p.len() as int)) {
                    Ok(r) => Some((p.subrange(0, k), ps, r)),
                    Err(_) => None,
                },
            }
        },
    }
}

/// Whether `t` is one well-formed type token: any number of `[`, then a
/// primitive code or a reference `L...;`.
pub open spec fn is_type_token(t: Seq<char>) -> bool
    decreases t.len(),
{
    if t.len() > 0 && t[0] == '[' {
        is_type_token(t.drop_first())
    } else {
        (t.len() == 1 && primitive_code(t[0]) is Some) || is_reference_form(t)
    }
}

proof fn lemma_index_of_first(s: Seq<char>, c: char, j: int, k: int)
    requires
        0 <= j <= k < s.len(),
        s[k] == c,
        forall|m: int| j <= m < k ==> s[m] != c,
    ensures
        index_of(s, c, j) == Some(k),
    decreases k - j,
{
    if j < k {
        lemma_index_of_first(s, c, j + 1, k);
    }
}

proof fn lemma_token_end(s: Seq<char>, i: int, t: Seq<char>)
    requires
        is_type_token(t),
        0 <= i,
        i + t.len() <= s.len(),
        s.subrange(i, i + t.len()) == t,
    ensures
        type_token_end(s, i) == Some(i + t.len()),
    decreases t.len(),
{
    assert(s[i] == s.subrange(i, i + t.len())[0]);
    if t[0] == '[' {
        assert(s.subrange(i + 1, i + t.len()) =~= t.drop_first());
        lemma_token_end(s, i + 1, t.drop_first());
    } else if t[0] == 'L' {
        assert forall|m: int| i <= m < i + t.len() - 1 implies s[m] != ';' by {
            assert(s[m] == s.subrange(i, i + t.len())[m - i]);
        }
        assert(s[i + t.len() - 1] == s.subrange(i, i + t.len())[t.len() - 1]);
        lemma_index_of_first(s, ';', i, i + t.len() - 1);
    }
}

proof fn lemma_type_token_parses(t: Seq<char>)
    requires
        is_type_token(t),
    ensures
        parse_type(t) is Ok,
    decreases t.len(),
{
    if t[0] == '[' {
        lemma_type_token_parses(t.drop_first());
    }
}

proof fn lemma_parse_all_ok(ts: Seq<Seq<char>>)
    requires
        forall|k: int| 0 <= k < ts.len() ==> is_type_token(#[trigger] ts[k]),
    ensures
        parse_all(ts) is Some,
        parse_all(ts)->Some_0.len() == ts.len(),
    decreases ts.len(),
{
    if ts.len() > 0 {
        lemma_type_token_parses(ts[0]);
        assert forall|k: int| 0 <= k < ts.drop_first().len() implies is_type_token(
            #[trigger] ts.drop_first()[k],
        ) by {
            assert(ts.drop_first()[k] == ts[k + 1]);
        }
        lemma_parse_all_ok(ts.drop_first());
    }
}

proof fn lemma_param_tokens(s: Seq<char>, i: int, ts: Seq<Seq<char>>)
    requires
        forall|k: int| 0 <= k < ts.len() ==> is_type_token(#[trigger] ts[k]),
        0 <= i,
        i + ts.flatten().len() + 1 <= s.len(),
        s.subrange(i, i + ts.flatten().len()) == ts.flatten(),
        s[i + ts.flatten().len()] == ')',
    ensures
        param_tokens(s, i) == Some((ts, i + ts.flatten().len() + 1)),
    decreases ts.len(),
{
    if ts.len() == 0 {
        assert(ts =~= Seq::<Seq<char>>::empty());
    } else {
        let t = ts[0];
        let rest = ts.drop_first();
        let f = ts.flatten();
        assert(f == t + rest.flatten());
        assert(is_type_token(t));
        assert(s.subrange(i, i + t.len()) =~= t) by {
            assert(s.subrange(i, i + t.len()) =~= s.subrange(i, i + f.len()).subrange(0, t.len() as int));
            assert(f.subrange(0, t.len() as int) =~= t);
        }
        assert(s[i] == t[0]) by {
            assert(s.subrange(i, i + t.len())[0] == s[i]);
        }
        lemma_token_end(s, i, t);
        let j = i + t.len();
        assert(s.subrange(j, j + rest.flatten().len()) =~= rest.flatten()) by {
            assert(s.subrange(j, j + rest.flatten().len()) =~= s.subrange(i, i + f.len()).subrange(
                t.len() as int,
                f.len() as int,
            ));
            assert(f.subrange(t.len() as int, f.len() as int) =~= rest.flatten());
        }
        assert forall|k: int| 0 <= k < rest.len() implies is_type_token(#[trigger] rest[k]) by {
            assert(rest[k] == ts[k + 1]);
        }
        lemma_param_tokens(s, j, rest);
        assert(seq![s.subrange(i, j)] + rest =~= ts);
    }
}

/// A signature built from a non-empty name without `(`, the concatenation
/// of `k` well-formed type tokens between `(` and `)`, and a well-formed
/// return token parses, with exactly `k` parameter types: an array of
/// references counts as one parameter whatever its depth.
pub proof fn lemma_param_count(name: Seq<char>, params: Seq<Seq<char>>, ret: Seq<char>)
    requires
        name.len() > 0,
        forall|i: int| 0 <= i < name.len() ==> name[i] != '(',
        forall|k: int| 0 <= k < params.len() ==> is_type_token(#[trigger] params[k]),
        is_type_token(ret),
    ensures
        method_signature(name + seq!['('] + params.flatten() + seq![')'] + ret) is Some,
        method_signature(name + seq!['('] + params.flatten() + seq![')'] + ret)->Some_0.1.len()
            == params.len(),
{
    let f = params.flatten();
    let p = name + seq!['('] + f + seq![')'] + ret;
    let n = name.len() as int;
    assert forall|m: int| 0 <= m < n implies p[m] != '(' by {
        assert(p[m] == name[m]);
    }
    assert(p[n] == '(');
    lemma_index_of_first(p, '(', 0, n);
    assert(p.subrange(n + 1, n + 1 + f.len()) =~= f);
    assert(p[n + 1 + f.len()] == ')');
    lemma_param_tokens(p, n + 1, params);
    lemma_parse_all_ok(params);
    let e = n + 1 + f.len() + 1;
    assert(p.subrange(e, p.len() as int) =~= ret);
    lemma_type_token_parses(ret);
}

fn token_end(s: &Vec<char>, i: usize) -> (r: Option<usize>)
    ensures
        match r {
            Some(j) => type_token_end(s@, i as int) == Some(j as int) && i < j <= s@.len(),
            None => type_token_end(s@, i as int) is None,
        },
    decreases s.len() - i,
{
    if i >= s.len() {
        None
    } else if s[i] == '[' {
        token_end(s, i + 1)
    } else if s[i] == 'L' {
        match find_char(s, ';', i) {
            Some(j) => Some(j + 1),
            None => None,
        }
    } else {
        Some(i + 1)
    }
}

fn parse_params(s: &Vec<char>, i: usize) -> (r: Option<(Vec<SmaliType>, usize)>)
    ensures
        match r {
            Some((v, e)) => param_types(s@, i as int) == Some((types_view(v@), e as int)) && e
                <= s@.len(),
            None => param_types(s@, i as int) is None,
        },
    decreases s.len() - i,
{
    if i >= s.len() {
        return None;
    }
    if s[i] == ')' {
        let v: Vec<SmaliType> = Vec::new();
        assert(types_view(v@) =~= Seq::empty());
        return Some((v, i + 1));
    }
    let j = match token_end(s, i) {
        Some(j) => j,
        None => return None,
    };
    let ghost tok = s@.subrange(i as int, j as int);
    let first = parse_type_range(s, i, j);
    let rest = parse_params(s, j);
    proof {
        if let Some((ts, e)) = param_tokens(s@, j as int) {
            let all = seq![tok] + ts;
            assert(all[0] == tok);
            assert(all.drop_first() =~= ts);
        }
    }
    match (first, rest) {
        (Ok(t), Some((mut v, e))) => {
            let ghost tail = v@;
            v.insert(0, t);
            assert(types_view(v@) =~= seq![t@] + types_view(tail));
            Some((v, e))
        },
        _ => None,
    }
}

/// Parses the parameter list of a signature, from just after its `(` up to
/// and including the `)`, and returns the types with the text after the
/// `)`. A `[` prefix wraps the following type in one array layer each, and a
/// reference runs from `L` to the next `;`.
pub fn parse_type_stream(stream: &str) -> (r: ParserResult<(Vec<SmaliType>, String)>)
    ensures
        match r {
            Ok((v, rest)) => param_types(stream@, 0) is Some && types_view(v@) == param_types(
                stream@,
                0,
            )->Some_0.0 && rest@ == stream@.subrange(
                param_types(stream@, 0)->Some_0.1,
                stream@.len() as int,
            ),
            Err(e) => param_types(stream@, 0) is None && e@ == Failure::InvalidMethod,
        },
{
    let cs = chars_of(stream);
    match parse_params(&cs, 0) {
        Some((v, e)) => Ok((v, string_of_range(&cs, e, cs.len()))),
        None => Err(ParserError::InvalidMethod()),
    }
}

fn parse_signature(p: &Vec<char>) -> (r: Option<(String, Vec<SmaliType>, SmaliType)>)
    ensures
        match r {
            Some((n, v, t)) => method_signature(p@) == Some((n@, types_view(v@), t@)),
            None => method_signature(p@) is None,
        },
{
    let n = p.len();
    let k = match find_char(p, '(', 0) {
        Some(k) => k,
        None => return None,
    };
    if k == 0 {
        return None;
    }
    let (params, e) = match parse_params(p, k + 1) {
        Some(x) => x,
        None => return None,
    };
    match parse_type_range(p, e, n) {
        Ok(ret) => Some((string_of_range(p, 0, k), params, ret)),
        Err(_) => None,
    }
}

/// Splits a signature `name(params)return` into the name, before the first
/// `(` and not empty, the parameter types and the return type.
pub fn parse_method(token: &str) -> (r: ParserResult<(String, Vec<SmaliType>, SmaliType)>)
    ensures
        match r {
            Ok((n, v, t)) => method_signature(token@) == Some((n@, types_view(v@), t@)),
            Err(e) => method_signature(token@) is None && e@ == Failure::InvalidMethod,
        },
{
    match parse_signature(&chars_of(token)) {
        Some(x) => Ok(x),
        None => Err(ParserError::InvalidMethod()),
    }
}

/// The method that a payload token declares, with the flags gathered from
/// the keywords before it.
pub open spec fn method_payload(
    t: Seq<char>,
    is_static: bool,
    is_final: bool,
    access: SmaliAccessModifier,
) -> Result<SpecMethod, Failure> {
    match method_signature(t) {
        Some((name, parameter_types, return_type)) => Ok(
            SpecMethod { name, parameter_types, return_type, access, is_static, is_final },
        ),
        None => Err(Failure::InvalidMethod),
    }
}

/// Scans the tokens of a `.method` line from `i` on, with the flags seen so far.
pub open spec fn method_scan(
    ts: Seq<Seq<char>>,
    i: nat,
    is_static: bool,
    is_final: bool,
    access: SmaliAccessModifier,
) -> Result<SpecMethod, Failure>
    decreases ts.len() - i,
{
    if i >= ts.len() || is_comment(ts[i as int]) {
        Err(Failure::InvalidMethod)
    } else if ts[i as int] == "static"@ {
        method_scan(ts, i + 1, true, is_final, access)
    } else if ts[i as int] == "final"@ {
        method_scan(ts, i + 1, is_static, true, access)
    } else if access_keyword(ts[i as int]) is Some {
        method_scan(ts, i + 1, is_static, is_final, access_keyword(ts[i as int])->Some_0)
    } else if has_prefix(ts[i as int], ".method"@) || is_modifier_word(ts[i as int]) {
        method_scan(ts, i + 1, is_static, is_final, access)
    } else {
        method_payload(ts[i as int], is_static, is_final, access)
    }
}

/// The method that a `.method` line declares.
pub open spec fn method_line(line: Seq<char>) -> Result<SpecMethod, Failure> {
    method_scan(tokens(line), 0, false, false, SmaliAccessModifier::Package)
}

/// Parses a `.method` line: `static`, `final` and a visibility keyword set
/// the flags, other modifiers are skipped, and the first other token is the
/// signature `name(params)return`. A line without one, or whose signature
/// is malformed, is an `InvalidMethod` error.
pub fn method_from_chars(cs: &Vec<char>) -> (r: ParserResult<SmaliMethod>)
    ensures
        result_view(r) == method_line(cs@),
{
    let toks = split_tokens(cs);
    let mut is_static = false;
    let mut is_final = false;
    let mut access = SmaliAccessModifier::Package;
    let mut i: usize = 0;
    while i < toks.len()
        invariant
            i <= toks@.len(),
            vecs_view(toks@) == tokens(cs@),
            method_scan(tokens(cs@), i as nat, is_static, is_final, access) == method_line(
                cs@,
            ),
        decreases toks.len() - i,
    {
        let t = &toks[i];
        assert(tokens(cs@)[i as int] == t@);
        if is_comment_token(t) {
            return Err(ParserError::InvalidMethod());
        }
        if is_word(t, "static") {
            is_static = true;
        } else if is_word(t, "final") {
            is_final = true;
        } else if let Some(a) = access_of_token(t) {
            access = a;
        } else if starts_with(t, ".method") || is_modifier_token(t) {
        } else {
            return match parse_signature(t) {
                Some((name, parameter_types, return_type)) => Ok(
                    SmaliMethod { name, parameter_types, return_type, access, is_static, is_final },
                ),
                None => Err(ParserError::InvalidMethod()),
            };
        }
        i = i + 1;
    }
    Err(ParserError::InvalidMethod())
}

/// Parses a `.method` line given as text; see [`method_from_chars`].
pub fn parse_line(line: &str) -> (r: ParserResult<SmaliMethod>)
    ensures
        result_view(r) == method_line(line@),
{
    method_from_chars(&chars_of(line))
}

} // verus!
