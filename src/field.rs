//! The `.field` declaration line.
use crate::err::{Failure, ParserError, ParserResult, result_view};
use crate::smali_class::{SmaliAccessModifier, SmaliValue, SpecValue};
use crate::text::{chars_of, find_char, index_of, is_word, split_tokens, string_of_range, tokens, vecs_view};
use crate::util::{
    access_keyword, access_of_token, is_comment, is_comment_token, is_modifier_token,
    is_modifier_word, parse_type, parse_type_range,
};
use vstd::prelude::*;

verus! {

/// The field that a payload token `name:type` declares, with the flags
/// gathered from the keywords before it. The name, before the first `:`,
/// must not be empty.
pub open spec fn field_payload(
    t: Seq<char>,
    is_static: bool,
    is_final: bool,
    access: SmaliAccessModifier,
) -> Result<SpecValue, Failure> {
    match index_of(t, ':', 0) {
        None => Err(Failure::InvalidField),
        Some(k) => if k == 0 {
            Err(Failure::InvalidField)
        } else {
            match parse_type(t.subrange(k + 1, t.len() as int)) {
                Ok(ty) => Ok(
                    SpecValue { name: t.subrange(0, k), data_type: ty, access, is_static, is_final },
                ),
                Err(_) => Err(Failure::InvalidField),
            }
        },
    }
}

/// Scans the tokens of a `.field` line from `i` on, with the flags seen so far.
pub open spec fn field_scan(
    ts: Seq<Seq<char>>,
    i: nat,
    is_static: bool,
    is_final: bool,
    access: SmaliAccessModifier,
) -> Result<SpecValue, Failure>
    decreases ts.len() - i,
{
    if i >= ts.len() || is_comment(ts[i as int]) {
        Err(Failure::InvalidField)
    } else if ts[i as int] == "static"@ {
        field_scan(ts, i + 1, true, is_final, access)
    } else if ts[i as int] == "final"@ {
        field_scan(ts, i + 1, is_static, true, access)
    } else if access_keyword(ts[i as int]) is Some {
        field_scan(ts, i + 1, is_static, is_final, access_keyword(ts[i as int])->Some_0)
    } else if ts[i as int] == ".field"@ || is_modifier_word(ts[i as int]) {
        field_scan(ts, i + 1, is_static, is_final, access)
    } else {
        field_payload(ts[i as int], is_static, is_final, access)
    }
}

/// The field that a `.field` line declares.
pub open spec fn field_line(line: Seq<char>) -> Result<SpecValue, Failure> {
    field_scan(tokens(line), 0, false, false, SmaliAccessModifier::Package)
}

fn parse_field_payload(
    t: &Vec<char>,
    is_static: bool,
    is_final: bool,
    access: SmaliAccessModifier,
) -> (r: ParserResult<SmaliValue>)
    ensures
        result_view(r) == field_payload(t@, is_static, is_final, access),
{
    let n = t.len();
    match find_char(t, ':', 0) {
        None => Err(ParserError::InvalidField()),
        Some(0) => Err(ParserError::InvalidField()),
        Some(k) => match parse_type_range(t, k + 1, n) {
            Ok(data_type) => Ok(
                SmaliValue { name: string_of_range(t, 0, k), data_type, access, is_static, is_final },
            ),
            Err(_) => Err(ParserError::InvalidField()),
        },
    }
}

/// Parses a `.field` line: `static`, `final` and a visibility keyword set
/// the flags, other modifiers are skipped, and the first other token is the
/// payload `name:type`, split at its first `:`. Anything after the payload
/// (an initial value) is ignored. A line without a payload, or whose
/// payload has no `:`, an empty name or no valid type, is an `InvalidField`
/// error.
pub fn field_from_chars(cs: &Vec<char>) -> (r: ParserResult<SmaliValue>)
    ensures
        result_view(r) == field_line(cs@),
{
    let toks = split_tokens(cs);
    let mut is_static = false;
    let mut is_final = false;
    let mut access = SmaliAccessModifier::Package;
    let mut i: usize = 0;
    while i < toks.len()
        invariant
            i <= toks@.len(),
            vecs_view(toks@) == tokens(cs@),
            field_scan(tokens(cs@), i as nat, is_static, is_final, access) == field_line(cs@),
        decreases toks.len() - i,
    {
        let t = &toks[i];
        assert(tokens(cs@)[i as int] == t@);
        if is_comment_token(t) {
            return Err(ParserError::InvalidField());
        }
        if is_word(t, "static") {
            is_static = true;
        } else if is_word(t, "final") {
            is_final = true;
        } else if let Some(a) = access_of_token(t) {
            access = a;
        } else if is_word(t, ".field") || is_modifier_token(t) {
        } else {
            return parse_field_payload(t, is_static, is_final, access);
        }
        i = i + 1;
    }
    Err(ParserError::InvalidField())
}

/// Parses a `.field` line given as text; see [`field_from_chars`].
pub fn parse_line_field(line: &str) -> (r: ParserResult<SmaliValue>)
    ensures
        result_view(r) == field_line(line@),
{
    field_from_chars(&chars_of(line))
}

} // verus!
