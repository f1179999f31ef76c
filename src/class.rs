//! The `.class` declaration line.
use crate::err::{Failure, ParserError, ParserResult, result_view};
use crate::smali_class::{SmaliAccessModifier, SmaliClass, SpecClass, bare_class};
use crate::text::{chars_of, string_of, is_word, split_tokens, tokens, vecs_view};
use crate::util::{
    access_keyword, access_of_token, decode_reference, is_comment, is_comment_token,
    is_modifier_token, is_modifier_word, java_path_of_range,
};
use vstd::prelude::*;

verus! {

/// Scans the tokens of a `.class` line from `i` on, with the flags seen so far.
pub open spec fn class_scan(
    line: Seq<char>,
    ts: Seq<Seq<char>>,
    i: nat,
    is_abstract: bool,
    access: SmaliAccessModifier,
) -> Result<SpecClass, Failure>
    decreases ts.len() - i,
{
    if i >= ts.len() || is_comment(ts[i as int]) {
        Err(Failure::MissingClassPath(line))
    } else if ts[i as int] == "abstract"@ {
        class_scan(line, ts, i + 1, true, access)
    } else if access_keyword(ts[i as int]) is Some {
        class_scan(line, ts, i + 1, is_abstract, access_keyword(ts[i as int])->Some_0)
    } else if ts[i as int] == ".class"@ || is_modifier_word(ts[i as int]) {
        class_scan(line, ts, i + 1, is_abstract, access)
    } else {
        match decode_reference(ts[i as int]) {
            Ok(path) => Ok(bare_class(path, access, is_abstract)),
            Err(f) => Err(f),
        }
    }
}

/// What a `.class` line declares.
pub open spec fn class_line(line: Seq<char>) -> Result<SpecClass, Failure> {
    class_scan(line, tokens(line), 0, false, SmaliAccessModifier::Package)
}

proof fn lemma_keywords_only_scan(
    line: Seq<char>,
    ts: Seq<Seq<char>>,
    i: nat,
    is_abstract: bool,
    access: SmaliAccessModifier,
)
    requires
        forall|k: int| i <= k < ts.len() ==> ts[k] == ".class"@ || is_modifier_word(#[trigger] ts[k]),
    ensures
        class_scan(line, ts, i, is_abstract, access) == Err::<SpecClass, Failure>(
            Failure::MissingClassPath(line),
        ),
    decreases ts.len() - i,
{
    if i < ts.len() && !is_comment(ts[i as int]) {
        let t = ts[i as int];
        if t == "abstract"@ {
            lemma_keywords_only_scan(line, ts, i + 1, true, access);
        } else if access_keyword(t) is Some {
            lemma_keywords_only_scan(line, ts, i + 1, is_abstract, access_keyword(t)->Some_0);
        } else {
            lemma_keywords_only_scan(line, ts, i + 1, is_abstract, access);
        }
    }
}

/// A `.class` line whose tokens are all the directive or modifier keywords
/// declares no class path: it is a `MissingClassPath` error holding the line.
pub proof fn lemma_keywords_only_class_line(line: Seq<char>)
    requires
        forall|k: int|
            0 <= k < tokens(line).len() ==> tokens(line)[k] == ".class"@ || is_modifier_word(
                #[trigger] tokens(line)[k],
            ),
    ensures
        class_line(line) == Err::<SpecClass, Failure>(Failure::MissingClassPath(line)),
{
    lemma_keywords_only_scan(line, tokens(line), 0, false, SmaliAccessModifier::Package);
}

/// Parses a `.class` line: `abstract` and a visibility keyword set the
/// flags, other modifiers are skipped, and the first other token is the
/// class path. A line without one is a `MissingClassPath` error.
pub fn class_from_chars(cs: &Vec<char>) -> (r: ParserResult<SmaliClass>)
    ensures
        result_view(r) == class_line(cs@),
{
    let toks = split_tokens(cs);
    let mut is_abstract = false;
    let mut access = SmaliAccessModifier::Package;
    let mut i: usize = 0;
    while i < toks.len()
        invariant
            i <= toks@.len(),
            vecs_view(toks@) == tokens(cs@),
            class_scan(cs@, tokens(cs@), i as nat, is_abstract, access) == class_line(cs@),
        decreases toks.len() - i,
    {
        let t = &toks[i];
        assert(tokens(cs@)[i as int] == t@);
        if is_comment_token(t) {
            return Err(ParserError::MissingClassPath(string_of(cs)));
        }
        if is_word(t, "abstract") {
            is_abstract = true;
        } else if let Some(a) = access_of_token(t) {
            access = a;
        } else if is_word(t, ".class") || is_modifier_token(t) {
        } else {
            assert(t@.subrange(0, t@.len() as int) =~= t@);
            return match java_path_of_range(t, 0, t.len()) {
                Ok(path) => Ok(SmaliClass::new(path, access, is_abstract)),
                Err(e) => Err(e),
            };
        }
        i = i + 1;
    }
    Err(ParserError::MissingClassPath(string_of(cs)))
}

/// Parses a `.class` line given as text; see [`class_from_chars`].
pub fn parse_line_class(line: &str) -> (r: ParserResult<SmaliClass>)
    ensures
        result_view(r) == class_line(line@),
{
    class_from_chars(&chars_of(line))
}

} // verus!
