//! The `.super` declaration line.
use crate::err::{Failure, ParserError, ParserResult, result_view};
use crate::text::{chars_of, string_of, is_word, split_tokens, tokens, vecs_view};
use crate::util::{decode_reference, is_comment, is_comment_token, java_path_of_range};
use vstd::prelude::*;

verus! {

/// Scans the tokens of a `.super` line from `i` on: the first token other
/// than the directive is the path; a comment or the end of the line means
/// there is none.
pub open spec fn super_scan(line: Seq<char>, ts: Seq<Seq<char>>, i: nat) -> Result<Seq<char>, Failure>
    decreases ts.len() - i,
{
    if i >= ts.len() || is_comment(ts[i as int]) {
        Err(Failure::MissingSuperPath(line))
    } else if ts[i as int] == ".super"@ {
        super_scan(line, ts, i + 1)
    } else {
        decode_reference(ts[i as int])
    }
}

/// The super class path that a `.super` line declares.
pub open spec fn super_line(line: Seq<char>) -> Result<Seq<char>, Failure> {
    super_scan(line, tokens(line), 0)
}

/// Parses a `.super` line: the first token other than `.super` is the
/// super class path. A line without one is a `MissingSuperPath` error.
pub fn super_from_chars(cs: &Vec<char>) -> (r: ParserResult<String>)
    ensures
        result_view(r) == super_line(cs@),
{
    let toks = split_tokens(cs);
    let mut i: usize = 0;
    while i < toks.len()
        invariant
            i <= toks@.len(),
            vecs_view(toks@) == tokens(cs@),
            super_scan(cs@, tokens(cs@), i as nat) == super_line(cs@),
        decreases toks.len() - i,
    {
        let t = &toks[i];
        assert(tokens(cs@)[i as int] == t@);
        if is_comment_token(t) {
            return Err(ParserError::MissingSuperPath(string_of(cs)));
        }
        if !is_word(t, ".super") {
            assert(t@.subrange(0, t@.len() as int) =~= t@);
            return java_path_of_range(t, 0, t.len());
        }
        i = i + 1;
    }
    Err(ParserError::MissingSuperPath(string_of(cs)))
}

/// Parses a `.super` line given as text; see [`super_from_chars`].
pub fn parse_line_super(line: &str) -> (r: ParserResult<String>)
    ensures
        result_view(r) == super_line(line@),
{
    super_from_chars(&chars_of(line))
}

} // verus!
