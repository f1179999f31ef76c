//! Modifier keywords, the reference-path translation and the type grammar.
use crate::err::{Failure, ParserError, ParserResult, result_view};
use crate::smali_class::{SmaliAccessModifier, SmaliType, SpecType};
use crate::text::{chars_of, is_word, string_of_range};
use vstd::prelude::*;

verus! {

/// The visibility that a token names, if it is `public`, `private` or `protected`.
pub open spec fn access_keyword(t: Seq<char>) -> Option<SmaliAccessModifier> {
    if t == "public"@ {
        Some(SmaliAccessModifier::Public)
    } else if t == "private"@ {
        Some(SmaliAccessModifier::Private)
    } else if t == "protected"@ {
        Some(SmaliAccessModifier::Protected)
    } else {
        None
    }
}

/// Whether a token is a modifier keyword, consumed as a flag and never taken
/// as the payload of a declaration.
pub open spec fn is_modifier_word(t: Seq<char>) -> bool {
    access_keyword(t) is Some || t == "static"@ || t == "final"@ || t == "synthetic"@
        || t == "constructor"@ || t == "enum"@ || t == "varargs"@ || t == "abstract"@
}

/// Whether a token opens a trailing comment.
pub open spec fn is_comment(t: Seq<char>) -> bool {
    t.len() > 0 && t[0] == '#'
}

pub fn access_of_token(t: &Vec<char>) -> (r: Option<SmaliAccessModifier>)
    ensures
        r == access_keyword(t@),
{
    if is_word(t, "public") {
        Some(SmaliAccessModifier::Public)
    } else if is_word(t, "private") {
        Some(SmaliAccessModifier::Private)
    } else if is_word(t, "protected") {
        Some(SmaliAccessModifier::Protected)
    } else {
        None
    }
}

pub fn is_modifier_token(t: &Vec<char>) -> (r: bool)
    ensures
        r == is_modifier_word(t@),
{
    access_of_token(t).is_some() || is_word(t, "static") || is_word(t, "final") || is_word(
        t,
        "synthetic",
    ) || is_word(t, "constructor") || is_word(t, "enum") || is_word(t, "varargs") || is_word(
        t,
        "abstract",
    )
}

pub fn is_comment_token(t: &Vec<char>) -> (r: bool)
    ensures
        r == is_comment(t@),
{
    t.len() > 0 && t[0] == '#'
}

/// Whether `token` is `public`, `private` or `protected`.
pub fn is_access_modifier(token: &str) -> (r: bool)
    ensures
        r == (access_keyword(token@) is Some),
{
    access_of_token(&chars_of(token)).is_some()
}

/// Whether `token` is a visibility keyword or one of `static`, `final`,
/// `synthetic`, `constructor`, `enum`, `varargs`, `abstract`.
pub fn is_modifier(token: &str) -> (r: bool)
    ensures
        r == is_modifier_word(token@),
{
    is_modifier_token(&chars_of(token))
}

/// Whether `t` has the reference form `L...;`: a non-empty body that holds
/// no `;` of its own.
pub open spec fn is_reference_form(t: Seq<char>) -> bool {
    &&& t.len() >= 3
    &&& t[0] == 'L'
    &&& t[t.len() - 1] == ';'
    &&& forall|i: int| 1 <= i < t.len() - 1 ==> t[i] != ';'
}

/// `s` with every `/` replaced by `.`.
pub open spec fn slashes_to_dots(s: Seq<char>) -> Seq<char> {
    s.map_values(|c: char| if c == '/' { '.' } else { c })
}

/// The dotted path that a reference token `L...;` stands for.
pub open spec fn java_path(t: Seq<char>) -> Seq<char> {
    slashes_to_dots(t.subrange(1, t.len() - 1))
}

/// Decoding of a reference token: its dotted path, or the token itself as
/// the offending value.
pub open spec fn decode_reference(t: Seq<char>) -> Result<Seq<char>, Failure> {
    if is_reference_form(t) {
        Ok(java_path(t))
    } else {
        Err(Failure::InvalidClassPath(t))
    }
}

/// The reference token for a dotted path: `L`, the path with every `.`
/// replaced by `/`, then `;`.
pub open spec fn encode_reference(p: Seq<char>) -> Seq<char> {
    seq!['L'] + p.map_values(|c: char| if c == '.' { '/' } else { c }) + seq![';']
}

/// Decoding a reference token `L path ;` and encoding the result again gives
/// back the token, for every non-empty `path` without a `.` or a `;`.
pub proof fn lemma_reference_round_trip(path: Seq<char>)
    requires
        path.len() > 0,
        forall|i: int| 0 <= i < path.len() ==> path[i] != '.' && path[i] != ';',
    ensures
        decode_reference(seq!['L'] + path + seq![';']) is Ok,
        encode_reference(decode_reference(seq!['L'] + path + seq![';'])->Ok_0) == seq!['L']
            + path + seq![';'],
{
    let t = seq!['L'] + path + seq![';'];
    assert(t.subrange(1, t.len() - 1) =~= path);
    assert forall|i: int| 1 <= i < t.len() - 1 implies t[i] != ';' by {
        assert(t[i] == path[i - 1]);
    }
    let q = java_path(t);
    assert(q.map_values(|c: char| if c == '.' { '/' } else { c }) =~= path);
    assert(encode_reference(q) =~= t);
}

/// A decoded reference path is never empty and holds no `/` and no `;`.
pub proof fn lemma_decoded_path_clean(t: Seq<char>)
    requires
        decode_reference(t) is Ok,
    ensures
        decode_reference(t)->Ok_0.len() > 0,
        forall|i: int|
            0 <= i < decode_reference(t)->Ok_0.len() ==> #[trigger] decode_reference(t)->Ok_0[i]
                != '/' && decode_reference(t)->Ok_0[i] != ';',
{
    assert forall|i: int| 0 <= i < decode_reference(t)->Ok_0.len() implies #[trigger] decode_reference(
        t,
    )->Ok_0[i] != '/' && decode_reference(t)->Ok_0[i] != ';' by {
        assert(t.subrange(1, t.len() - 1)[i] == t[i + 1]);
    }
}

/// A token shorter than two characters is never a reference token.
pub proof fn lemma_short_token_rejected(t: Seq<char>)
    requires
        t.len() < 2,
    ensures
        decode_reference(t) == Err::<Seq<char>, Failure>(Failure::InvalidClassPath(t)),
{
}

/// Decodes the reference token `cs[lo..hi]`.
pub fn java_path_of_range(cs: &Vec<char>, lo: usize, hi: usize) -> (r: ParserResult<String>)
    requires
        lo <= hi <= cs@.len(),
    ensures
        result_view(r) == decode_reference(cs@.subrange(lo as int, hi as int)),
{
    let ghost t = cs@.subrange(lo as int, hi as int);
    if hi - lo < 3 || cs[lo] != 'L' || cs[hi - 1] != ';' {
        return Err(ParserError::InvalidClassPath(string_of_range(cs, lo, hi)));
    }
    let mut path: Vec<char> = Vec::new();
    let mut i: usize = lo + 1;
    while i < hi - 1
        invariant
            lo + 1 <= i <= hi - 1,
            hi <= cs@.len(),
            hi - lo >= 3,
            t == cs@.subrange(lo as int, hi as int),
            t[0] == 'L' && t[t.len() - 1] == ';',
            forall|k: int| 1 <= k < i - lo ==> t[k] != ';',
            path@ == slashes_to_dots(cs@.subrange(lo + 1, i as int)),
        decreases hi - 1 - i,
    {
        let c = cs[i];
        if c == ';' {
            assert(t[i - lo] == ';');
            return Err(ParserError::InvalidClassPath(string_of_range(cs, lo, hi)));
        }
        path.push(if c == '/' { '.' } else { c });
        assert(cs@.subrange(lo + 1, i + 1) == cs@.subrange(lo + 1, i as int).push(c));
        assert(slashes_to_dots(cs@.subrange(lo + 1, i + 1)) =~= slashes_to_dots(
            cs@.subrange(lo + 1, i as int),
        ).push(if c == '/' { '.' } else { c }));
        i = i + 1;
    }
    assert(t.subrange(1, t.len() - 1) =~= cs@.subrange(lo + 1, hi - 1));
    assert(is_reference_form(t));
    assert(path@.subrange(0, path@.len() as int) =~= path@);
    Ok(string_of_range(&path, 0, path.len()))
}

/// Decodes a reference token `L...;` into its dotted path: the `L` and `;`
/// are dropped and every `/` becomes `.`. Any other token is an
/// `InvalidClassPath` error holding the token.
pub fn smali_to_java_path(input: &str) -> (r: ParserResult<String>)
    ensures
        result_view(r) == decode_reference(input@),
{
    let cs = chars_of(input);
    assert(cs@.subrange(0, cs@.len() as int) =~= cs@);
    java_path_of_range(&cs, 0, cs.len())
}

/// The type that a single-character code stands for.
pub open spec fn primitive_code(c: char) -> Option<SpecType> {
    if c == 'V' {
        Some(SpecType::Void)
    } else if c == 'Z' {
        Some(SpecType::Boolean)
    } else if c == 'F' {
        Some(SpecType::Float)
    } else if c == 'D' {
        Some(SpecType::Double)
    } else if c == 'I' {
        Some(SpecType::Int)
    } else if c == 'J' {
        Some(SpecType::Long)
    } else {
        None
    }
}

/// The type grammar: a primitive code, `[` followed by an element type, or a
/// reference token. A failure holds the offending reference token.
pub open spec fn parse_type(t: Seq<char>) -> Result<SpecType, Failure>
    decreases t.len(),
{
    if t.len() == 1 && primitive_code(t[0]) is Some {
        Ok(primitive_code(t[0])->Some_0)
    } else if t.len() > 0 && t[0] == '[' {
        match parse_type(t.drop_first()) {
            Ok(e) => Ok(SpecType::Arr(Box::new(e))),
            Err(f) => Err(f),
        }
    } else {
        match decode_reference(t) {
            Ok(p) => Ok(SpecType::Class(p)),
            Err(f) => Err(f),
        }
    }
}

fn primitive_of_char(c: char) -> (r: Option<SmaliType>)
    ensures
        match r {
            Some(t) => primitive_code(c) == Some(t@),
            None => primitive_code(c) is None,
        },
{
    if c == 'V' {
        Some(SmaliType::Void)
    } else if c == 'Z' {
        Some(SmaliType::Boolean)
    } else if c == 'F' {
        Some(SmaliType::Float)
    } else if c == 'D' {
        Some(SmaliType::Double)
    } else if c == 'I' {
        Some(SmaliType::Int)
    } else if c == 'J' {
        Some(SmaliType::Long)
    } else {
        None
    }
}

/// Parses the type token `cs[lo..hi]`.
pub fn parse_type_range(cs: &Vec<char>, lo: usize, hi: usize) -> (r: ParserResult<SmaliType>)
    requires
        lo <= hi <= cs@.len(),
    ensures
        result_view(r) == parse_type(cs@.subrange(lo as int, hi as int)),
    decreases hi - lo,
{
    let ghost t = cs@.subrange(lo as int, hi as int);
    if hi - lo == 1 {
        if let Some(p) = primitive_of_char(cs[lo]) {
            return Ok(p);
        }
    }
    if hi > lo && cs[lo] == '[' {
        assert(t.drop_first() =~= cs@.subrange(lo + 1, hi as int));
        match parse_type_range(cs, lo + 1, hi) {
            Ok(e) => {
                let r = SmaliType::Arr(Box::new(e));
                assert(r@ == SpecType::Arr(Box::new(e@)));
                Ok(r)
            },
            Err(f) => Err(f),
        }
    } else {
        match java_path_of_range(cs, lo, hi) {
            Ok(p) => Ok(SmaliType::Class(p)),
            Err(f) => Err(f),
        }
    }
}

/// Parses one type token: `V`, `Z`, `F`, `D`, `I`, `J`, `[` followed by a
/// type token, or a reference token `L...;`.
pub fn parse_data_type(token: &str) -> (r: ParserResult<SmaliType>)
    ensures
        result_view(r) == parse_type(token@),
{
    let cs = chars_of(token);
    assert(cs@.subrange(0, cs@.len() as int) =~= cs@);
    parse_type_range(&cs, 0, cs.len())
}

/// `s` wrapped as `Array<s>` when `should` holds, else `s` itself.
pub open spec fn wrapped(s: Seq<char>, should: bool) -> Seq<char> {
    if should {
        "Array<"@ + s + ">"@
    } else {
        s
    }
}

/// Wraps a rendered type name as `Array<...>` when `should` holds.
pub fn wrap_with_array(s: String, should: bool) -> (r: String)
    ensures
        r@ == wrapped(s@, should),
{
    if !should {
        return s;
    }
    let mut r = String::from_str("Array<");
    r.append(s.as_str());
    r.append(">");
    r
}

/// The Java-style name of a type: `void`, `boolean`, `float`, `double`,
/// `int`, `long`, `Array<...>` around the element's name, or the dotted path.
pub open spec fn java_name(t: SpecType) -> Seq<char>
    decreases t,
{
    match t {
        SpecType::Void => "void"@,
        SpecType::Boolean => "boolean"@,
        SpecType::Float => "float"@,
        SpecType::Double => "double"@,
        SpecType::Int => "int"@,
        SpecType::Long => "long"@,
        SpecType::Arr(inner) => wrapped(java_name(*inner), true),
        SpecType::Class(path) => path,
    }
}

impl std::str::FromStr for SmaliAccessModifier {
    type Err = ();

    fn from_str(token: &str) -> (r: Result<SmaliAccessModifier, ()>)
        ensures
            r == match access_keyword(token@) {
                Some(a) => Ok::<SmaliAccessModifier, ()>(a),
                None => Err(()),
            },
    {
        match access_of_token(&chars_of(token)) {
            Some(a) => Ok(a),
            None => Err(()),
        }
    }
}

impl std::str::FromStr for SmaliType {
    type Err = ParserError;

    fn from_str(token: &str) -> (r: Result<SmaliType, ParserError>)
        ensures
            result_view(r) == parse_type(token@),
    {
        parse_data_type(token)
    }
}

impl SmaliType {
    /// The Java-style name of this type.
    pub fn java_name(&self) -> (r: String)
        ensures
            r@ == java_name(self@),
        decreases self,
    {
        match self {
            SmaliType::Void => String::from_str("void"),
            SmaliType::Boolean => String::from_str("boolean"),
            SmaliType::Float => String::from_str("float"),
            SmaliType::Double => String::from_str("double"),
            SmaliType::Int => String::from_str("int"),
            SmaliType::Long => String::from_str("long"),
            SmaliType::Arr(inner) => wrap_with_array((**inner).java_name(), true),
            SmaliType::Class(path) => path.clone(),
        }
    }
}

} // verus!
