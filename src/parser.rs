//! Line classification and assembly of line fragments into one class.
use crate::class::{class_from_chars, class_line};
use crate::err::{Failure, ParserError, ParserResult, result_view};
use crate::field::{field_from_chars, field_line};
use crate::implements::{implements_from_chars, implements_line};
use crate::method::{method_from_chars, method_line};
use crate::smali_class::{
    SmaliClass, SmaliMethod, SmaliValue, SpecClass, SpecMethod, SpecValue, opt_string_view,
    strings_view,
};
use crate::super_p::{super_from_chars, super_line};
use crate::text::{chars_of, has_prefix, is_space, starts_with, vecs_view};
use crossbeam_queue::SegQueue;
use vstd::prelude::*;

verus! {

/// What one source line contributes to a class.
#[derive(Debug)]
pub enum Line {
    /// A class declaration.
    Class(SmaliClass),
    /// A super class path.
    Super(String),
    /// An implemented interface path.
    Implements(String),
    /// A field declaration.
    Value(SmaliValue),
    /// A method header.
    Method(SmaliMethod),
    /// Any other line, ignored.
    Other,
}

/// The mathematical value of a [`Line`].
pub enum SpecLine {
    Class(SpecClass),
    Super(Seq<char>),
    Implements(Seq<char>),
    Value(SpecValue),
    Method(SpecMethod),
    Other,
}

impl View for Line {
    type V = SpecLine;

    open spec fn view(&self) -> SpecLine {
        match self {
            Line::Class(c) => SpecLine::Class(c@),
            Line::Super(p) => SpecLine::Super(p@),
            Line::Implements(p) => SpecLine::Implements(p@),
            Line::Value(v) => SpecLine::Value(v@),
            Line::Method(m) => SpecLine::Method(m@),
            Line::Other => SpecLine::Other,
        }
    }
}

/// The index of the first non-space character of `s` at or after `i`.
pub open spec fn lead(s: Seq<char>, i: int) -> int
    decreases s.len() - i,
{
    if i < 0 || i >= s.len() || !is_space(s[i]) {
        i
    } else {
        lead(s, i + 1)
    }
}

/// The index just after the last non-space character of `s` before `j`.
pub open spec fn trail(s: Seq<char>, j: int) -> int
    decreases j,
{
    if j <= 0 || j > s.len() || !is_space(s[j - 1]) {
        j
    } else {
        trail(s, j - 1)
    }
}

/// `s` without its leading and trailing whitespace.
pub open spec fn trimmed(s: Seq<char>) -> Seq<char> {
    if lead(s, 0) < trail(s, s.len() as int) {
        s.subrange(lead(s, 0), trail(s, s.len() as int))
    } else {
        Seq::empty()
    }
}

fn trim_chars(cs: &Vec<char>) -> (r: Vec<char>)
    ensures
        r@ == trimmed(cs@),
{
    let n = cs.len();
    let mut a: usize = 0;
    while a < n && (cs[a] == ' ' || cs[a] == '\t' || cs[a] == '\n' || cs[a] == '\x0C' || cs[a]
        == '\r')
        invariant
            a <= n == cs@.len(),
            lead(cs@, 0) == lead(cs@, a as int),
        decreases n - a,
    {
        a = a + 1;
    }
    let mut b: usize = n;
    while b > 0 && (cs[b - 1] == ' ' || cs[b - 1] == '\t' || cs[b - 1] == '\n' || cs[b - 1]
        == '\x0C' || cs[b - 1] == '\r')
        invariant
            b <= n == cs@.len(),
            trail(cs@, n as int) == trail(cs@, b as int),
        decreases b,
    {
        b = b - 1;
    }
    let mut r: Vec<char> = Vec::new();
    if a < b {
        let mut i: usize = a;
        while i < b
            invariant
                a <= i <= b <= n == cs@.len(),
                r@ == cs@.subrange(a as int, i as int),
            decreases b - i,
        {
            r.push(cs[i]);
            assert(cs@.subrange(a as int, i + 1) =~= cs@.subrange(a as int, i as int).push(
                cs@[i as int],
            ));
            i = i + 1;
        }
    } else {
        assert(r@ =~= Seq::<char>::empty());
    }
    r
}

/// What a source line contributes: the line, trimmed, is told apart by its
/// leading directive and handed to the tokenizer of that kind.
pub open spec fn classify(line: Seq<char>) -> Result<SpecLine, Failure> {
    let t = trimmed(line);
    if has_prefix(t, ".class"@) {
        match class_line(t) {
            Ok(c) => Ok(SpecLine::Class(c)),
            Err(f) => Err(f),
        }
    } else if has_prefix(t, ".super"@) {
        match super_line(t) {
            Ok(p) => Ok(SpecLine::Super(p)),
            Err(f) => Err(f),
        }
    } else if has_prefix(t, ".implements"@) {
        match implements_line(t) {
            Ok(p) => Ok(SpecLine::Implements(p)),
            Err(f) => Err(f),
        }
    } else if has_prefix(t, ".field"@) {
        match field_line(t) {
            Ok(v) => Ok(SpecLine::Value(v)),
            Err(f) => Err(f),
        }
    } else if has_prefix(t, ".method"@) {
        match method_line(t) {
            Ok(m) => Ok(SpecLine::Method(m)),
            Err(f) => Err(f),
        }
    } else {
        Ok(SpecLine::Other)
    }
}

fn classify_chars(cs: &Vec<char>) -> (r: ParserResult<Line>)
    ensures
        result_view(r) == classify(cs@),
{
    let t = trim_chars(cs);
    if starts_with(&t, ".class") {
        match class_from_chars(&t) {
            Ok(c) => Ok(Line::Class(c)),
            Err(e) => Err(e),
        }
    } else if starts_with(&t, ".super") {
        match super_from_chars(&t) {
            Ok(p) => Ok(Line::Super(p)),
            Err(e) => Err(e),
        }
    } else if starts_with(&t, ".implements") {
        match implements_from_chars(&t) {
            Ok(p) => Ok(Line::Implements(p)),
            Err(e) => Err(e),
        }
    } else if starts_with(&t, ".field") {
        match field_from_chars(&t) {
            Ok(v) => Ok(Line::Value(v)),
            Err(e) => Err(e),
        }
    } else if starts_with(&t, ".method") {
        match method_from_chars(&t) {
            Ok(m) => Ok(Line::Method(m)),
            Err(e) => Err(e),
        }
    } else {
        Ok(Line::Other)
    }
}

/// Parses one source line into what it contributes to its class. Lines of
/// other kinds (method bodies, annotations, blank lines) give `Other`.
pub fn parse_line(line: &str) -> (r: ParserResult<Line>)
    ensures
        result_view(r) == classify(line@),
{
    classify_chars(&chars_of(line))
}

/// A member collected while lines are merged: order among members carries
/// no meaning.
#[derive(Debug)]
pub enum Member {
    Interface(String),
    Value(SmaliValue),
    Method(SmaliMethod),
}

/// The mathematical value of a [`Member`].
pub enum SpecMember {
    Interface(Seq<char>),
    Value(SpecValue),
    Method(SpecMethod),
}

impl View for Member {
    type V = SpecMember;

    open spec fn view(&self) -> SpecMember {
        match self {
            Member::Interface(p) => SpecMember::Interface(p@),
            Member::Value(v) => SpecMember::Value(v@),
            Member::Method(m) => SpecMember::Method(m@),
        }
    }
}

#[verifier::external_type_specification]
#[verifier::external_body]
#[verifier::reject_recursive_types(T)]
pub struct ExSegQueue<T>(SegQueue<T>);

/// The members that a queue holds, from head to tail.
pub uninterp spec fn queued(q: SegQueue<Member>) -> Seq<SpecMember>;

/// Relies on `SegQueue::new`: the new queue is empty.
#[verifier::external_body]
fn member_queue() -> (q: SegQueue<Member>)
    ensures
        queued(q) == Seq::<SpecMember>::empty(),
{
    SegQueue::new()
}

/// Relies on `SegQueue::push_mut`: the member joins at the tail.
#[verifier::external_body]
fn enqueue(q: &mut SegQueue<Member>, m: Member)
    ensures
        queued(*final(q)) == queued(*old(q)).push(m@),
{
    q.push_mut(m)
}

/// Relies on `SegQueue::pop_mut`: the head member leaves, or `None` when the
/// queue is empty.
#[verifier::external_body]
fn dequeue(q: &mut SegQueue<Member>) -> (r: Option<Member>)
    ensures
        match r {
            Some(m) => queued(*old(q)).len() > 0 && m@ == queued(*old(q))[0] && queued(*final(q))
                == queued(*old(q)).drop_first(),
            None => queued(*old(q)).len() == 0 && queued(*final(q)) == queued(*old(q)),
        },
{
    q.pop_mut()
}

/// Stores `value` in an empty slot; a slot already taken is left as it is
/// and `error` is returned.
pub fn set_once_or_err<I>(slot: &mut Option<I>, value: I, error: ParserError) -> (r: ParserResult<()>)
    ensures
        match *old(slot) {
            Some(_) => *final(slot) == *old(slot) && r == Err::<(), ParserError>(error),
            None => *final(slot) == Some(value) && r is Ok,
        },
{
    if slot.is_some() {
        return Err(error);
    }
    *slot = Some(value);
    Ok(())
}

/// The state of an assembly: the class and super slots, and the members.
pub struct SpecState {
    pub class: Option<SpecClass>,
    pub super_path: Option<Seq<char>>,
    pub members: Seq<SpecMember>,
}

pub open spec fn empty_state() -> SpecState {
    SpecState { class: None, super_path: None, members: Seq::empty() }
}

/// Merges one line into the state: the class and super slots take one value
/// each, members accumulate, other lines change nothing.
pub open spec fn add_line(st: SpecState, l: SpecLine) -> Result<SpecState, Failure> {
    match l {
        SpecLine::Class(c) => if st.class is Some {
            Err(Failure::TooManyClasses)
        } else {
            Ok(SpecState { class: Some(c), ..st })
        },
        SpecLine::Super(p) => if st.super_path is Some {
            Err(Failure::TooManySupers)
        } else {
            Ok(SpecState { super_path: Some(p), ..st })
        },
        SpecLine::Implements(p) => Ok(
            SpecState { members: st.members.push(SpecMember::Interface(p)), ..st },
        ),
        SpecLine::Value(v) => Ok(SpecState { members: st.members.push(SpecMember::Value(v)), ..st }),
        SpecLine::Method(m) => Ok(
            SpecState { members: st.members.push(SpecMember::Method(m)), ..st },
        ),
        SpecLine::Other => Ok(st),
    }
}

/// The interfaces (each path once), fields and methods among `ms`, in order.
pub open spec fn gather(ms: Seq<SpecMember>) -> (Seq<Seq<char>>, Seq<SpecValue>, Seq<SpecMethod>)
    decreases ms.len(),
{
    if ms.len() == 0 {
        (Seq::empty(), Seq::empty(), Seq::empty())
    } else {
        let (is, vs, mts) = gather(ms.drop_last());
        match ms.last() {
            SpecMember::Interface(p) => if is.contains(p) {
                (is, vs, mts)
            } else {
                (is.push(p), vs, mts)
            },
            SpecMember::Value(v) => (is, vs.push(v), mts),
            SpecMember::Method(m) => (is, vs, mts.push(m)),
        }
    }
}

/// The class that a finished state describes.
pub open spec fn finish(st: SpecState) -> Result<SpecClass, Failure> {
    match st.class {
        None => Err(Failure::MissingClass),
        Some(c) => {
            let (is, vs, mts) = gather(st.members);
            Ok(SpecClass { super_path: st.super_path, interfaces: is, values: vs, methods: mts, ..c })
        },
    }
}

/// Merges line fragments into one class, holding the class and super
/// slots and the members gathered so far.
pub struct ClassBuilder {
    class: Option<SmaliClass>,
    super_path: Option<String>,
    members: SegQueue<Member>,
}

impl View for ClassBuilder {
    type V = SpecState;

    closed spec fn view(&self) -> SpecState {
        SpecState {
            class: match self.class {
                Some(c) => Some(c@),
                None => None,
            },
            super_path: opt_string_view(self.super_path),
            members: queued(self.members),
        }
    }
}

fn contains_string(v: &Vec<String>, s: &String) -> (r: bool)
    ensures
        r == strings_view(v@).contains(s@),
{
    let mut i: usize = 0;
    while i < v.len()
        invariant
            i <= v@.len(),
            forall|k: int| 0 <= k < i ==> v@[k]@ != s@,
        decreases v.len() - i,
    {
        if v[i].eq(s) {
            assert(strings_view(v@)[i as int] == s@);
            return true;
        }
        i = i + 1;
    }
    assert(!strings_view(v@).contains(s@)) by {
        if strings_view(v@).contains(s@) {
            let k = choose|k: int| 0 <= k < strings_view(v@).len() && strings_view(v@)[k] == s@;
            assert(v@[k]@ == s@);
        }
    }
    false
}

impl ClassBuilder {
    /// A builder with empty slots and no members.
    pub fn new() -> (r: Self)
        ensures
            r@ == empty_state(),
    {
        ClassBuilder { class: None, super_path: None, members: member_queue() }
    }

    /// Merges one line; a second class or a second super path is an error.
    pub fn add(&mut self, line: Line) -> (r: ParserResult<()>)
        ensures
            match add_line(old(self)@, line@) {
                Ok(st) => r is Ok && final(self)@ == st,
                Err(f) => r is Err && r->Err_0@ == f,
            },
    {
        match line {
            Line::Class(c) => set_once_or_err(&mut self.class, c, ParserError::TooManyClasses()),
            Line::Super(p) => set_once_or_err(
                &mut self.super_path,
                p,
                ParserError::TooManySupers(),
            ),
            Line::Implements(p) => {
                enqueue(&mut self.members, Member::Interface(p));
                Ok(())
            },
            Line::Value(v) => {
                enqueue(&mut self.members, Member::Value(v));
                Ok(())
            },
            Line::Method(m) => {
                enqueue(&mut self.members, Member::Method(m));
                Ok(())
            },
            Line::Other => Ok(()),
        }
    }

    /// The assembled class: its members are drained from the queue, each
    /// interface path kept once. Without a class line this is `MissingClass`.
    pub fn finish(self) -> (r: ParserResult<SmaliClass>)
        ensures
            result_view(r) == finish(self@),
    {
        let ClassBuilder { class, super_path, members } = self;
        let mut c = match class {
            Some(c) => c,
            None => return Err(ParserError::MissingClass()),
        };
        let ghost all = queued(members);
        let mut q = members;
        let mut interfaces: Vec<String> = Vec::new();
        let mut values: Vec<SmaliValue> = Vec::new();
        let mut methods: Vec<SmaliMethod> = Vec::new();
        let ghost mut k: int = 0;
        let mut done = false;
        proof {
            assert(all.take(0) =~= Seq::<SpecMember>::empty());
            assert(strings_view(interfaces@) =~= Seq::<Seq<char>>::empty());
            assert(values@.map_values(|v: SmaliValue| v@) =~= Seq::<SpecValue>::empty());
            assert(methods@.map_values(|m: SmaliMethod| m@) =~= Seq::<SpecMethod>::empty());
        }
        while !done
            invariant
                0 <= k <= all.len(),
                queued(q) == all.skip(k),
                done ==> k == all.len(),
                gather(all.take(k)) == (
                    strings_view(interfaces@),
                    values@.map_values(|v: SmaliValue| v@),
                    methods@.map_values(|m: SmaliMethod| m@),
                ),
            decreases queued(q).len() + if done { 0int } else { 1int },
        {
            match dequeue(&mut q) {
                None => {
                    done = true;
                },
                Some(m) => {
                    let ghost is0 = strings_view(interfaces@);
                    let ghost vs0 = values@.map_values(|v: SmaliValue| v@);
                    let ghost ms0 = methods@.map_values(|m: SmaliMethod| m@);
                    proof {
                        assert(all.take(k + 1).drop_last() =~= all.take(k));
                        assert(all.take(k + 1).last() == all[k]);
                        assert(all.skip(k + 1) =~= all.skip(k).drop_first());
                    }
                    match m {
                        Member::Interface(p) => {
                            if !contains_string(&interfaces, &p) {
                                interfaces.push(p);
                                assert(strings_view(interfaces@) =~= is0.push(p@));
                            }
                        },
                        Member::Value(v) => {
                            values.push(v);
                            assert(values@.map_values(|v: SmaliValue| v@) =~= vs0.push(v@));
                        },
                        Member::Method(mt) => {
                            methods.push(mt);
                            assert(methods@.map_values(|m: SmaliMethod| m@) =~= ms0.push(mt@));
                        },
                    }
                    proof {
                        k = k + 1;
                    }
                },
            }
        }
        assert(all.take(k) =~= all);
        c.super_path = super_path;
        c.interfaces = interfaces;
        c.values = values;
        c.methods = methods;
        Ok(c)
    }
}

/// The merge of the fragments `ls[i..]` into the state `st`, then the class
/// it describes; the first failure stops the merge.
pub open spec fn merge_from(ls: Seq<SpecLine>, i: int, st: SpecState) -> Result<SpecClass, Failure>
    decreases ls.len() - i,
{
    if i < 0 || i >= ls.len() {
        finish(st)
    } else {
        match add_line(st, ls[i]) {
            Err(f) => Err(f),
            Ok(next) => merge_from(ls, i + 1, next),
        }
    }
}

pub open spec fn lines_view(ls: Seq<Line>) -> Seq<SpecLine> {
    ls.map_values(|l: Line| l@)
}

/// Assembles line fragments, as the tokenizers produced them, into one class.
pub fn assemble_lines(lines: Vec<Line>) -> (r: ParserResult<SmaliClass>)
    ensures
        result_view(r) == merge_from(lines_view(lines@), 0, empty_state()),
{
    let ghost ls = lines_view(lines@);
    let mut b = ClassBuilder::new();
    let mut rest = lines;
    let ghost mut i: int = 0;
    while rest.len() > 0
        invariant
            0 <= i <= ls.len(),
            ls == lines_view(lines@),
            lines_view(rest@) == ls.skip(i),
            merge_from(ls, 0, empty_state()) == merge_from(ls, i, b@),
        decreases rest.len(),
    {
        let ghost before = rest@;
        let l = rest.remove(0);
        proof {
            assert(lines_view(before).len() == before.len());
            assert(i < ls.len());
            assert(l == before[0]);
            assert(lines_view(before)[0] == before[0]@);
            assert(lines_view(before)[0] == ls.skip(i)[0]);
            assert(ls.skip(i)[0] == ls[i]);
            assert(l@ == ls[i]);
            assert forall|j: int| 0 <= j < rest@.len() implies #[trigger] lines_view(rest@)[j]
                == ls.skip(i + 1)[j] by {
                assert(rest@[j] == before[j + 1]);
                assert(lines_view(rest@)[j] == rest@[j]@);
                assert(lines_view(before)[j + 1] == ls.skip(i)[j + 1]);
            }
            assert(lines_view(rest@) =~= ls.skip(i + 1));
        }
        let ghost b0 = b@;
        match b.add(l) {
            Err(e) => {
                assert(merge_from(ls, i, b0) == Err::<SpecClass, Failure>(e@));
                return Err(e);
            },
            Ok(()) => {},
        }
        proof {
            i = i + 1;
        }
    }
    assert(ls.skip(i).len() == 0);
    b.finish()
}

/// The class that a sequence of source lines declares: each line is
/// classified and merged in order, and the first failure is the result.
pub open spec fn run_lines(lines: Seq<Seq<char>>, i: int, st: SpecState) -> Result<SpecClass, Failure>
    decreases lines.len() - i,
{
    if i < 0 || i >= lines.len() {
        finish(st)
    } else {
        match classify(lines[i]) {
            Err(f) => Err(f),
            Ok(l) => match add_line(st, l) {
                Err(f) => Err(f),
                Ok(next) => run_lines(lines, i + 1, next),
            },
        }
    }
}

pub open spec fn assemble(lines: Seq<Seq<char>>) -> Result<SpecClass, Failure> {
    run_lines(lines, 0, empty_state())
}

fn assemble_chars(lines: &Vec<Vec<char>>) -> (r: ParserResult<SmaliClass>)
    ensures
        result_view(r) == assemble(vecs_view(lines@)),
{
    let mut b = ClassBuilder::new();
    let mut i: usize = 0;
    while i < lines.len()
        invariant
            i <= lines@.len(),
            assemble(vecs_view(lines@)) == run_lines(vecs_view(lines@), i as int, b@),
        decreases lines.len() - i,
    {
        assert(vecs_view(lines@)[i as int] == lines@[i as int]@);
        let l = match classify_chars(&lines[i]) {
            Ok(l) => l,
            Err(e) => return Err(e),
        };
        match b.add(l) {
            Err(e) => return Err(e),
            Ok(()) => {},
        }
        i = i + 1;
    }
    b.finish()
}

/// Parses the lines of one class file into the class they declare.
pub fn parse_smali(lines: &Vec<String>) -> (r: ParserResult<SmaliClass>)
    ensures
        result_view(r) == assemble(strings_view(lines@)),
{
    let mut cs: Vec<Vec<char>> = Vec::new();
    let mut i: usize = 0;
    while i < lines.len()
        invariant
            i <= lines@.len(),
            vecs_view(cs@) == strings_view(lines@).take(i as int),
        decreases lines.len() - i,
    {
        let ghost before = vecs_view(cs@);
        let line = chars_of(lines[i].as_str());
        assert(line@ == strings_view(lines@)[i as int]);
        cs.push(line);
        assert(vecs_view(cs@) =~= before.push(line@));
        assert(strings_view(lines@).take(i + 1) =~= strings_view(lines@).take(i as int).push(
            strings_view(lines@)[i as int],
        ));
        i = i + 1;
    }
    assert(strings_view(lines@).take(lines@.len() as int) =~= strings_view(lines@));
    assemble_chars(&cs)
}

/// Splits `s[i..]` at line feeds, given the lines `acc` already complete and
/// the line `cur` under way.
pub open spec fn lines_from(s: Seq<char>, i: int, cur: Seq<char>, acc: Seq<Seq<char>>) -> Seq<Seq<char>>
    decreases s.len() - i,
{
    if i < 0 || i >= s.len() {
        acc.push(cur)
    } else if s[i] == '\n' {
        lines_from(s, i + 1, Seq::empty(), acc.push(cur))
    } else {
        lines_from(s, i + 1, cur.push(s[i]), acc)
    }
}

/// The lines of `s`, split at each line feed.
pub open spec fn split_lines(s: Seq<char>) -> Seq<Seq<char>> {
    lines_from(s, 0, Seq::empty(), Seq::empty())
}

fn split_line_chars(s: &Vec<char>) -> (r: Vec<Vec<char>>)
    ensures
        vecs_view(r@) == split_lines(s@),
{
    let mut acc: Vec<Vec<char>> = Vec::new();
    let mut cur: Vec<char> = Vec::new();
    let mut i: usize = 0;
    assert(vecs_view(acc@) =~= Seq::<Seq<char>>::empty());
    assert(cur@ =~= Seq::<char>::empty());
    while i < s.len()
        invariant
            i <= s@.len(),
            lines_from(s@, i as int, cur@, vecs_view(acc@)) == split_lines(s@),
        decreases s.len() - i,
    {
        let c = s[i];
        if c == '\n' {
            let ghost before = vecs_view(acc@);
            let done = cur;
            cur = Vec::new();
            acc.push(done);
            assert(vecs_view(acc@) =~= before.push(done@));
            assert(cur@ =~= Seq::<char>::empty());
        } else {
            cur.push(c);
        }
        i = i + 1;
    }
    let ghost before = vecs_view(acc@);
    let ghost last = cur@;
    acc.push(cur);
    assert(vecs_view(acc@) =~= before.push(last));
    acc
}

/// Parses the text of one class file into the class it declares.
pub fn parse_class(class_string: &str) -> (r: ParserResult<SmaliClass>)
    ensures
        result_view(r) == assemble(split_lines(class_string@)),
{
    let lines = split_line_chars(&chars_of(class_string));
    assemble_chars(&lines)
}

} // verus!
