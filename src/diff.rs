//! The report types of the structural comparison, and the comparison of
//! whole classes.
use crate::diff_vec::{
    diff_method_vec, diff_string_vec, diff_value_vec, method_diffs, missing_interfaces,
    value_diffs,
};
use crate::smali_class::{
    SmaliAccessModifier, SmaliClass, SmaliMethod, SmaliType, SpecClass, SpecMethod, SpecType,
    methods_view, type_eq, opt_string_view, strings_view, types_view,
};
use vstd::prelude::*;

verus! {

/// Which expected differences the comparison leaves unreported.
#[derive(Debug, Clone, Copy, PartialEq, Eq, Structural)]
pub struct DiffPolicy {
    /// Do not report an original `<init>()` that has no exact counterpart.
    pub ignore_default_constructors: bool,
    /// Do not report a super class difference when the original's super
    /// class is `java.lang.Object`.
    pub ignore_object_super: bool,
}

/// How a field of the original differs in the comparison class.
#[derive(Debug)]
pub struct ValueDiff {
    pub name: String,
    /// No field of that name exists in the comparison class.
    pub not_found: bool,
    pub data_type: Option<(SmaliType, SmaliType)>,
    pub access: Option<(SmaliAccessModifier, SmaliAccessModifier)>,
    pub is_static: Option<(bool, bool)>,
}

/// How a method of the original differs in the comparison class.
#[derive(Debug)]
pub struct MethodDiff {
    pub name: String,
    /// The original's parameter types, which tell overloads apart.
    pub parameter_types: Vec<SmaliType>,
    /// No method of that name and parameter types exists in the comparison
    /// class.
    pub not_found: bool,
    /// Original and comparison return types, where only these differ.
    pub return_type: Option<(SmaliType, SmaliType)>,
    /// Comparison methods of the same name, where none has the same
    /// parameter types.
    pub alternatives: Vec<SmaliMethod>,
}

/// The differences between an original class and a comparison class; each
/// field is `None` where the two agree.
#[derive(Debug)]
pub struct ClassDiff {
    pub class_path: Option<(String, String)>,
    pub access: Option<(SmaliAccessModifier, SmaliAccessModifier)>,
    pub is_abstract: Option<(bool, bool)>,
    pub super_path: Option<(Option<String>, Option<String>)>,
    /// Interfaces of the original that the comparison class lacks.
    pub interfaces: Option<Vec<String>>,
    pub values: Option<Vec<ValueDiff>>,
    pub methods: Option<Vec<MethodDiff>>,
}

/// The mathematical value of a [`ValueDiff`].
pub struct SpecValueDiff {
    pub name: Seq<char>,
    pub not_found: bool,
    pub data_type: Option<(SpecType, SpecType)>,
    pub access: Option<(SmaliAccessModifier, SmaliAccessModifier)>,
    pub is_static: Option<(bool, bool)>,
}

/// The mathematical value of a [`MethodDiff`].
pub struct SpecMethodDiff {
    pub name: Seq<char>,
    pub parameter_types: Seq<SpecType>,
    pub not_found: bool,
    pub return_type: Option<(SpecType, SpecType)>,
    pub alternatives: Seq<SpecMethod>,
}

/// The mathematical value of a [`ClassDiff`].
pub struct SpecClassDiff {
    pub class_path: Option<(Seq<char>, Seq<char>)>,
    pub access: Option<(SmaliAccessModifier, SmaliAccessModifier)>,
    pub is_abstract: Option<(bool, bool)>,
    pub super_path: Option<(Option<Seq<char>>, Option<Seq<char>>)>,
    pub interfaces: Option<Seq<Seq<char>>>,
    pub values: Option<Seq<SpecValueDiff>>,
    pub methods: Option<Seq<SpecMethodDiff>>,
}

pub open spec fn type_pair_view(p: Option<(SmaliType, SmaliType)>) -> Option<(SpecType, SpecType)> {
    match p {
        Some((a, b)) => Some((a@, b@)),
        None => None,
    }
}

impl View for ValueDiff {
    type V = SpecValueDiff;

    open spec fn view(&self) -> SpecValueDiff {
        SpecValueDiff {
            name: self.name@,
            not_found: self.not_found,
            data_type: type_pair_view(self.data_type),
            access: self.access,
            is_static: self.is_static,
        }
    }
}

impl View for MethodDiff {
    type V = SpecMethodDiff;

    open spec fn view(&self) -> SpecMethodDiff {
        SpecMethodDiff {
            name: self.name@,
            parameter_types: types_view(self.parameter_types@),
            not_found: self.not_found,
            return_type: type_pair_view(self.return_type),
            alternatives: methods_view(self.alternatives@),
        }
    }
}

pub open spec fn value_diffs_view(ds: Seq<ValueDiff>) -> Seq<SpecValueDiff> {
    ds.map_values(|d: ValueDiff| d@)
}

pub open spec fn method_diffs_view(ds: Seq<MethodDiff>) -> Seq<SpecMethodDiff> {
    ds.map_values(|d: MethodDiff| d@)
}

impl View for ClassDiff {
    type V = SpecClassDiff;

    open spec fn view(&self) -> SpecClassDiff {
        SpecClassDiff {
            class_path: match self.class_path {
                Some((a, b)) => Some((a@, b@)),
                None => None,
            },
            access: self.access,
            is_abstract: self.is_abstract,
            super_path: match self.super_path {
                Some((a, b)) => Some((opt_string_view(a), opt_string_view(b))),
                None => None,
            },
            interfaces: match self.interfaces {
                Some(v) => Some(strings_view(v@)),
                None => None,
            },
            values: match self.values {
                Some(v) => Some(value_diffs_view(v@)),
                None => None,
            },
            methods: match self.methods {
                Some(v) => Some(method_diffs_view(v@)),
                None => None,
            },
        }
    }
}

fn type_pair_eq(a: &Option<(SmaliType, SmaliType)>, b: &Option<(SmaliType, SmaliType)>) -> (r: bool)
    ensures
        r == (type_pair_view(*a) == type_pair_view(*b)),
{
    match (a, b) {
        (Some((a0, a1)), Some((b0, b1))) => type_eq(a0, b0) && type_eq(a1, b1),
        (None, None) => true,
        _ => false,
    }
}

fn access_pair_eq(
    a: &Option<(SmaliAccessModifier, SmaliAccessModifier)>,
    b: &Option<(SmaliAccessModifier, SmaliAccessModifier)>,
) -> (r: bool)
    ensures
        r == (*a == *b),
{
    match (a, b) {
        (Some((a0, a1)), Some((b0, b1))) => *a0 == *b0 && *a1 == *b1,
        (None, None) => true,
        _ => false,
    }
}

fn bool_pair_eq(a: &Option<(bool, bool)>, b: &Option<(bool, bool)>) -> (r: bool)
    ensures
        r == (*a == *b),
{
    match (a, b) {
        (Some((a0, a1)), Some((b0, b1))) => *a0 == *b0 && *a1 == *b1,
        (None, None) => true,
        _ => false,
    }
}

impl PartialEq for ValueDiff {
    fn eq(&self, o: &ValueDiff) -> (r: bool) {
        self.name.eq(&o.name) && self.not_found == o.not_found && type_pair_eq(
            &self.data_type,
            &o.data_type,
        ) && access_pair_eq(&self.access, &o.access) && bool_pair_eq(&self.is_static, &o.is_static)
    }
}

impl vstd::std_specs::cmp::PartialEqSpecImpl for ValueDiff {
    open spec fn obeys_eq_spec() -> bool {
        true
    }

    open spec fn eq_spec(&self, o: &ValueDiff) -> bool {
        self@ == o@
    }
}

impl ValueDiff {
    /// A report for a field found under `name`, with no difference recorded yet.
    pub fn new(name: String) -> (r: Self)
        ensures
            r@ == (SpecValueDiff {
                name: name@,
                not_found: false,
                data_type: None,
                access: None,
                is_static: None,
            }),
    {
        ValueDiff { name, not_found: false, data_type: None, access: None, is_static: None }
    }

    /// A report for a field that the comparison class lacks.
    pub fn not_found(name: String) -> (r: Self)
        ensures
            r@ == (SpecValueDiff {
                name: name@,
                not_found: true,
                data_type: None,
                access: None,
                is_static: None,
            }),
    {
        let mut inst = Self::new(name);
        inst.not_found = true;
        inst
    }
}

impl MethodDiff {
    /// A report for the overload `name(parameter_types)`, with no difference
    /// recorded yet.
    pub fn new(name: String, parameter_types: Vec<SmaliType>) -> (r: Self)
        ensures
            r@ == (SpecMethodDiff {
                name: name@,
                parameter_types: types_view(parameter_types@),
                not_found: false,
                return_type: None,
                alternatives: Seq::empty(),
            }),
    {
        let r = MethodDiff {
            name,
            parameter_types,
            not_found: false,
            return_type: None,
            alternatives: Vec::new(),
        };
        assert(methods_view(r.alternatives@) =~= Seq::empty());
        r
    }

    /// A report for an overload that the comparison class lacks, with the
    /// comparison methods of the same name.
    pub fn not_found(name: String, parameter_types: Vec<SmaliType>, alternatives: Vec<SmaliMethod>) -> (r: Self)
        ensures
            r@ == (SpecMethodDiff {
                name: name@,
                parameter_types: types_view(parameter_types@),
                not_found: true,
                return_type: None,
                alternatives: methods_view(alternatives@),
            }),
    {
        let mut inst = Self::new(name, parameter_types);
        inst.not_found = true;
        inst.alternatives = alternatives;
        inst
    }
}

impl ClassDiff {
    fn new() -> (r: Self)
        ensures
            r@ == no_difference(),
    {
        ClassDiff {
            class_path: None,
            access: None,
            is_abstract: None,
            super_path: None,
            interfaces: None,
            values: None,
            methods: None,
        }
    }
}

pub open spec fn no_difference() -> SpecClassDiff {
    SpecClassDiff {
        class_path: None,
        access: None,
        is_abstract: None,
        super_path: None,
        interfaces: None,
        values: None,
        methods: None,
    }
}

/// A sequence as a report entry: `None` when it is empty.
pub open spec fn nonempty<T>(s: Seq<T>) -> Option<Seq<T>> {
    if s.len() > 0 {
        Some(s)
    } else {
        None
    }
}

/// Whether a super class difference is reported: the two differ, and the
/// policy does not waive it for an original that extends `java.lang.Object`.
pub open spec fn super_reported(o: Option<Seq<char>>, c: Option<Seq<char>>, p: DiffPolicy) -> bool {
    o != c && !(p.ignore_object_super && o == Some("java.lang.Object"@))
}

/// The comparison of an original class with a comparison class.
pub open spec fn class_diff(o: SpecClass, c: SpecClass, p: DiffPolicy) -> SpecClassDiff {
    SpecClassDiff {
        class_path: if o.class_path != c.class_path {
            Some((o.class_path, c.class_path))
        } else {
            None
        },
        access: if o.access != c.access {
            Some((o.access, c.access))
        } else {
            None
        },
        is_abstract: if o.is_abstract != c.is_abstract {
            Some((o.is_abstract, c.is_abstract))
        } else {
            None
        },
        super_path: if super_reported(o.super_path, c.super_path, p) {
            Some((o.super_path, c.super_path))
        } else {
            None
        },
        interfaces: nonempty(missing_interfaces(o.interfaces, c.interfaces)),
        values: nonempty(value_diffs(o.values, c.values)),
        methods: nonempty(method_diffs(o.methods, c.methods, p)),
    }
}

/// The result of a comparison: `None` when nothing is reported.
pub open spec fn diff_result(o: SpecClass, c: SpecClass, p: DiffPolicy) -> Option<SpecClassDiff> {
    if class_diff(o, c, p) == no_difference() {
        None
    } else {
        Some(class_diff(o, c, p))
    }
}

/// Comparing the same two classes under the same policy twice gives the same
/// report: the report depends on the values of its inputs alone.
pub proof fn lemma_diff_repeatable(
    orig: SpecClass,
    cmp: SpecClass,
    policy: DiffPolicy,
    first: Option<SpecClassDiff>,
    second: Option<SpecClassDiff>,
)
    requires
        first == diff_result(orig, cmp, policy),
        second == diff_result(orig, cmp, policy),
    ensures
        first == second,
{
}

fn clone_opt_string(s: &Option<String>) -> (r: Option<String>)
    ensures
        opt_string_view(r) == opt_string_view(*s),
{
    match s {
        Some(x) => Some(x.clone()),
        None => None,
    }
}

fn is_java_object(s: &Option<String>) -> (r: bool)
    ensures
        r == (opt_string_view(*s) == Some("java.lang.Object"@)),
{
    match s {
        Some(x) => x.eq(&String::from_str("java.lang.Object")),
        None => false,
    }
}

/// Compares an original class with a comparison class under `policy`, and
/// returns the report, or `None` where nothing is reported.
pub fn diff(orig: &SmaliClass, cmp: &SmaliClass, policy: DiffPolicy) -> (r: Option<ClassDiff>)
    ensures
        match r {
            Some(d) => diff_result(orig@, cmp@, policy) == Some(d@),
            None => diff_result(orig@, cmp@, policy) is None,
        },
{
    let mut d = ClassDiff::new();
    let mut any = false;
    if !orig.class_path.eq(&cmp.class_path) {
        any = true;
        d.class_path = Some((orig.class_path.clone(), cmp.class_path.clone()));
    }
    if orig.access != cmp.access {
        any = true;
        d.access = Some((orig.access, cmp.access));
    }
    if orig.is_abstract != cmp.is_abstract {
        any = true;
        d.is_abstract = Some((orig.is_abstract, cmp.is_abstract));
    }
    if !crate::smali_class::opt_string_eq(&orig.super_path, &cmp.super_path) && !(
    policy.ignore_object_super && is_java_object(&orig.super_path)) {
        any = true;
        d.super_path = Some((clone_opt_string(&orig.super_path), clone_opt_string(&cmp.super_path)));
    }
    if let Some(v) = diff_string_vec(&orig.interfaces, &cmp.interfaces) {
        any = true;
        d.interfaces = Some(v);
    }
    if let Some(v) = diff_value_vec(&orig.values, &cmp.values) {
        any = true;
        d.values = Some(v);
    }
    if let Some(v) = diff_method_vec(&orig.methods, &cmp.methods, policy) {
        any = true;
        d.methods = Some(v);
    }
    assert(d@ == class_diff(orig@, cmp@, policy));
    assert(any == (class_diff(orig@, cmp@, policy) != no_difference()));
    if any {
        Some(d)
    } else {
        None
    }
}

} // verus!
