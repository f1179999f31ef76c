//! The class model that parsing produces and the diff engine compares.
use vstd::prelude::*;

verus! {

/// Visibility of a class, field or method; `Package` when no keyword is given.
#[derive(Debug, Clone, Copy, PartialEq, Eq, Structural)]
pub enum SmaliAccessModifier {
    Public,
    Private,
    Protected,
    Package,
}

/// A type as written in a signature token.
#[derive(Debug)]
pub enum SmaliType {
    Void,
    Boolean,
    Float,
    Double,
    Int,
    Long,
    /// An array of the inner type.
    Arr(Box<SmaliType>),
    /// A reference type, by its dotted path.
    Class(String),
}

/// A field declaration.
#[derive(Debug)]
pub struct SmaliValue {
    pub name: String,
    pub data_type: SmaliType,
    pub access: SmaliAccessModifier,
    pub is_static: bool,
    pub is_final: bool,
}

/// A method declaration header.
#[derive(Debug)]
pub struct SmaliMethod {
    pub name: String,
    pub parameter_types: Vec<SmaliType>,
    pub return_type: SmaliType,
    pub access: SmaliAccessModifier,
    pub is_static: bool,
    pub is_final: bool,
}

/// A class with its declared members.
#[derive(Debug)]
pub struct SmaliClass {
    pub class_path: String,
    pub access: SmaliAccessModifier,
    pub is_abstract: bool,
    /// `None` while no `.super` line has been seen.
    pub super_path: Option<String>,
    pub interfaces: Vec<String>,
    pub values: Vec<SmaliValue>,
    pub methods: Vec<SmaliMethod>,
}

/// The mathematical value of a [`SmaliType`].
pub enum SpecType {
    Void,
    Boolean,
    Float,
    Double,
    Int,
    Long,
    Arr(Box<SpecType>),
    Class(Seq<char>),
}

/// The mathematical value of a [`SmaliValue`].
pub struct SpecValue {
    pub name: Seq<char>,
    pub data_type: SpecType,
    pub access: SmaliAccessModifier,
    pub is_static: bool,
    pub is_final: bool,
}

/// The mathematical value of a [`SmaliMethod`].
pub struct SpecMethod {
    pub name: Seq<char>,
    pub parameter_types: Seq<SpecType>,
    pub return_type: SpecType,
    pub access: SmaliAccessModifier,
    pub is_static: bool,
    pub is_final: bool,
}

/// The mathematical value of a [`SmaliClass`].
pub struct SpecClass {
    pub class_path: Seq<char>,
    pub access: SmaliAccessModifier,
    pub is_abstract: bool,
    pub super_path: Option<Seq<char>>,
    pub interfaces: Seq<Seq<char>>,
    pub values: Seq<SpecValue>,
    pub methods: Seq<SpecMethod>,
}

pub open spec fn type_view(t: &SmaliType) -> SpecType
    decreases t,
{
    match t {
        SmaliType::Void => SpecType::Void,
        SmaliType::Boolean => SpecType::Boolean,
        SmaliType::Float => SpecType::Float,
        SmaliType::Double => SpecType::Double,
        SmaliType::Int => SpecType::Int,
        SmaliType::Long => SpecType::Long,
        SmaliType::Arr(inner) => SpecType::Arr(Box::new(type_view(inner))),
        SmaliType::Class(path) => SpecType::Class(path@),
    }
}

impl View for SmaliType {
    type V = SpecType;

    open spec fn view(&self) -> SpecType {
        type_view(self)
    }
}

pub open spec fn types_view(ts: Seq<SmaliType>) -> Seq<SpecType> {
    ts.map_values(|t: SmaliType| t@)
}

pub open spec fn strings_view(ss: Seq<String>) -> Seq<Seq<char>> {
    ss.map_values(|s: String| s@)
}

pub open spec fn values_view(vs: Seq<SmaliValue>) -> Seq<SpecValue> {
    vs.map_values(|v: SmaliValue| v@)
}

pub open spec fn methods_view(ms: Seq<SmaliMethod>) -> Seq<SpecMethod> {
    ms.map_values(|m: SmaliMethod| m@)
}

impl View for SmaliValue {
    type V = SpecValue;

    open spec fn view(&self) -> SpecValue {
        SpecValue {
            name: self.name@,
            data_type: self.data_type@,
            access: self.access,
            is_static: self.is_static,
            is_final: self.is_final,
        }
    }
}

impl View for SmaliMethod {
    type V = SpecMethod;

    open spec fn view(&self) -> SpecMethod {
        SpecMethod {
            name: self.name@,
            parameter_types: types_view(self.parameter_types@),
            return_type: self.return_type@,
            access: self.access,
            is_static: self.is_static,
            is_final: self.is_final,
        }
    }
}

pub open spec fn opt_string_view(s: Option<String>) -> Option<Seq<char>> {
    match s {
        Some(s) => Some(s@),
        None => None,
    }
}

impl View for SmaliClass {
    type V = SpecClass;

    open spec fn view(&self) -> SpecClass {
        SpecClass {
            class_path: self.class_path@,
            access: self.access,
            is_abstract: self.is_abstract,
            super_path: opt_string_view(self.super_path),
            interfaces: strings_view(self.interfaces@),
            values: values_view(self.values@),
            methods: methods_view(self.methods@),
        }
    }
}

/// A class as its declaration line gives it: no super path, no members.
pub open spec fn bare_class(class_path: Seq<char>, access: SmaliAccessModifier, is_abstract: bool) -> SpecClass {
    SpecClass {
        class_path,
        access,
        is_abstract,
        super_path: None,
        interfaces: Seq::empty(),
        values: Seq::empty(),
        methods: Seq::empty(),
    }
}

impl SmaliClass {
    /// A class with no super path and no members yet.
    pub fn new(class_path: String, access: SmaliAccessModifier, is_abstract: bool) -> (r: Self)
        ensures
            r@ == bare_class(class_path@, access, is_abstract),
    {
        let r = SmaliClass {
            class_path,
            access,
            is_abstract,
            super_path: None,
            interfaces: Vec::new(),
            values: Vec::new(),
            methods: Vec::new(),
        };
        assert(r@.interfaces =~= Seq::empty());
        assert(r@.values =~= Seq::empty());
        assert(r@.methods =~= Seq::empty());
        r
    }
}

impl Clone for SmaliType {
    fn clone(&self) -> (r: Self)
        ensures
            r@ == self@,
        decreases self,
    {
        match self {
            SmaliType::Void => SmaliType::Void,
            SmaliType::Boolean => SmaliType::Boolean,
            SmaliType::Float => SmaliType::Float,
            SmaliType::Double => SmaliType::Double,
            SmaliType::Int => SmaliType::Int,
            SmaliType::Long => SmaliType::Long,
            SmaliType::Arr(inner) => SmaliType::Arr(Box::new((**inner).clone())),
            SmaliType::Class(path) => SmaliType::Class(path.clone()),
        }
    }
}

/// Whether two types are the same type.
pub fn type_eq(a: &SmaliType, b: &SmaliType) -> (r: bool)
    ensures
        r == (a@ == b@),
    decreases a,
{
    match (a, b) {
        (SmaliType::Void, SmaliType::Void) => true,
        (SmaliType::Boolean, SmaliType::Boolean) => true,
        (SmaliType::Float, SmaliType::Float) => true,
        (SmaliType::Double, SmaliType::Double) => true,
        (SmaliType::Int, SmaliType::Int) => true,
        (SmaliType::Long, SmaliType::Long) => true,
        (SmaliType::Arr(x), SmaliType::Arr(y)) => {
            let r = type_eq(x, y);
            assert(a@ == SpecType::Arr(Box::new(type_view(x))));
            assert(b@ == SpecType::Arr(Box::new(type_view(y))));
            r
        },
        (SmaliType::Class(x), SmaliType::Class(y)) => x.eq(y),
        _ => {
            assert(a@ != b@);
            false
        },
    }
}

/// Whether two type lists are the same, type by type.
pub fn types_eq(a: &Vec<SmaliType>, b: &Vec<SmaliType>) -> (r: bool)
    ensures
        r == (types_view(a@) == types_view(b@)),
{
    if a.len() != b.len() {
        assert(types_view(a@).len() != types_view(b@).len());
        return false;
    }
    let mut i: usize = 0;
    while i < a.len()
        invariant
            a@.len() == b@.len(),
            i <= a@.len(),
            forall|k: int| 0 <= k < i ==> a@[k]@ == b@[k]@,
        decreases a.len() - i,
    {
        if !type_eq(&a[i], &b[i]) {
            assert(types_view(a@)[i as int] != types_view(b@)[i as int]);
            return false;
        }
        i = i + 1;
    }
    assert(types_view(a@) =~= types_view(b@));
    true
}

/// Whether two string lists are the same, string by string.
pub fn strings_eq(a: &Vec<String>, b: &Vec<String>) -> (r: bool)
    ensures
        r == (strings_view(a@) == strings_view(b@)),
{
    if a.len() != b.len() {
        assert(strings_view(a@).len() != strings_view(b@).len());
        return false;
    }
    let mut i: usize = 0;
    while i < a.len()
        invariant
            a@.len() == b@.len(),
            i <= a@.len(),
            forall|k: int| 0 <= k < i ==> a@[k]@ == b@[k]@,
        decreases a.len() - i,
    {
        if !a[i].eq(&b[i]) {
            assert(strings_view(a@)[i as int] != strings_view(b@)[i as int]);
            return false;
        }
        i = i + 1;
    }
    assert(strings_view(a@) =~= strings_view(b@));
    true
}

/// Whether two optional strings are both absent or both the same string.
pub fn opt_string_eq(a: &Option<String>, b: &Option<String>) -> (r: bool)
    ensures
        r == (opt_string_view(*a) == opt_string_view(*b)),
{
    match (a, b) {
        (Some(x), Some(y)) => x.eq(y),
        (None, None) => true,
        _ => false,
    }
}

pub fn value_eq(a: &SmaliValue, b: &SmaliValue) -> (r: bool)
    ensures
        r == (a@ == b@),
{
    a.name.eq(&b.name) && type_eq(&a.data_type, &b.data_type) && a.access == b.access
        && a.is_static == b.is_static && a.is_final == b.is_final
}

pub fn method_eq(a: &SmaliMethod, b: &SmaliMethod) -> (r: bool)
    ensures
        r == (a@ == b@),
{
    a.name.eq(&b.name) && types_eq(&a.parameter_types, &b.parameter_types) && type_eq(
        &a.return_type,
        &b.return_type,
    ) && a.access == b.access && a.is_static == b.is_static && a.is_final == b.is_final
}

fn values_eq(a: &Vec<SmaliValue>, b: &Vec<SmaliValue>) -> (r: bool)
    ensures
        r == (values_view(a@) == values_view(b@)),
{
    if a.len() != b.len() {
        assert(values_view(a@).len() != values_view(b@).len());
        return false;
    }
    let mut i: usize = 0;
    while i < a.len()
        invariant
            a@.len() == b@.len(),
            i <= a@.len(),
            forall|k: int| 0 <= k < i ==> a@[k]@ == b@[k]@,
        decreases a.len() - i,
    {
        if !value_eq(&a[i], &b[i]) {
            assert(values_view(a@)[i as int] != values_view(b@)[i as int]);
            return false;
        }
        i = i + 1;
    }
    assert(values_view(a@) =~= values_view(b@));
    true
}

fn methods_eq(a: &Vec<SmaliMethod>, b: &Vec<SmaliMethod>) -> (r: bool)
    ensures
        r == (methods_view(a@) == methods_view(b@)),
{
    if a.len() != b.len() {
        assert(methods_view(a@).len() != methods_view(b@).len());
        return false;
    }
    let mut i: usize = 0;
    while i < a.len()
        invariant
            a@.len() == b@.len(),
            i <= a@.len(),
            forall|k: int| 0 <= k < i ==> a@[k]@ == b@[k]@,
        decreases a.len() - i,
    {
        if !method_eq(&a[i], &b[i]) {
            assert(methods_view(a@)[i as int] != methods_view(b@)[i as int]);
            return false;
        }
        i = i + 1;
    }
    assert(methods_view(a@) =~= methods_view(b@));
    true
}

pub fn class_eq(a: &SmaliClass, b: &SmaliClass) -> (r: bool)
    ensures
        r == (a@ == b@),
{
    a.class_path.eq(&b.class_path) && a.access == b.access && a.is_abstract == b.is_abstract
        && opt_string_eq(&a.super_path, &b.super_path) && strings_eq(&a.interfaces, &b.interfaces)
        && values_eq(&a.values, &b.values) && methods_eq(&a.methods, &b.methods)
}

impl PartialEq for SmaliType {
    fn eq(&self, o: &SmaliType) -> (r: bool) {
        type_eq(self, o)
    }
}

impl vstd::std_specs::cmp::PartialEqSpecImpl for SmaliType {
    open spec fn obeys_eq_spec() -> bool {
        true
    }

    open spec fn eq_spec(&self, o: &SmaliType) -> bool {
        self@ == o@
    }
}

impl PartialEq for SmaliValue {
    fn eq(&self, o: &SmaliValue) -> (r: bool) {
        value_eq(self, o)
    }
}

impl vstd::std_specs::cmp::PartialEqSpecImpl for SmaliValue {
    open spec fn obeys_eq_spec() -> bool {
        true
    }

    open spec fn eq_spec(&self, o: &SmaliValue) -> bool {
        self@ == o@
    }
}

impl PartialEq for SmaliMethod {
    fn eq(&self, o: &SmaliMethod) -> (r: bool) {
        method_eq(self, o)
    }
}

impl vstd::std_specs::cmp::PartialEqSpecImpl for SmaliMethod {
    open spec fn obeys_eq_spec() -> bool {
        true
    }

    open spec fn eq_spec(&self, o: &SmaliMethod) -> bool {
        self@ == o@
    }
}

impl PartialEq for SmaliClass {
    fn eq(&self, o: &SmaliClass) -> (r: bool) {
        class_eq(self, o)
    }
}

impl vstd::std_specs::cmp::PartialEqSpecImpl for SmaliClass {
    open spec fn obeys_eq_spec() -> bool {
        true
    }

    open spec fn eq_spec(&self, o: &SmaliClass) -> bool {
        self@ == o@
    }
}

/// A copy of a type list.
pub fn clone_types(ts: &Vec<SmaliType>) -> (r: Vec<SmaliType>)
    ensures
        types_view(r@) == types_view(ts@),
{
    let mut r: Vec<SmaliType> = Vec::new();
    let mut i: usize = 0;
    while i < ts.len()
        invariant
            i <= ts@.len(),
            types_view(r@) == types_view(ts@).take(i as int),
        decreases ts.len() - i,
    {
        let ghost before = types_view(r@);
        let t = ts[i].clone();
        r.push(t);
        assert(types_view(r@) =~= before.push(t@));
        assert(types_view(ts@).take(i + 1) =~= types_view(ts@).take(i as int).push(ts@[i as int]@));
        i = i + 1;
    }
    assert(types_view(ts@).take(ts@.len() as int) =~= types_view(ts@));
    r
}

impl Clone for SmaliValue {
    fn clone(&self) -> (r: Self)
        ensures
            r@ == self@,
    {
        SmaliValue {
            name: self.name.clone(),
            data_type: self.data_type.clone(),
            access: self.access,
            is_static: self.is_static,
            is_final: self.is_final,
        }
    }
}

impl Clone for SmaliMethod {
    fn clone(&self) -> (r: Self)
        ensures
            r@ == self@,
    {
        SmaliMethod {
            name: self.name.clone(),
            parameter_types: clone_types(&self.parameter_types),
            return_type: self.return_type.clone(),
            access: self.access,
            is_static: self.is_static,
            is_final: self.is_final,
        }
    }
}

} // verus!
