//! Comparison of the member lists of two classes.
use crate::diff::{DiffPolicy, MethodDiff, SpecMethodDiff, SpecValueDiff, ValueDiff, method_diffs_view, value_diffs_view};
use crate::smali_class::{
    SmaliMethod, SmaliType, SmaliValue, SpecMethod, SpecType, SpecValue, clone_types,
    methods_view, strings_view, type_eq, types_view, values_view,
};
use vstd::prelude::*;

verus! {

/// The entries of `o` that `c` does not hold, in order.
pub open spec fn missing_interfaces(o: Seq<Seq<char>>, c: Seq<Seq<char>>) -> Seq<Seq<char>>
    decreases o.len(),
{
    if o.len() == 0 {
        Seq::empty()
    } else {
        let r = missing_interfaces(o.drop_last(), c);
        if c.contains(o.last()) {
            r
        } else {
            r.push(o.last())
        }
    }
}

fn contains_str(v: &Vec<String>, s: &String) -> (r: bool)
    ensures
        r == strings_view(v@).contains(s@),
{
    let mut i: usize = 0;
    while i < v.len()
        invariant
            i <= v@.len(),
            forall|k: int| 0 <= k < i ==> v@[k]@ != s@,
        decreases v.len() - i,
    {
        if v[i].eq(s) {
            assert(strings_view(v@)[i as int] == s@);
            return true;
        }
        i = i + 1;
    }
    assert(!strings_view(v@).contains(s@)) by {
        if strings_view(v@).contains(s@) {
            let k = choose|k: int| 0 <= k < strings_view(v@).len() && strings_view(v@)[k] == s@;
            assert(v@[k]@ == s@);
        }
    }
    false
}

/// The strings of `orig` that `cmp` does not hold, in order, or `None` when
/// there are none.
pub fn diff_string_vec(orig: &Vec<String>, cmp: &Vec<String>) -> (r: Option<Vec<String>>)
    ensures
        match r {
            Some(v) => strings_view(v@) == missing_interfaces(strings_view(orig@), strings_view(cmp@))
                && v@.len() > 0,
            None => missing_interfaces(strings_view(orig@), strings_view(cmp@)).len() == 0,
        },
{
    let ghost o = strings_view(orig@);
    let ghost c = strings_view(cmp@);
    let mut v: Vec<String> = Vec::new();
    let mut i: usize = 0;
    assert(strings_view(v@) =~= Seq::<Seq<char>>::empty());
    while i < orig.len()
        invariant
            i <= orig@.len(),
            o == strings_view(orig@),
            c == strings_view(cmp@),
            strings_view(v@) == missing_interfaces(o.take(i as int), c),
        decreases orig.len() - i,
    {
        let ghost before = strings_view(v@);
        assert(o.take(i + 1).drop_last() =~= o.take(i as int));
        assert(o.take(i + 1).last() == orig@[i as int]@);
        if !contains_str(cmp, &orig[i]) {
            v.push(orig[i].clone());
            assert(strings_view(v@) =~= before.push(orig@[i as int]@));
        }
        i = i + 1;
    }
    assert(o.take(orig@.len() as int) =~= o);
    if v.len() == 0 {
        None
    } else {
        Some(v)
    }
}

/// The index of the first entry of `cs` at or after `j` named `name`.
pub open spec fn find_value(cs: Seq<SpecValue>, name: Seq<char>, j: int) -> Option<int>
    decreases cs.len() - j,
{
    if j < 0 || j >= cs.len() {
        None
    } else if cs[j].name == name {
        Some(j)
    } else {
        find_value(cs, name, j + 1)
    }
}

/// The report for one field of the original: none when a field of the same
/// name agrees in type, static flag and visibility, the differing attributes
/// when it does not, and `not_found` when there is no field of that name.
pub open spec fn value_diff(v: SpecValue, cs: Seq<SpecValue>) -> Option<SpecValueDiff> {
    match find_value(cs, v.name, 0) {
        None => Some(
            SpecValueDiff {
                name: v.name,
                not_found: true,
                data_type: None,
                access: None,
                is_static: None,
            },
        ),
        Some(j) => {
            let c = cs[j];
            if c.data_type == v.data_type && c.is_static == v.is_static && c.access == v.access {
                None
            } else {
                Some(
                    SpecValueDiff {
                        name: v.name,
                        not_found: false,
                        data_type: if c.data_type != v.data_type {
                            Some((v.data_type, c.data_type))
                        } else {
                            None
                        },
                        access: if c.access != v.access {
                            Some((v.access, c.access))
                        } else {
                            None
                        },
                        is_static: if c.is_static != v.is_static {
                            Some((v.is_static, c.is_static))
                        } else {
                            None
                        },
                    },
                )
            }
        },
    }
}

/// The reports for the fields of `o`, in order.
pub open spec fn value_diffs(o: Seq<SpecValue>, cs: Seq<SpecValue>) -> Seq<SpecValueDiff>
    decreases o.len(),
{
    if o.len() == 0 {
        Seq::empty()
    } else {
        let r = value_diffs(o.drop_last(), cs);
        match value_diff(o.last(), cs) {
            Some(d) => r.push(d),
            None => r,
        }
    }
}

fn find_value_exec(cs: &Vec<SmaliValue>, name: &String) -> (r: Option<usize>)
    ensures
        match r {
            Some(j) => find_value(values_view(cs@), name@, 0) == Some(j as int) && j < cs@.len(),
            None => find_value(values_view(cs@), name@, 0) is None,
        },
{
    let mut j: usize = 0;
    while j < cs.len()
        invariant
            j <= cs@.len(),
            find_value(values_view(cs@), name@, 0) == find_value(values_view(cs@), name@, j as int),
        decreases cs.len() - j,
    {
        assert(values_view(cs@)[j as int] == cs@[j as int]@);
        if cs[j].name.eq(name) {
            return Some(j);
        }
        j = j + 1;
    }
    None
}

fn diff_one_value(v: &SmaliValue, cs: &Vec<SmaliValue>) -> (r: Option<ValueDiff>)
    ensures
        match r {
            Some(d) => value_diff(v@, values_view(cs@)) == Some(d@),
            None => value_diff(v@, values_view(cs@)) is None,
        },
{
    match find_value_exec(cs, &v.name) {
        None => Some(ValueDiff::not_found(v.name.clone())),
        Some(j) => {
            let c = &cs[j];
            assert(values_view(cs@)[j as int] == c@);
            let same_type = type_eq(&c.data_type, &v.data_type);
            if same_type && c.is_static == v.is_static && c.access == v.access {
                None
            } else {
                let mut d = ValueDiff::new(v.name.clone());
                if !same_type {
                    d.data_type = Some((v.data_type.clone(), c.data_type.clone()));
                }
                if c.access != v.access {
                    d.access = Some((v.access, c.access));
                }
                if c.is_static != v.is_static {
                    d.is_static = Some((v.is_static, c.is_static));
                }
                Some(d)
            }
        },
    }
}

/// The reports for the fields of `orig` against those of `cmp`, in order,
/// or `None` when there are none.
pub fn diff_value_vec(orig: &Vec<SmaliValue>, cmp: &Vec<SmaliValue>) -> (r: Option<Vec<ValueDiff>>)
    ensures
        match r {
            Some(v) => value_diffs_view(v@) == value_diffs(values_view(orig@), values_view(cmp@))
                && v@.len() > 0,
            None => value_diffs(values_view(orig@), values_view(cmp@)).len() == 0,
        },
{
    let ghost o = values_view(orig@);
    let ghost c = values_view(cmp@);
    let mut v: Vec<ValueDiff> = Vec::new();
    let mut i: usize = 0;
    assert(value_diffs_view(v@) =~= Seq::<SpecValueDiff>::empty());
    while i < orig.len()
        invariant
            i <= orig@.len(),
            o == values_view(orig@),
            c == values_view(cmp@),
            value_diffs_view(v@) == value_diffs(o.take(i as int), c),
        decreases orig.len() - i,
    {
        let ghost before = value_diffs_view(v@);
        assert(o.take(i + 1).drop_last() =~= o.take(i as int));
        assert(o.take(i + 1).last() == orig@[i as int]@);
        if let Some(d) = diff_one_value(&orig[i], cmp) {
            let ghost dv = d@;
            v.push(d);
            assert(value_diffs_view(v@) =~= before.push(dv));
        }
        i = i + 1;
    }
    assert(o.take(orig@.len() as int) =~= o);
    if v.len() == 0 {
        None
    } else {
        Some(v)
    }
}

/// Two parameter types agree when they are equal, or when the original has
/// the default-constructor marker of one toolchain where the comparison has
/// that of the other.
pub open spec fn param_type_agrees(a: SpecType, b: SpecType) -> bool {
    a == b || (a == SpecType::Class("kotlin.jvm.internal.BTTVDefaultConstructorMarker"@) && b
        == SpecType::Class("kotlin.jvm.internal.DefaultConstructorMarker"@))
}

/// Whether two parameter lists agree position by position.
pub open spec fn params_agree(a: Seq<SpecType>, b: Seq<SpecType>) -> bool {
    a.len() == b.len() && forall|i: int| 0 <= i < a.len() ==> param_type_agrees(a[i], b[i])
}

fn param_type_agrees_exec(a: &SmaliType, b: &SmaliType) -> (r: bool)
    ensures
        r == param_type_agrees(a@, b@),
{
    if type_eq(a, b) {
        return true;
    }
    match (a, b) {
        (SmaliType::Class(x), SmaliType::Class(y)) => x.eq(
            &String::from_str("kotlin.jvm.internal.BTTVDefaultConstructorMarker"),
        ) && y.eq(&String::from_str("kotlin.jvm.internal.DefaultConstructorMarker")),
        _ => false,
    }
}

/// Whether two parameter lists agree position by position, a type equal to
/// its counterpart or the one toolchain's default-constructor marker against
/// the other's.
pub fn parameter_types_equal(mods: &Vec<SmaliType>, disass: &Vec<SmaliType>) -> (r: bool)
    ensures
        r == params_agree(types_view(mods@), types_view(disass@)),
{
    if mods.len() != disass.len() {
        return false;
    }
    let mut i: usize = 0;
    while i < mods.len()
        invariant
            mods@.len() == disass@.len(),
            i <= mods@.len(),
            forall|k: int|
                0 <= k < i ==> param_type_agrees(
                    #[trigger] types_view(mods@)[k],
                    types_view(disass@)[k],
                ),
        decreases mods.len() - i,
    {
        if !param_type_agrees_exec(&mods[i], &disass[i]) {
            assert(!param_type_agrees(types_view(mods@)[i as int], types_view(disass@)[i as int]));
            return false;
        }
        i = i + 1;
    }
    true
}

/// Whether `c` is the overload `m` names, and, when `exact`, has its return
/// type too.
pub open spec fn matches_method(m: SpecMethod, c: SpecMethod, exact: bool) -> bool {
    c.name == m.name && params_agree(m.parameter_types, c.parameter_types) && (!exact
        || c.return_type == m.return_type)
}

pub open spec fn find_method(cs: Seq<SpecMethod>, m: SpecMethod, exact: bool, j: int) -> Option<int>
    decreases cs.len() - j,
{
    if j < 0 || j >= cs.len() {
        None
    } else if matches_method(m, cs[j], exact) {
        Some(j)
    } else {
        find_method(cs, m, exact, j + 1)
    }
}

/// The entries of `cs` named `name`, in order.
pub open spec fn same_name(cs: Seq<SpecMethod>, name: Seq<char>) -> Seq<SpecMethod>
    decreases cs.len(),
{
    if cs.len() == 0 {
        Seq::empty()
    } else {
        let r = same_name(cs.drop_last(), name);
        if cs.last().name == name {
            r.push(cs.last())
        } else {
            r
        }
    }
}

pub open spec fn is_default_constructor(m: SpecMethod) -> bool {
    m.name == "<init>"@ && m.parameter_types.len() == 0
}

/// The report for one method of the original: none when the policy waives a
/// default constructor or when the comparison holds the same overload with
/// the same return type; the return types when only they differ; else
/// `not_found`, with the comparison methods of the same name.
pub open spec fn method_diff(m: SpecMethod, cs: Seq<SpecMethod>, p: DiffPolicy) -> Option<SpecMethodDiff> {
    if p.ignore_default_constructors && is_default_constructor(m) {
        None
    } else if find_method(cs, m, true, 0) is Some {
        None
    } else {
        match find_method(cs, m, false, 0) {
            Some(j) => Some(
                SpecMethodDiff {
                    name: m.name,
                    parameter_types: m.parameter_types,
                    not_found: false,
                    return_type: Some((m.return_type, cs[j].return_type)),
                    alternatives: Seq::empty(),
                },
            ),
            None => Some(
                SpecMethodDiff {
                    name: m.name,
                    parameter_types: m.parameter_types,
                    not_found: true,
                    return_type: None,
                    alternatives: same_name(cs, m.name),
                },
            ),
        }
    }
}

/// The reports for the methods of `o`, in order.
pub open spec fn method_diffs(o: Seq<SpecMethod>, cs: Seq<SpecMethod>, p: DiffPolicy) -> Seq<SpecMethodDiff>
    decreases o.len(),
{
    if o.len() == 0 {
        Seq::empty()
    } else {
        let r = method_diffs(o.drop_last(), cs, p);
        match method_diff(o.last(), cs, p) {
            Some(d) => r.push(d),
            None => r,
        }
    }
}

fn find_method_exec(cs: &Vec<SmaliMethod>, m: &SmaliMethod, exact: bool) -> (r: Option<usize>)
    ensures
        match r {
            Some(j) => find_method(methods_view(cs@), m@, exact, 0) == Some(j as int) && j < cs@.len(),
            None => find_method(methods_view(cs@), m@, exact, 0) is None,
        },
{
    let mut j: usize = 0;
    while j < cs.len()
        invariant
            j <= cs@.len(),
            find_method(methods_view(cs@), m@, exact, 0) == find_method(
                methods_view(cs@),
                m@,
                exact,
                j as int,
            ),
        decreases cs.len() - j,
    {
        let c = &cs[j];
        assert(methods_view(cs@)[j as int] == c@);
        if c.name.eq(&m.name) && parameter_types_equal(&m.parameter_types, &c.parameter_types) && (
        !exact || type_eq(&c.return_type, &m.return_type)) {
            return Some(j);
        }
        j = j + 1;
    }
    None
}

fn same_name_exec(cs: &Vec<SmaliMethod>, name: &String) -> (r: Vec<SmaliMethod>)
    ensures
        methods_view(r@) == same_name(methods_view(cs@), name@),
{
    let ghost all = methods_view(cs@);
    let mut r: Vec<SmaliMethod> = Vec::new();
    let mut i: usize = 0;
    assert(methods_view(r@) =~= Seq::<SpecMethod>::empty());
    while i < cs.len()
        invariant
            i <= cs@.len(),
            all == methods_view(cs@),
            methods_view(r@) == same_name(all.take(i as int), name@),
        decreases cs.len() - i,
    {
        let ghost before = methods_view(r@);
        assert(all.take(i + 1).drop_last() =~= all.take(i as int));
        assert(all.take(i + 1).last() == cs@[i as int]@);
        if cs[i].name.eq(name) {
            let c = cs[i].clone();
            r.push(c);
            assert(methods_view(r@) =~= before.push(cs@[i as int]@));
        }
        i = i + 1;
    }
    assert(all.take(cs@.len() as int) =~= all);
    r
}

fn diff_one_method(m: &SmaliMethod, cs: &Vec<SmaliMethod>, policy: DiffPolicy) -> (r: Option<MethodDiff>)
    ensures
        match r {
            Some(d) => method_diff(m@, methods_view(cs@), policy) == Some(d@),
            None => method_diff(m@, methods_view(cs@), policy) is None,
        },
{
    if policy.ignore_default_constructors && m.parameter_types.len() == 0 && m.name.eq(
        &String::from_str("<init>"),
    ) {
        return None;
    }
    if find_method_exec(cs, m, true).is_some() {
        return None;
    }
    match find_method_exec(cs, m, false) {
        Some(j) => {
            assert(methods_view(cs@)[j as int] == cs@[j as int]@);
            let mut d = MethodDiff::new(m.name.clone(), clone_types(&m.parameter_types));
            d.return_type = Some((m.return_type.clone(), cs[j].return_type.clone()));
            Some(d)
        },
        None => Some(
            MethodDiff::not_found(
                m.name.clone(),
                clone_types(&m.parameter_types),
                same_name_exec(cs, &m.name),
            ),
        ),
    }
}

/// The reports for the methods of `orig` against those of `cmp` under
/// `policy`, in order, or `None` when there are none.
pub fn diff_method_vec(orig: &Vec<SmaliMethod>, cmp: &Vec<SmaliMethod>, policy: DiffPolicy) -> (r: Option<Vec<MethodDiff>>)
    ensures
        match r {
            Some(v) => method_diffs_view(v@) == method_diffs(
                methods_view(orig@),
                methods_view(cmp@),
                policy,
            ) && v@.len() > 0,
            None => method_diffs(methods_view(orig@), methods_view(cmp@), policy).len() == 0,
        },
{
    let ghost o = methods_view(orig@);
    let ghost c = methods_view(cmp@);
    let mut v: Vec<MethodDiff> = Vec::new();
    let mut i: usize = 0;
    assert(method_diffs_view(v@) =~= Seq::<SpecMethodDiff>::empty());
    while i < orig.len()
        invariant
            i <= orig@.len(),
            o == methods_view(orig@),
            c == methods_view(cmp@),
            method_diffs_view(v@) == method_diffs(o.take(i as int), c, policy),
        decreases orig.len() - i,
    {
        let ghost before = method_diffs_view(v@);
        assert(o.take(i + 1).drop_last() =~= o.take(i as int));
        assert(o.take(i + 1).last() == orig@[i as int]@);
        if let Some(d) = diff_one_method(&orig[i], cmp, policy) {
            let ghost dv = d@;
            v.push(d);
            assert(method_diffs_view(v@) =~= before.push(dv));
        }
        i = i + 1;
    }
    assert(o.take(orig@.len() as int) =~= o);
    if v.len() == 0 {
        None
    } else {
        Some(v)
    }
}

} // verus!
