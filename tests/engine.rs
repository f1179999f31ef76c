use std::str::FromStr;
use ubi::diff_vec::{diff_method_vec, parameter_types_equal};
use ubi::implements::parse_line as parse_line_implements;
use ubi::method::{parse_line as parse_line_method, parse_method};
use ubi::util::{is_access_modifier, is_modifier, parse_data_type, smali_to_java_path, wrap_with_array};
use ubi::{
    assemble_lines, diff, parse_class, parse_line, parse_smali, DiffPolicy, Line, ParserError,
    SmaliAccessModifier, SmaliClass, SmaliMethod, SmaliType, UbiArgs,
};

fn method(name: &str, params: Vec<SmaliType>, ret: SmaliType) -> SmaliMethod {
    SmaliMethod {
        name: name.to_string(),
        parameter_types: params,
        return_type: ret,
        access: SmaliAccessModifier::Package,
        is_static: false,
        is_final: false,
    }
}

fn class_with_methods(methods: Vec<SmaliMethod>) -> SmaliClass {
    let mut c = SmaliClass::new("a.B".to_string(), SmaliAccessModifier::Public, false);
    c.methods = methods;
    c
}

fn arr_int() -> SmaliType {
    SmaliType::Arr(Box::new(SmaliType::Int))
}

const DEFAULT_POLICY: DiffPolicy =
    DiffPolicy { ignore_default_constructors: false, ignore_object_super: false };

#[test]
fn init_with_other_params_is_not_found() {
    let orig = class_with_methods(vec![method("<init>", vec![SmaliType::Int], SmaliType::Void)]);
    let alt = method("<init>", vec![arr_int(), arr_int()], SmaliType::Void);
    let cmp = class_with_methods(vec![alt.clone()]);
    let d = diff(&orig, &cmp, DEFAULT_POLICY).unwrap();
    let methods = d.methods.unwrap();
    assert_eq!(methods.len(), 1);
    assert_eq!(methods[0].name, "<init>");
    assert_eq!(methods[0].parameter_types, vec![SmaliType::Int]);
    assert!(methods[0].not_found);
    assert!(methods[0].return_type.is_none());
    assert_eq!(methods[0].alternatives, vec![alt]);
    assert!(d.class_path.is_none());
    assert!(d.values.is_none());
}

#[test]
fn default_constructor_ignored_by_policy() {
    let orig = class_with_methods(vec![method("<init>", vec![], SmaliType::Void)]);
    let cmp = class_with_methods(vec![method("<init>", vec![arr_int(), arr_int()], SmaliType::Void)]);
    let policy = DiffPolicy { ignore_default_constructors: true, ignore_object_super: false };
    assert!(diff(&orig, &cmp, policy).is_none());
    // without the policy the same pair is reported
    assert!(diff(&orig, &cmp, DEFAULT_POLICY).is_some());
}

#[test]
fn default_constructor_ignored_without_counterpart() {
    let orig = class_with_methods(vec![method("<init>", vec![], SmaliType::Void)]);
    let cmp = class_with_methods(vec![]);
    let policy = DiffPolicy { ignore_default_constructors: true, ignore_object_super: false };
    assert!(diff_method_vec(&orig.methods, &cmp.methods, policy).is_none());
}

#[test]
fn return_type_mismatch_is_recorded() {
    let orig = vec![method("get", vec![SmaliType::Int], SmaliType::Long)];
    let cmp = vec![method("get", vec![SmaliType::Int], SmaliType::Int)];
    let d = diff_method_vec(&orig, &cmp, DEFAULT_POLICY).unwrap();
    assert_eq!(d.len(), 1);
    assert!(!d[0].not_found);
    assert_eq!(d[0].return_type, Some((SmaliType::Long, SmaliType::Int)));
    assert!(d[0].alternatives.is_empty());
}

#[test]
fn method_absent_by_name_has_no_alternatives() {
    let orig = vec![method("onClick", vec![], SmaliType::Void)];
    let cmp = vec![method("other", vec![], SmaliType::Void)];
    let d = diff_method_vec(&orig, &cmp, DEFAULT_POLICY).unwrap();
    assert!(d[0].not_found);
    assert!(d[0].alternatives.is_empty());
}

#[test]
fn exact_method_match_gives_no_report() {
    let orig = vec![method("f", vec![SmaliType::Int], SmaliType::Void)];
    let cmp = vec![
        method("f", vec![SmaliType::Long], SmaliType::Void),
        method("f", vec![SmaliType::Int], SmaliType::Void),
    ];
    assert!(diff_method_vec(&orig, &cmp, DEFAULT_POLICY).is_none());
}

#[test]
fn constructor_markers_agree() {
    let bttv = SmaliType::Class("kotlin.jvm.internal.BTTVDefaultConstructorMarker".to_string());
    let kotlin = SmaliType::Class("kotlin.jvm.internal.DefaultConstructorMarker".to_string());
    assert!(parameter_types_equal(&vec![SmaliType::Int, bttv.clone()], &vec![SmaliType::Int, kotlin.clone()]));
    assert!(!parameter_types_equal(&vec![kotlin], &vec![bttv]));
    assert!(!parameter_types_equal(&vec![SmaliType::Int], &vec![]));
}

#[test]
fn object_super_waived_by_policy() {
    let mut orig = SmaliClass::new("a.B".to_string(), SmaliAccessModifier::Public, false);
    orig.super_path = Some("java.lang.Object".to_string());
    let mut cmp = SmaliClass::new("a.B".to_string(), SmaliAccessModifier::Public, false);
    cmp.super_path = Some("a.Base".to_string());
    let policy = DiffPolicy { ignore_default_constructors: false, ignore_object_super: true };
    assert!(diff(&orig, &cmp, policy).is_none());
    let d = diff(&orig, &cmp, DEFAULT_POLICY).unwrap();
    assert_eq!(d.super_path, Some((Some("java.lang.Object".to_string()), Some("a.Base".to_string()))));
}

#[test]
fn class_attributes_and_interfaces_reported() {
    let mut orig = SmaliClass::new("a.B".to_string(), SmaliAccessModifier::Public, true);
    orig.interfaces = vec!["x.I".to_string(), "x.J".to_string()];
    let mut cmp = SmaliClass::new("a.C".to_string(), SmaliAccessModifier::Package, false);
    cmp.interfaces = vec!["x.J".to_string(), "x.K".to_string()];
    let d = diff(&orig, &cmp, DEFAULT_POLICY).unwrap();
    assert_eq!(d.class_path, Some(("a.B".to_string(), "a.C".to_string())));
    assert_eq!(d.access, Some((SmaliAccessModifier::Public, SmaliAccessModifier::Package)));
    assert_eq!(d.is_abstract, Some((true, false)));
    assert_eq!(d.interfaces, Some(vec!["x.I".to_string()]));
}

#[test]
fn diff_is_repeatable() {
    let orig = class_with_methods(vec![method("<init>", vec![SmaliType::Int], SmaliType::Void)]);
    let cmp = class_with_methods(vec![method("<init>", vec![arr_int()], SmaliType::Void)]);
    let first = diff(&orig, &cmp, DEFAULT_POLICY).unwrap();
    let second = diff(&orig, &cmp, DEFAULT_POLICY).unwrap();
    assert_eq!(format!("{:?}", first), format!("{:?}", second));
}

#[test]
fn identical_classes_have_no_difference() {
    let c = parse_class(".class public Lx/Y;\n.super Ljava/lang/Object;\n.field private a:I\n.method public f(I)V").unwrap();
    let d = parse_class(".class public Lx/Y;\n.super Ljava/lang/Object;\n.field private a:I\n.method public f(I)V").unwrap();
    assert!(diff(&c, &d, DEFAULT_POLICY).is_none());
}

#[test]
fn reference_round_trip() {
    let token = "Lbttv/test/Util$1;";
    let path = smali_to_java_path(token).unwrap();
    assert_eq!(path, "bttv.test.Util$1");
    let encoded = format!("L{};", path.replace('.', "/"));
    assert_eq!(encoded, token);
}

#[test]
fn short_tokens_are_invalid_paths() {
    for s in ["", "L", ";"] {
        match smali_to_java_path(s) {
            Err(ParserError::InvalidClassPath(t)) => assert_eq!(t, s),
            _ => panic!("accepted {:?}", s),
        }
    }
    assert!(matches!(smali_to_java_path("L;"), Err(ParserError::InvalidClassPath(_))));
}

#[test]
fn nested_arrays_and_bad_codes() {
    assert_eq!(
        parse_data_type("[[J").unwrap(),
        SmaliType::Arr(Box::new(SmaliType::Arr(Box::new(SmaliType::Long))))
    );
    match parse_data_type("[Q") {
        Err(ParserError::InvalidClassPath(t)) => assert_eq!(t, "Q"),
        _ => panic!(),
    }
    assert_eq!(parse_data_type("[[J").unwrap().java_name(), "Array<Array<long>>");
    assert_eq!(wrap_with_array("int".to_string(), true), "Array<int>");
    assert_eq!(wrap_with_array("int".to_string(), false), "int");
}

#[test]
fn keywords() {
    assert!(is_access_modifier("protected"));
    assert!(!is_access_modifier("static"));
    assert!(is_modifier("varargs"));
    assert!(is_modifier("public"));
    assert!(!is_modifier("Lfoo;"));
}

#[test]
fn modifiers_only_class_line() {
    let line = ".class public final abstract";
    match parse_line(line) {
        Err(ParserError::MissingClassPath(l)) => assert_eq!(l, line),
        _ => panic!(),
    }
}

#[test]
fn missing_and_invalid_payloads() {
    assert!(matches!(parse_line(".super"), Err(ParserError::MissingSuperPath(_))));
    assert!(matches!(parse_line_implements(".implements #none"), Err(ParserError::MissingInterfacePath(_))));
    assert!(matches!(parse_line(".implements bad"), Err(ParserError::InvalidClassPath(_))));
    assert!(matches!(parse_line(".field private noType"), Err(ParserError::InvalidField())));
    assert!(matches!(parse_line(".field private x:Q"), Err(ParserError::InvalidField())));
    assert!(matches!(parse_line(".method public noParens"), Err(ParserError::InvalidMethod())));
    assert!(matches!(parse_line_method(".method f(I"), Err(ParserError::InvalidMethod())));
    assert!(matches!(parse_line(".method f([)V"), Err(ParserError::InvalidMethod())));
}

#[test]
fn cardinality_errors() {
    assert!(matches!(parse_class(".class La;\n.class Lb;"), Err(ParserError::TooManyClasses())));
    assert!(matches!(parse_class(".class La;\n.super Lb;\n.super Lc;"), Err(ParserError::TooManySupers())));
    assert!(matches!(parse_class(".super Lb;\n.field x:I"), Err(ParserError::MissingClass())));
    assert!(matches!(parse_class(""), Err(ParserError::MissingClass())));
}

#[test]
fn members_are_collected_and_interfaces_deduplicated() {
    let text = "    .method public static f([[ILjava/lang/String;)Z\n.implements La/I;\n.class Lx/Y;\n.implements La/I;\n.field a:J\n    .end method\n.method constructor <init>()V # ctor";
    let c = parse_class(text).unwrap();
    assert_eq!(c.interfaces, vec!["a.I".to_string()]);
    assert_eq!(c.values.len(), 1);
    assert_eq!(c.values[0].data_type, SmaliType::Long);
    assert_eq!(c.methods.len(), 2);
    assert_eq!(c.methods[0].name, "f");
    assert!(c.methods[0].is_static);
    assert_eq!(c.methods[0].access, SmaliAccessModifier::Public);
    assert_eq!(
        c.methods[0].parameter_types,
        vec![
            SmaliType::Arr(Box::new(arr_int())),
            SmaliType::Class("java.lang.String".to_string())
        ]
    );
    assert_eq!(c.methods[0].return_type, SmaliType::Boolean);
    assert_eq!(c.methods[1].name, "<init>");
    assert!(c.methods[1].parameter_types.is_empty());
}

#[test]
fn lines_and_fragments_agree() {
    let lines = vec![".class Lp/Q;".to_string(), ".super Ljava/lang/Object;".to_string(), ".field b:Z".to_string()];
    let a = parse_smali(&lines).unwrap();
    let fragments: Vec<Line> = lines.iter().map(|l| parse_line(l).unwrap()).collect();
    let b = assemble_lines(fragments).unwrap();
    assert_eq!(a, b);
    assert_eq!(a.super_path, Some("java.lang.Object".to_string()));
}

#[test]
fn args_select_policy() {
    let args = UbiArgs {
        baksmali_path: String::new(),
        dx_path: String::new(),
        mod_dir: String::new(),
        disass_dir: String::new(),
        no_diff: false,
        ignore_default_constructors: true,
        ignore_object_super: false,
    };
    assert_eq!(args.policy(), DiffPolicy { ignore_default_constructors: true, ignore_object_super: false });
}

#[test]
fn access_keywords_parse() {
    assert_eq!(SmaliAccessModifier::from_str("private"), Ok(SmaliAccessModifier::Private));
    assert_eq!(SmaliAccessModifier::from_str("static"), Err(()));
}

#[test]
fn empty_names_are_rejected() {
    assert!(matches!(parse_line(".field private :I"), Err(ParserError::InvalidField())));
    assert!(matches!(parse_line(".method public (I)V"), Err(ParserError::InvalidMethod())));
    assert!(matches!(parse_method("(I)V"), Err(ParserError::InvalidMethod())));
}

#[test]
fn reference_body_holds_no_semicolon() {
    match smali_to_java_path("La;b;") {
        Err(ParserError::InvalidClassPath(t)) => assert_eq!(t, "La;b;"),
        _ => panic!(),
    }
    assert!(SmaliType::from_str("[La;b;").is_err());
    assert_eq!(SmaliType::from_str("[Lbttv/test/Util;").unwrap().java_name(), "Array<bttv.test.Util>");
}
