use std::str::FromStr;
use ubi::class::parse_line_class;
use ubi::field::parse_line_field;
use ubi::method::{parse_method, parse_type_stream};
use ubi::parser::set_once_or_err;
use ubi::super_p::parse_line_super;
use ubi::util::smali_to_java_path;
use ubi::{ParserError, SmaliAccessModifier, SmaliClass, SmaliType, SmaliValue};

#[test]
fn test_simple() {
    let line = ".class Lbttv/test/Util;";
    let expected = SmaliClass::new("bttv.test.Util".to_string(), SmaliAccessModifier::Package, false);
    assert_eq!(parse_line_class(line).unwrap(), expected);
}

#[test]
fn test_abstract() {
    let line = ".class abstract Lbttv/test/Util;";
    let expected = SmaliClass::new("bttv.test.Util".to_string(), SmaliAccessModifier::Package, true);
    assert_eq!(parse_line_class(line).unwrap(), expected);
}

#[test]
fn field_simple() {
    let input = ".field public mUrlDrawable:Ltv/twitch/android/shared/ui/elements/span/UrlDrawable;";
    let expected = SmaliValue {
        name: "mUrlDrawable".to_string(),
        data_type: SmaliType::Class("tv.twitch.android.shared.ui.elements.span.UrlDrawable".to_string()),
        access: SmaliAccessModifier::Public,
        is_static: false,
        is_final: false,
    };
    let res = parse_line_field(input);
    assert!(res.is_ok());
    assert_eq!(res.unwrap(), expected)
}

#[test]
fn final_static() {
    let input = ".field private final static mUrlDrawable:I";
    let expected = SmaliValue {
        name: "mUrlDrawable".to_string(),
        data_type: SmaliType::Int,
        access: SmaliAccessModifier::Private,
        is_static: true,
        is_final: true,
    };
    let res = parse_line_field(input);
    assert!(res.is_ok());
    assert_eq!(res.unwrap(), expected)
}

#[test]
fn no_param_complex_return() {
    let input = "$values()[Ltv/twitch/android/api/resumewatching/ResumeWatchingApi$VideoType;";
    let res = parse_method(input);
    let (name, params, return_t) = res.unwrap();
    assert_eq!(name, "$values".to_string());
    assert!(params.is_empty());
    assert_eq!(
        return_t,
        SmaliType::Arr(Box::new(SmaliType::Class(
            "tv.twitch.android.api.resumewatching.ResumeWatchingApi$VideoType".to_string()
        )))
    );
}

#[test]
fn method_simple() {
    let input = "VZFDIJ)test";
    let expected = vec![
        SmaliType::Void,
        SmaliType::Boolean,
        SmaliType::Float,
        SmaliType::Double,
        SmaliType::Int,
        SmaliType::Long,
    ];
    let res = parse_type_stream(input).unwrap();
    assert_eq!(res.0, expected);
    assert_eq!(res.1, "test");
}

#[test]
fn simple_arr() {
    let input = "[VZF[DIJ)test";
    let expected = vec![
        SmaliType::Arr(Box::new(SmaliType::Void)),
        SmaliType::Boolean,
        SmaliType::Float,
        SmaliType::Arr(Box::new(SmaliType::Double)),
        SmaliType::Int,
        SmaliType::Long,
    ];
    let res = parse_type_stream(input).unwrap();
    assert_eq!(res.0, expected);
    assert_eq!(res.1, "test");
}

#[test]
fn complex() {
    let input = "[Ltest/test/Test;VZF[DIJLtest/test/Test;)test";
    let expected = vec![
        SmaliType::Arr(Box::new(SmaliType::Class("test.test.Test".to_string()))),
        SmaliType::Void,
        SmaliType::Boolean,
        SmaliType::Float,
        SmaliType::Arr(Box::new(SmaliType::Double)),
        SmaliType::Int,
        SmaliType::Long,
        SmaliType::Class("test.test.Test".to_string()),
    ];
    let res = parse_type_stream(input).unwrap();
    assert_eq!(res.0, expected);
    assert_eq!(res.1, "test");
}

#[test]
fn test_valid() {
    let input = ".super Lbttv/test/Util;";
    let expected = "bttv.test.Util";
    assert_eq!(parse_line_super(input).unwrap(), expected);
}

#[test]
fn test_valid_with_comment() {
    let input = ".super Lbttv/test/Util; #Just ignore me";
    let expected = "bttv.test.Util";
    assert_eq!(parse_line_super(input).unwrap(), expected);
}

#[test]
fn test_invalid() {
    let input = ".super bttv test Util";
    assert!(parse_line_super(input).is_err());
}

#[test]
fn test_smali_to_java_path() {
    assert_eq!(smali_to_java_path("Lbttv/test/Util;").unwrap(), "bttv.test.Util".to_string());
    let s = "bttv/test/Util;";
    match smali_to_java_path(s).unwrap_err() {
        ParserError::InvalidClassPath(token) => assert_eq!(token, s),
        _ => panic!(),
    }
    let s = "Lbttv/test/Util";
    match smali_to_java_path(s).unwrap_err() {
        ParserError::InvalidClassPath(token) => assert_eq!(token, s),
        _ => panic!(),
    }
    let s = "";
    match smali_to_java_path(s).unwrap_err() {
        ParserError::InvalidClassPath(token) => assert_eq!(token, s),
        _ => panic!(),
    }
}

#[test]
fn green() {
    let mut slot = None;
    let value = 5;
    let result = set_once_or_err(&mut slot, value, ParserError::TooManyClasses());
    assert!(result.is_ok());
    assert_eq!(slot, Some(value));
}

#[test]
fn set_before() {
    let prev = Some(10);
    let mut slot = prev;
    let value = 5;
    let err = ParserError::TooManyClasses();
    let result = set_once_or_err(&mut slot, value, err);
    assert!(result.is_err());
    assert!(matches!(result.unwrap_err(), ParserError::TooManyClasses()));
    assert_eq!(slot, prev);
}

#[test]
fn void() {
    let input = "V";
    let expected = SmaliType::Void;
    let res = SmaliType::from_str(input);
    assert!(res.is_ok());
    assert_eq!(res.unwrap(), expected)
}

#[test]
fn arr() {
    let input = "[Lbttv/test/Util;";
    let expected = SmaliType::Arr(Box::new(SmaliType::Class("bttv.test.Util".to_string())));
    let res = SmaliType::from_str(input);
    assert!(res.is_ok());
    assert_eq!(res.unwrap(), expected)
}
