use ubi::{parse_line, Line};

#[test]
fn smali_parse_line_class() {
    let res = parse_line(".class public final Ltv/twitch/android/preferences/BooleanDelegate;").unwrap();
    let class = match res {
        Line::Class(class) => class,
        _ => panic!("not a Class"),
    };
    assert_eq!(class.class_path, "tv.twitch.android.preferences.BooleanDelegate");
}

#[test]
fn smali_parse_line_super() {
    let res = parse_line(".super Ltv/twitch/android/preferences/BooleanDelegate;").unwrap();
    let path = match res {
        Line::Super(path) => path,
        _ => panic!("not a Super"),
    };
    assert_eq!(path, "tv.twitch.android.preferences.BooleanDelegate");
}

#[test]
fn smali_parse_line_implements() {
    let res = parse_line(".implements Ltv/twitch/android/preferences/BooleanDelegate;").unwrap();
    let path = match res {
        Line::Implements(path) => path,
        _ => panic!("not an Implements"),
    };
    assert_eq!(path, "tv.twitch.android.preferences.BooleanDelegate");
}

#[test]
fn smali_parse_line_field() {
    let res = parse_line(".field private final test:Z").unwrap();
    let value = match res {
        Line::Value(value) => value,
        _ => panic!("not a Value"),
    };
    assert_eq!(value.name, "test");
    assert_eq!(value.data_type.java_name(), "boolean");
    assert_eq!(value.is_static, false);
}

#[test]
fn parse_line_field_2() {
    let res = parse_line(".field public static final IMAGE_DENSITY_SCALE_2X:F = 2.0f").unwrap();
    let value = match res {
        Line::Value(value) => value,
        _ => panic!("not a Value"),
    };
    assert_eq!(value.name, "IMAGE_DENSITY_SCALE_2X");
    assert_eq!(value.data_type.java_name(), "float");
    assert_eq!(value.is_static, true);
}

#[test]
fn parse_line_method() {
    let s = ".method private final varargs showViews([Landroid/view/View;)V";
    let res = parse_line(s).unwrap();
    let value = match res {
        Line::Method(m) => m,
        _ => panic!("not a Method"),
    };
    assert_eq!(value.name, "showViews");
    let params: Vec<String> = value.parameter_types.iter().map(|t| t.java_name()).collect();
    assert_eq!(params, vec!["Array<android.view.View>"]);
    assert_eq!(value.return_type.java_name(), "void");
}
