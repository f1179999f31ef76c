use ubi::diff_vec::{diff_string_vec, diff_value_vec};
use ubi::{SmaliAccessModifier, SmaliType, SmaliValue, ValueDiff};

#[test]
fn test_diff_string_vec_none() {
    let a = vec!["a".to_string(), "b".to_string(), "c".to_string()];
    let b = vec!["b".to_string(), "c".to_string(), "a".to_string()];
    assert!(diff_string_vec(&a, &b).is_none());
}

#[test]
fn test_diff_string_vec_some() {
    let a = vec!["a".to_string(), "b".to_string(), "c".to_string()];
    let b = vec!["b".to_string(), "d".to_string()];
    let diff = diff_string_vec(&a, &b);
    assert!(diff.is_some());
    let diff = diff.unwrap();
    assert!(diff.contains(&"a".to_string()));
    assert!(diff.contains(&"c".to_string()));
    assert_eq!(diff.len(), 2);
}

#[test]
fn test_diff_value_vec_none() {
    let v1 = SmaliValue {
        name: "height".to_string(),
        access: SmaliAccessModifier::Package,
        data_type: SmaliType::Double,
        is_final: false,
        is_static: true,
    };
    let v2 = SmaliValue {
        name: "age".to_string(),
        access: SmaliAccessModifier::Public,
        data_type: SmaliType::Int,
        is_final: false,
        is_static: false,
    };
    let a = vec![v2.clone(), v1.clone()];
    let b = vec![v1, v2];
    let diff = diff_value_vec(&a, &b);
    assert!(diff.is_none());
}

#[test]
fn test_diff_value_vec_some() {
    let mut v1 = SmaliValue {
        name: "height".to_string(),
        access: SmaliAccessModifier::Package,
        data_type: SmaliType::Double,
        is_final: false,
        is_static: true,
    };
    let v2 = SmaliValue {
        name: "age".to_string(),
        access: SmaliAccessModifier::Public,
        data_type: SmaliType::Int,
        is_final: false,
        is_static: false,
    };
    let a = vec![v2.clone(), v1.clone()];
    v1.is_static = false;
    v1.data_type = SmaliType::Class("java.lang.Double".to_string());

    let b = vec![v1];
    let diff = diff_value_vec(&a, &b);
    assert!(diff.is_some());
    let diff = diff.unwrap();

    assert_eq!(diff.len(), 2);
    assert!(diff.contains(&ValueDiff::not_found("age".to_string())));
    assert!(diff.contains(&ValueDiff {
        not_found: false,
        name: "height".to_string(),
        access: None,
        is_static: Some((true, false)),
        data_type: Some((SmaliType::Double, SmaliType::Class("java.lang.Double".to_string()))),
    }));
}
