use manga_core::error::{ExtractError, Shape};
use manga_core::sandbox::{eval_as, eval_as_obj, eval_value, obj_get, wrap_code, Dynamic};

#[test]
fn test_eval_as() {
    match eval_as::<String>("1 + 1") {
        Ok(_) => assert!(false),
        Err(_e) => assert!(true),
    }
    let result = eval_as::<String>("(1 + 1).toString()").unwrap();
    assert_eq!("2", result);
}

#[test]
fn test_eval_value() {
    let value = eval_value("1 + 1").unwrap();
    assert_eq!(Dynamic::Int(2), value);
}

#[test]
fn test_eval_obj() {
    let code = r#"
        var obj = {
            a: 1,
            b: "b",
            c: {
                c1: true
            },
            d: ["d1"]
        };
        obj
    "#;
    let obj = eval_as_obj(&code).unwrap();
    assert_eq!(1, obj_get(&obj, "a").unwrap().as_int().unwrap());
    assert_eq!(String::from("b"), *obj_get(&obj, "b").unwrap().as_string().unwrap());

    let c = obj_get(&obj, "c").unwrap().as_object().unwrap();
    assert_eq!(true, obj_get(c, "c1").unwrap().as_bool().unwrap());

    let d = obj_get(&obj, "d").unwrap().as_array().unwrap();
    assert_eq!(1, d.len());
    assert_eq!(String::from("d1"), *d[0].as_string().unwrap());
}

#[test]
fn eval_as_typed_reads() {
    assert_eq!(5, eval_as::<i32>("2 + 3").unwrap());
    assert_eq!(true, eval_as::<bool>("1 < 2").unwrap());
    assert!(eval_as::<bool>("1 + 1").is_err());
}

#[test]
fn eval_float_comes_as_bits() {
    let value = eval_value("1.5").unwrap();
    match value {
        Dynamic::Float(bits) => assert_eq!(1.5f64, f64::from_bits(bits)),
        other => panic!("expected a float, got {:?}", other),
    }
}

#[test]
fn eval_failures_are_script_errors() {
    assert_eq!(Err(ExtractError::Script), eval_value("syntax error (").map(|_| 0));
    assert_eq!(Err(ExtractError::Script), eval_value("null").map(|_| 0));
}

#[test]
fn accessors_name_expected_and_actual_shape() {
    let value = eval_value("42").unwrap();
    assert_eq!(
        Err(ExtractError::TypeMismatch(Shape::Str, Shape::Int)),
        value.as_string().map(|_| 0),
    );
    assert_eq!(
        Err(ExtractError::TypeMismatch(Shape::Obj, Shape::Int)),
        value.as_object().map(|_| 0),
    );
}

#[test]
fn missing_object_property_is_none() {
    let obj = eval_as_obj("var o = { a: 1 }; o").unwrap();
    assert!(obj_get(&obj, "missing").is_none());
}

#[test]
fn sandbox_keeps_no_state_between_calls() {
    let _ = eval_value("var persisted = 7; persisted").unwrap();
    assert_eq!(Err(ExtractError::Script), eval_value("persisted").map(|_| 0));
}

#[test]
fn wrap_code_appends_epilogue_on_new_line() {
    let wrapped = wrap_code("var params = {a: 1};", "params");
    assert_eq!("var params = {a: 1};\nparams", wrapped);
    let obj = eval_as_obj(&wrapped).unwrap();
    assert_eq!(1, obj_get(&obj, "a").unwrap().as_int().unwrap());
}
