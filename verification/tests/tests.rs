use bt_yaml_utils::access::convert_yaml_to_vec_string;
use bt_yaml_utils::access::get_bool;
use bt_yaml_utils::access::get_i32;
use bt_yaml_utils::access::get_u32;
use bt_yaml_utils::loader::get_yaml_from_string;

const YML_CONTENT: &str = "app_name: BACHUETECH AI\nsize: 4000\nnsize: -1\nread_all: true\ntools:\n  - do_math_expressions\n";

const BAD_CONTENT: &str = "just a scalar, not a mapping\n";

#[test]
fn test_load_from_str_success() {
    println!("YAML Content: {:?}", &YML_CONTENT);
    let test_config = get_yaml_from_string(YML_CONTENT);
    println!("YAML: {:?}", &test_config);

    assert_eq!(
        test_config.unwrap().get("app_name").unwrap().as_str().unwrap(),
        "BACHUETECH AI"
    );
}

#[test]
fn test_load_from_str_bad_file() {
    println!("YAML Content: {:?}", &BAD_CONTENT);
    let test_config = get_yaml_from_string(BAD_CONTENT);
    println!("YAML: {:?}", &test_config);

    assert!(test_config.unwrap().get("app_name").is_none());
}

#[test]
fn test_relative_location_vector() {
    let test_config = get_yaml_from_string(YML_CONTENT);
    let y = test_config.unwrap();
    let v = convert_yaml_to_vec_string(y.get("tools").unwrap());

    println!("YAML: {:?}", &v);
    assert_eq!(v.get(0).unwrap(), "do_math_expressions");
}

#[test]
fn test_negative_vector() {
    let test_config = get_yaml_from_string(YML_CONTENT);
    let y = test_config.unwrap();
    let v = convert_yaml_to_vec_string(&y);

    assert_eq!(v.len(), 0);
}

#[test]
fn test_get_u32() {
    let test_config = get_yaml_from_string(YML_CONTENT);
    let y = test_config.unwrap();

    assert_eq!(get_u32(y.get("size"), 0), 4000);
}

#[test]
fn test_get_u32_neg() {
    let test_config = get_yaml_from_string(YML_CONTENT);
    let y = test_config.unwrap();

    assert_eq!(get_u32(y.get("nsize"), 100), 0);
}

#[test]
fn test_get_bool() {
    let test_config = get_yaml_from_string(YML_CONTENT);
    let y = test_config.unwrap();

    assert_eq!(get_bool(y.get("read_all"), false), true);
}

#[test]
fn test_get_negnum_i32() {
    let test_config = get_yaml_from_string(YML_CONTENT);
    let y = test_config.unwrap();
    assert_eq!(get_i32(y.get("nsize"), 0), -1);
}

#[test]
fn test_get_posnum_i32() {
    let test_config = get_yaml_from_string(YML_CONTENT);
    let y = test_config.unwrap();
    assert_eq!(get_i32(y.get("size"), 0), 4000);
}
