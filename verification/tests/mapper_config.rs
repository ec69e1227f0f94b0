use android_pack::config::get_android_app_id;
use android_pack::config::get_android_app_title;
use android_pack::config::get_toml_string;
use android_pack::config::get_toml_string_array;
use android_pack::config::ConfigValue;
use android_pack::errors::Error;
use android_pack::target_map::get_target_android_name;

fn android_table(entries: Vec<(String, ConfigValue)>) -> ConfigValue {
    ConfigValue::Table(vec![(
        "package".to_string(),
        ConfigValue::Table(vec![(
            "metadata".to_string(),
            ConfigValue::Table(vec![("android".to_string(), ConfigValue::Table(entries))]),
        )]),
    )])
}

#[test]
fn mapper_known_triples() {
    assert_eq!(
        get_target_android_name("aarch64-linux-android").unwrap(),
        "arm64-v8a"
    );
    assert_eq!(
        get_target_android_name("armv7-linux-androideabi").unwrap(),
        "armeabi-v7a"
    );
    assert_eq!(get_target_android_name("i686-linux-android").unwrap(), "x86");
}

#[test]
fn mapper_unknown_triple_fails() {
    let r = get_target_android_name("x86_64-linux-android");
    match r {
        Err(Error::UnknownTarget(t)) => assert_eq!(t, "x86_64-linux-android"),
        _ => panic!("expected an unknown-target error"),
    }
}

#[test]
fn config_absent_path_yields_default() {
    let empty = ConfigValue::Table(vec![]);
    assert_eq!(get_android_app_id(&empty), "org.libsdl.app");
    assert_eq!(get_android_app_title(&empty), "Untitled");
    let path = vec!["package", "metadata", "android", "package_name"];
    assert!(get_toml_string(&empty, &path).is_none());
}

#[test]
fn config_present_string_is_returned() {
    let doc = android_table(vec![(
        "package_name".to_string(),
        ConfigValue::Text("com.example.app".to_string()),
    )]);
    assert_eq!(get_android_app_id(&doc), "com.example.app");
}

#[test]
fn config_bool_coerces_to_token() {
    let doc = android_table(vec![
        ("a".to_string(), ConfigValue::Flag(true)),
        ("b".to_string(), ConfigValue::Flag(false)),
    ]);
    let pa = vec!["package", "metadata", "android", "a"];
    let pb = vec!["package", "metadata", "android", "b"];
    assert_eq!(get_toml_string(&doc, &pa).unwrap(), "true");
    assert_eq!(get_toml_string(&doc, &pb).unwrap(), "false");
}

#[test]
fn config_non_table_intermediate_is_absent() {
    let doc = ConfigValue::Table(vec![(
        "package".to_string(),
        ConfigValue::Text("not a table".to_string()),
    )]);
    let path = vec!["package", "metadata", "android", "title"];
    assert!(get_toml_string(&doc, &path).is_none());
    assert_eq!(get_android_app_title(&doc), "Untitled");
}

#[test]
fn config_other_terminal_is_absent() {
    let doc = android_table(vec![("title".to_string(), ConfigValue::Other)]);
    let path = vec!["package", "metadata", "android", "title"];
    assert!(get_toml_string(&doc, &path).is_none());
}

#[test]
fn string_array_present() {
    let doc = android_table(vec![(
        "permissions".to_string(),
        ConfigValue::List(vec![
            ConfigValue::Text("CAMERA".to_string()),
            ConfigValue::Text("INTERNET".to_string()),
        ]),
    )]);
    let path = vec!["package", "metadata", "android", "permissions"];
    let items = get_toml_string_array(&doc, &path).unwrap().unwrap();
    assert_eq!(items, vec!["CAMERA".to_string(), "INTERNET".to_string()]);
}

#[test]
fn string_array_absent_is_none_not_error() {
    let doc = ConfigValue::Table(vec![]);
    let path = vec!["package", "metadata", "android", "permissions"];
    assert!(get_toml_string_array(&doc, &path).unwrap().is_none());
}

#[test]
fn string_array_non_list_terminal_is_none() {
    let doc = android_table(vec![(
        "permissions".to_string(),
        ConfigValue::Text("CAMERA".to_string()),
    )]);
    let path = vec!["package", "metadata", "android", "permissions"];
    assert!(get_toml_string_array(&doc, &path).unwrap().is_none());
}

#[test]
fn string_array_with_non_string_element_is_fatal() {
    let doc = android_table(vec![(
        "permissions".to_string(),
        ConfigValue::List(vec![
            ConfigValue::Text("CAMERA".to_string()),
            ConfigValue::Flag(true),
        ]),
    )]);
    let path = vec!["package", "metadata", "android", "permissions"];
    let r = get_toml_string_array(&doc, &path);
    assert!(matches!(r, Err(Error::MalformedStringArray)));
}
