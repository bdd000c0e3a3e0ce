use v5gdb::packaging::{
    built_library, cargo_target_args, exit_code, pros_manifest, pros_package, take_field, template_id, FfiTarget,
    JsonValue,
};

fn artifact(name: &str, kinds: &str, files: &str) -> String {
    format!(
        "{{\"reason\":\"compiler-artifact\",\"package_id\":\"x 0.1.0\",\"manifest_path\":\"/w/Cargo.toml\",\
         \"target\":{{\"name\":\"{name}\",\"kind\":[{kinds}],\"crate_types\":[{kinds}],\"src_path\":\"/w/src/lib.rs\"}},\
         \"profile\":{{\"opt_level\":\"3\",\"debuginfo\":0,\"debug_assertions\":false,\"overflow_checks\":false,\"test\":false}},\
         \"features\":[],\"filenames\":[{files}],\"executable\":null,\"fresh\":false}}\n"
    )
}

#[test]
fn target_arguments_and_exit_codes() {
    assert_eq!(cargo_target_args(FfiTarget::Pros), vec!["--target=armv7a-vex-v5", "-Zbuild-std=core", "-Fv5gdb/pros"]);
    assert_eq!(cargo_target_args(FfiTarget::Vexcode), vec!["--target=armv7a-none-eabi", "-Zbuild-std=core"]);
    assert_eq!(exit_code(Some(101)), 101);
    assert_eq!(exit_code(None), 1);
}

#[test]
fn finds_the_last_built_static_library() {
    let mut out = String::new();
    out.push_str("   Compiling v5gdb\n");
    out.push_str(&artifact("v5gdb", "\"lib\"", "\"/t/libv5gdb.rlib\""));
    out.push_str(&artifact("v5gdb", "\"staticlib\"", "\"/t/old/libv5gdb.a\""));
    out.push_str(&artifact("other", "\"staticlib\"", "\"/t/libother.a\""));
    out.push_str(&artifact("v5gdb", "\"staticlib\"", "\"/t/libv5gdb.a\",\"/t/extra\""));
    out.push_str("{\"reason\":\"build-finished\",\"success\":true}\n");
    assert_eq!(built_library(out.as_bytes()), Some(Some("/t/libv5gdb.a".to_string())));
    assert_eq!(built_library(artifact("v5gdb", "\"lib\"", "\"/t/x\"").as_bytes()), Some(None));
    assert_eq!(built_library(b""), Some(None));
    // A static library that names no file.
    assert_eq!(built_library(artifact("v5gdb", "\"staticlib\"", "").as_bytes()), None);
    // Output that is not UTF-8.
    assert_eq!(built_library(&[0xFF, 0xFE, b'\n']), None);
}

fn s(text: &str) -> JsonValue {
    JsonValue::Str(text.to_string())
}

fn obj(entries: Vec<(&str, JsonValue)>) -> JsonValue {
    JsonValue::Object(entries.into_iter().map(|(k, v)| (k.to_string(), v)).collect())
}

fn to_serde(value: JsonValue) -> serde_json::Value {
    match value {
        JsonValue::Null => serde_json::Value::Null,
        JsonValue::Bool(b) => serde_json::Value::Bool(b),
        JsonValue::Number(n) => serde_json::Value::Number(n.parse().unwrap()),
        JsonValue::Str(s) => serde_json::Value::String(s),
        JsonValue::Array(items) => serde_json::Value::Array(items.into_iter().map(to_serde).collect()),
        JsonValue::Object(entries) => serde_json::Value::Object(entries.into_iter().map(|(k, v)| (k, to_serde(v))).collect()),
    }
}

fn cargo_toml() -> JsonValue {
    obj(vec![(
        "package",
        obj(vec![
            ("name", s("v5gdb")),
            ("version", s("0.2.1")),
            (
                "metadata",
                obj(vec![(
                    "pros",
                    obj(vec![
                        ("target", s("v5")),
                        ("supported_kernels", s("^4.1.0")),
                        ("metadata", obj(vec![("origin", s("vexide")), ("rev", JsonValue::Number("3".into()))])),
                    ]),
                )]),
            ),
        ]),
    )])
}

#[test]
fn template_id_and_manifest() {
    assert_eq!(template_id("0.2.1"), "v5gdb@0.2.1");
    let pkg = pros_package(cargo_toml()).unwrap();
    assert_eq!(pkg.version, "0.2.1");
    let files = vec!["firmware/libv5gdb.a".to_string(), "include/v5gdb.h".to_string()];
    let manifest = serde_json::to_string(&to_serde(pros_manifest(pkg, &files))).unwrap();
    assert_eq!(
        manifest,
        "{\"py/object\":\"pros.conductor.templates.external_template.ExternalTemplate\",\"py/state\":{\
         \"metadata\":{\"origin\":\"vexide\",\"rev\":3},\"name\":\"v5gdb\",\"supported_kernels\":\"^4.1.0\",\
         \"system_files\":[\"firmware/libv5gdb.a\",\"include/v5gdb.h\"],\"target\":\"v5\",\"user_files\":[],\
         \"version\":\"0.2.1\"}}"
    );
}

#[test]
fn package_fields_are_picked() {
    // Missing PROS metadata reads as null.
    let bare = obj(vec![("package", obj(vec![("version", s("1.0.0"))]))]);
    let pkg = pros_package(bare).unwrap();
    assert!(matches!(pkg.name, JsonValue::Null));
    assert!(matches!(pkg.target, JsonValue::Null));
    // A version that is not a string, or none at all, gives nothing.
    assert!(pros_package(obj(vec![("package", obj(vec![("version", JsonValue::Number("1".into()))]))])).is_none());
    assert!(pros_package(obj(vec![("package", obj(vec![("name", s("x"))]))])).is_none());
    assert!(pros_package(JsonValue::Array(vec![])).is_none());
    // The first entry of a key counts.
    let twice = obj(vec![("package", obj(vec![("version", s("1")), ("version", s("2"))]))]);
    assert_eq!(pros_package(twice).unwrap().version, "1");
}

#[test]
fn fields_are_taken_out() {
    let mut v = obj(vec![("a", s("x")), ("b", s("y"))]);
    assert!(matches!(take_field(&mut v, "b"), JsonValue::Str(t) if t == "y"));
    assert!(matches!(take_field(&mut v, "b"), JsonValue::Null));
    assert!(matches!(take_field(&mut v, "a"), JsonValue::Str(t) if t == "x"));
    assert!(matches!(take_field(&mut v, "zz"), JsonValue::Null));
}
