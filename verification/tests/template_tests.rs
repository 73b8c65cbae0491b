use anchor_idl_kit::errors::IdlError;
use anchor_idl_kit::template::{
    patch_address, resolve_output_path, template_name, Json, JsonMember,
};

fn member(key: &str, value: Json) -> JsonMember {
    JsonMember { key: key.to_string(), value }
}

fn json_eq(a: &Json, b: &Json) -> bool {
    match (a, b) {
        (Json::Null, Json::Null) => true,
        (Json::Bool(x), Json::Bool(y)) => x == y,
        (Json::Num(x), Json::Num(y)) => x == y,
        (Json::Str(x), Json::Str(y)) => x == y,
        (Json::Arr(xs), Json::Arr(ys)) => {
            xs.len() == ys.len() && xs.iter().zip(ys.iter()).all(|(x, y)| json_eq(x, y))
        },
        (Json::Obj(xs), Json::Obj(ys)) => {
            xs.len() == ys.len()
                && xs
                    .iter()
                    .zip(ys.iter())
                    .all(|(x, y)| x.key == y.key && json_eq(&x.value, &y.value))
        },
        _ => false,
    }
}

fn template() -> Json {
    Json::Obj(vec![
        member("name", Json::Str("demo".to_string())),
        member("version", Json::Str("0.1.0".to_string())),
        member("instructions", Json::Arr(vec![Json::Obj(vec![member(
            "name",
            Json::Str("initialize".to_string()),
        )])])),
    ])
}

#[test]
fn patch_adds_address_when_absent() {
    let id = "Prog1111111111111111111111111111111111111111";
    let patched = patch_address(template(), id).unwrap();
    match &patched {
        Json::Obj(ms) => {
            assert_eq!(ms.len(), 4);
            assert_eq!(ms[3].key, "address");
            assert!(json_eq(&ms[3].value, &Json::Str(id.to_string())));
            assert_eq!(ms[0].key, "name");
            assert_eq!(ms[1].key, "version");
            assert_eq!(ms[2].key, "instructions");
            let expected_instructions = Json::Arr(vec![Json::Obj(vec![member(
                "name",
                Json::Str("initialize".to_string()),
            )])]);
            assert!(json_eq(&ms[2].value, &expected_instructions));
        },
        other => panic!("expected an object, got {:?}", json_kind(other)),
    }
}

fn json_kind(j: &Json) -> &'static str {
    match j {
        Json::Null => "null",
        Json::Bool(_) => "bool",
        Json::Num(_) => "number",
        Json::Str(_) => "string",
        Json::Arr(_) => "array",
        Json::Obj(_) => "object",
    }
}

#[test]
fn patch_overwrites_address_in_place() {
    let doc = Json::Obj(vec![
        member("address", Json::Str("old".to_string())),
        member("name", Json::Str("demo".to_string())),
    ]);
    let patched = patch_address(doc, "new1111111111111111111111111111111111111111").unwrap();
    match &patched {
        Json::Obj(ms) => {
            assert_eq!(ms.len(), 2);
            assert_eq!(ms[0].key, "address");
            assert!(json_eq(
                &ms[0].value,
                &Json::Str("new1111111111111111111111111111111111111111".to_string())
            ));
            assert_eq!(ms[1].key, "name");
        },
        other => panic!("expected an object, got {:?}", json_kind(other)),
    }
}

#[test]
fn patching_twice_equals_patching_once() {
    let id = "Prog1111111111111111111111111111111111111111";
    let once = patch_address(template(), id).unwrap();
    let reference = patch_address(template(), id).unwrap();
    let twice = patch_address(once, id).unwrap();
    assert!(json_eq(&twice, &reference));
}

#[test]
fn patch_rejects_non_object_template() {
    let err = patch_address(Json::Arr(vec![]), "id").unwrap_err();
    assert!(matches!(err, IdlError::MalformedTemplate));
    let err = patch_address(Json::Null, "id").unwrap_err();
    assert!(matches!(err, IdlError::MalformedTemplate));
}

#[test]
fn template_name_reads_the_name_member() {
    let name = template_name(&template()).unwrap();
    assert_eq!(name, "demo");
}

#[test]
fn template_without_name_is_rejected() {
    let doc = Json::Obj(vec![member("version", Json::Str("0.1.0".to_string()))]);
    let err = template_name(&doc).unwrap_err();
    assert!(matches!(err, IdlError::MissingProgramName));
}

#[test]
fn template_with_non_string_name_is_rejected() {
    let doc = Json::Obj(vec![member("name", Json::Num("42".to_string()))]);
    let err = template_name(&doc).unwrap_err();
    assert!(matches!(err, IdlError::MissingProgramName));
}

#[test]
fn template_name_of_non_object_is_malformed() {
    let err = template_name(&Json::Str("demo".to_string())).unwrap_err();
    assert!(matches!(err, IdlError::MalformedTemplate));
}

#[test]
fn explicit_output_path_is_used_verbatim() {
    let out = Some("idl/custom.json".to_string());
    let path = resolve_output_path(&out, "/work/prog", "demo");
    assert_eq!(path, "idl/custom.json");
}

#[test]
fn default_output_path_follows_the_convention() {
    let path = resolve_output_path(&None, "/work/prog", "demo");
    assert_eq!(path, "/work/prog/target/idl/demo.json");
}
