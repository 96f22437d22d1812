use scaffolder::manifest::{patch_manifest_text, ManifestError};

const BUILD: &str = "webpack --mode production";
const START: &str = "webpack-dev-server --mode development --open --hot";

fn patched(input: &str) -> serde_json::Value {
    let out = patch_manifest_text(input, BUILD, START).expect("patch should succeed");
    serde_json::from_str(&out).expect("patched text should be valid JSON")
}

#[test]
fn patch_creates_scripts_when_missing() {
    let v = patched("{\"name\":\"react-app\",\"version\":\"1.0.0\"}");
    assert_eq!(v["scripts"]["build"], BUILD);
    assert_eq!(v["scripts"]["start"], START);
    // sibling top-level keys are untouched
    assert_eq!(v["name"], "react-app");
    assert_eq!(v["version"], "1.0.0");
    assert_eq!(v.as_object().unwrap().len(), 3);
}

#[test]
fn patch_preserves_fields_off_the_two_target_paths() {
    let input = "{\"name\":\"x\",\"scripts\":{\"test\":\"jest\",\"build\":\"old build\"},\"dependencies\":{\"react\":\"^18\"}}";
    let v = patched(input);
    // the two target paths are overwritten
    assert_eq!(v["scripts"]["build"], BUILD);
    assert_eq!(v["scripts"]["start"], START);
    // everything else is exactly as before
    assert_eq!(v["scripts"]["test"], "jest");
    assert_eq!(v["scripts"].as_object().unwrap().len(), 3);
    assert_eq!(v["name"], "x");
    assert_eq!(v["dependencies"]["react"], "^18");
    assert_eq!(v.as_object().unwrap().len(), 3);
}

#[test]
fn patch_round_trips_through_the_serializer() {
    let input = "{\"name\":\"y\",\"scripts\":{\"start\":\"old\"},\"private\":true,\"count\":3}";
    let out = patch_manifest_text(input, BUILD, START).unwrap();
    // the rewritten text parses, and serializing it again is stable
    let v: serde_json::Value = serde_json::from_str(&out).unwrap();
    let again = serde_json::to_string_pretty(&v).unwrap();
    assert_eq!(out, again);
    assert_eq!(v["private"], true);
    assert_eq!(v["count"], 3);
    assert_eq!(v["scripts"]["build"], BUILD);
    assert_eq!(v["scripts"]["start"], START);
}

#[test]
fn patch_replaces_a_scripts_field_that_is_not_an_object() {
    let v = patched("{\"scripts\":\"broken\",\"name\":\"z\"}");
    assert_eq!(v["scripts"]["build"], BUILD);
    assert_eq!(v["scripts"]["start"], START);
    assert_eq!(v["scripts"].as_object().unwrap().len(), 2);
    assert_eq!(v["name"], "z");
}

#[test]
fn patch_rejects_text_that_is_not_json() {
    let r = patch_manifest_text("not json at all", BUILD, START);
    assert_eq!(r, Err(ManifestError::Parse));
    let r = patch_manifest_text("{\"name\":", BUILD, START);
    assert_eq!(r, Err(ManifestError::Parse));
}

#[test]
fn patch_rejects_a_document_that_is_not_an_object() {
    let r = patch_manifest_text("[1, 2, 3]", BUILD, START);
    assert_eq!(r, Err(ManifestError::NotAnObject));
    let r = patch_manifest_text("\"just a string\"", BUILD, START);
    assert_eq!(r, Err(ManifestError::NotAnObject));
}

#[test]
fn patch_rejects_a_manifest_nested_beyond_the_parser_limit() {
    let mut input = String::new();
    for _ in 0..200 {
        input.push_str("{\"a\":");
    }
    input.push('1');
    for _ in 0..200 {
        input.push('}');
    }
    let r = patch_manifest_text(&input, BUILD, START);
    assert_eq!(r, Err(ManifestError::Parse));
}

#[test]
fn patch_handles_deep_nesting_within_the_parser_limit() {
    let mut input = String::new();
    for _ in 0..100 {
        input.push_str("{\"a\":");
    }
    input.push('1');
    for _ in 0..100 {
        input.push('}');
    }
    let v = patched(&input);
    assert_eq!(v["scripts"]["build"], BUILD);
    assert_eq!(v["scripts"]["start"], START);
    assert!(v["a"].is_object());
}
