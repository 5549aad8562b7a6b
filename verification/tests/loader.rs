use deno_loader_plugin::errors::ResolveError;
use deno_loader_plugin::loader::{load_recognized, resolve_local};
use deno_loader_plugin::provider::{parse_provider_info, MediaType};

const ASSERT_DOC: &str = r#"{
  "redirects": { "jsr:@std/assert": "jsr:@std/assert@1.0.0" },
  "modules": [
    {
      "kind": "esm",
      "local": "/cache/assert.ts",
      "specifier": "jsr:@std/assert@1.0.0",
      "mediaType": "TypeScript"
    }
  ]
}"#;

#[test]
fn recognized_schemes() {
    assert!(load_recognized(&"jsr:@std/assert".to_string()));
    assert!(load_recognized(&"http://example.com/m.ts".to_string()));
    assert!(load_recognized(&"https://example.com/m.ts".to_string()));
}

#[test]
fn unrecognized_scheme_is_unhandled_without_a_provider_run() {
    assert!(!load_recognized(&"left-pad".to_string()));
    assert!(!load_recognized(&"./x.ts".to_string()));
    assert!(!load_recognized(&"file:///x.ts".to_string()));
    assert!(!load_recognized(&"".to_string()));
}

#[test]
fn redirected_specifier_resolves_to_local_path() {
    let info = parse_provider_info(ASSERT_DOC.as_bytes()).unwrap();
    let resolved = resolve_local(&"jsr:@std/assert".to_string(), &info).unwrap();
    assert_eq!(resolved.0, "/cache/assert.ts");
    assert_eq!(resolved.1, MediaType::TypeScript);
}

#[test]
fn final_entry_of_package_variant_has_no_local_path() {
    let doc = r#"{
      "redirects": { "jsr:pkg": "jsr:pkg@1.0.0" },
      "modules": [
        { "kind": "npm", "specifier": "jsr:pkg@1.0.0", "npmPackage": "pkg@1.0.0" }
      ]
    }"#;
    let info = parse_provider_info(doc.as_bytes()).unwrap();
    let resolved = resolve_local(&"jsr:pkg".to_string(), &info);
    assert_eq!(resolved.unwrap_err(), ResolveError::ModuleNotFoundOrNoLocalPath);
}

#[test]
fn missing_final_entry_fails() {
    let doc = r#"{ "redirects": { "jsr:pkg": "jsr:pkg@1.0.0" }, "modules": [] }"#;
    let info = parse_provider_info(doc.as_bytes()).unwrap();
    let resolved = resolve_local(&"jsr:pkg".to_string(), &info);
    assert_eq!(resolved.unwrap_err(), ResolveError::ModuleNotFoundOrNoLocalPath);
}

#[test]
fn cycle_during_load_is_surfaced() {
    let doc = r#"{ "redirects": { "jsr:a": "jsr:b", "jsr:b": "jsr:a" }, "modules": [] }"#;
    let info = parse_provider_info(doc.as_bytes()).unwrap();
    let resolved = resolve_local(&"jsr:a".to_string(), &info);
    assert_eq!(resolved.unwrap_err(), ResolveError::CircularRedirect);
}

#[test]
fn error_descriptions_are_attributable() {
    assert_eq!(
        ResolveError::CircularRedirect.describe(),
        "circular redirect detected"
    );
    assert_eq!(
        ResolveError::ModuleNotFoundOrNoLocalPath.describe(),
        "module not found or has no local path"
    );
}
