use deno_loader_plugin::errors::ResolveError;
use deno_loader_plugin::provider::{interpret_provider_output, parse_provider_info, MediaType, ModuleEntry};

const ASSERT_DOC: &str = r#"{
  "redirects": { "jsr:@std/assert": "jsr:@std/assert@1.0.0" },
  "modules": [
    {
      "kind": "esm",
      "local": "/cache/assert.ts",
      "specifier": "jsr:@std/assert@1.0.0",
      "mediaType": "TypeScript"
    }
  ]
}"#;

#[test]
fn well_formed_response_decodes() {
    let info = parse_provider_info(ASSERT_DOC.as_bytes()).unwrap();
    assert_eq!(info.redirects.len(), 1);
    assert_eq!(info.redirects[0].0, "jsr:@std/assert");
    assert_eq!(info.redirects[0].1, "jsr:@std/assert@1.0.0");
    assert_eq!(info.modules.len(), 1);
    match &info.modules[0] {
        ModuleEntry::Esm { local, specifier, media_type } => {
            assert_eq!(local, "/cache/assert.ts");
            assert_eq!(specifier, "jsr:@std/assert@1.0.0");
            assert_eq!(*media_type, MediaType::TypeScript);
        }
        ModuleEntry::Npm { .. } => panic!("expected a fetched-module entry"),
    }
}

#[test]
fn npm_entry_decodes() {
    let doc = r#"{
      "redirects": {},
      "modules": [
        { "kind": "npm", "specifier": "npm:chalk@5", "npmPackage": "chalk@5.3.0" }
      ]
    }"#;
    let info = parse_provider_info(doc.as_bytes()).unwrap();
    match &info.modules[0] {
        ModuleEntry::Npm { specifier, npm_package } => {
            assert_eq!(specifier, "npm:chalk@5");
            assert_eq!(npm_package, "chalk@5.3.0");
        }
        ModuleEntry::Esm { .. } => panic!("expected a package entry"),
    }
}

#[test]
fn invalid_json_is_malformed() {
    assert_eq!(
        parse_provider_info(b"not json at all").unwrap_err(),
        ResolveError::ProviderMalformedResponse
    );
}

#[test]
fn unknown_module_kind_is_rejected_not_dropped() {
    let doc = r#"{
      "redirects": {},
      "modules": [ { "kind": "wasm", "specifier": "x", "local": "/x" } ]
    }"#;
    assert_eq!(
        parse_provider_info(doc.as_bytes()).unwrap_err(),
        ResolveError::ProviderMalformedResponse
    );
}

#[test]
fn unknown_media_type_is_rejected() {
    let doc = r#"{
      "redirects": {},
      "modules": [
        { "kind": "esm", "local": "/x", "specifier": "x", "mediaType": "Wasm" }
      ]
    }"#;
    assert_eq!(
        parse_provider_info(doc.as_bytes()).unwrap_err(),
        ResolveError::ProviderMalformedResponse
    );
}

#[test]
fn missing_required_field_is_rejected() {
    let doc = r#"{
      "redirects": {},
      "modules": [ { "kind": "esm", "specifier": "x", "mediaType": "TypeScript" } ]
    }"#;
    assert_eq!(
        parse_provider_info(doc.as_bytes()).unwrap_err(),
        ResolveError::ProviderMalformedResponse
    );
}

#[test]
fn non_string_redirect_target_is_rejected() {
    let doc = r#"{ "redirects": { "a": 3 }, "modules": [] }"#;
    assert_eq!(
        parse_provider_info(doc.as_bytes()).unwrap_err(),
        ResolveError::ProviderMalformedResponse
    );
}

#[test]
fn missing_redirects_field_is_rejected() {
    let doc = r#"{ "modules": [] }"#;
    assert_eq!(
        parse_provider_info(doc.as_bytes()).unwrap_err(),
        ResolveError::ProviderMalformedResponse
    );
}

#[test]
fn extra_top_level_fields_are_ignored() {
    let doc = r#"{ "version": 1, "roots": ["r"], "redirects": {}, "modules": [] }"#;
    let info = parse_provider_info(doc.as_bytes()).unwrap();
    assert_eq!(info.redirects.len(), 0);
    assert_eq!(info.modules.len(), 0);
}

#[test]
fn all_media_types_decode() {
    for (tag, mt) in [
        ("TypeScript", MediaType::TypeScript),
        ("Tsx", MediaType::Tsx),
        ("JavaScript", MediaType::JavaScript),
        ("Jsx", MediaType::Jsx),
        ("Json", MediaType::Json),
        ("Dmts", MediaType::Dmts),
        ("Mjs", MediaType::Mjs),
    ] {
        let doc = format!(
            r#"{{ "redirects": {{}}, "modules": [
                {{ "kind": "esm", "local": "/x", "specifier": "x", "mediaType": "{tag}" }}
            ] }}"#
        );
        let info = parse_provider_info(doc.as_bytes()).unwrap();
        match &info.modules[0] {
            ModuleEntry::Esm { media_type, .. } => assert_eq!(*media_type, mt),
            ModuleEntry::Npm { .. } => panic!("expected a fetched-module entry"),
        }
    }
}

#[test]
fn provider_not_spawned_is_unavailable() {
    assert_eq!(
        interpret_provider_output(false, false, b"").unwrap_err(),
        ResolveError::ProviderUnavailable
    );
}

#[test]
fn provider_nonzero_exit_is_failed_not_unhandled() {
    assert_eq!(
        interpret_provider_output(true, false, ASSERT_DOC.as_bytes()).unwrap_err(),
        ResolveError::ProviderFailed
    );
}

#[test]
fn provider_success_decodes_output() {
    let info = interpret_provider_output(true, true, ASSERT_DOC.as_bytes()).unwrap();
    assert_eq!(info.modules.len(), 1);
}
