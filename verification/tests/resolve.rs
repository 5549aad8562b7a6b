use deno_loader_plugin::errors::ResolveError;
use deno_loader_plugin::imports::ImportMap;
use deno_loader_plugin::provider::{parse_provider_info, ProviderInfo};
use deno_loader_plugin::resolver::{
    finish_jsr, finish_npm, finish_with_provider, DenoLoaderPlugin, ResolutionStep,
    ResolvedOutcome,
};
use deno_loader_plugin::text::package_name;

fn default_plugin() -> DenoLoaderPlugin {
    DenoLoaderPlugin::default()
}

fn npm_doc(npm_package: &str) -> ProviderInfo {
    let doc = format!(
        r#"{{
          "redirects": {{ "npm:chalk": "npm:chalk@5" }},
          "modules": [
            {{ "kind": "npm", "specifier": "npm:chalk@5", "npmPackage": "{npm_package}" }}
          ]
        }}"#
    );
    parse_provider_info(doc.as_bytes()).unwrap()
}

#[test]
fn scoped_package_name_keeps_scope() {
    assert_eq!(package_name("@scope/pkg@1.2.3"), "@scope/pkg");
}

#[test]
fn plain_package_name_drops_version() {
    assert_eq!(package_name("pkg@1.2.3"), "pkg");
}

#[test]
fn package_name_without_version_is_unchanged() {
    assert_eq!(package_name("@scope/pkg"), "@scope/pkg");
}

#[test]
fn rewrite_matches_alias() {
    let plugin = default_plugin();
    let rewritten = plugin.import_map.rewrite(&"@std/assert".to_string(), None);
    assert_eq!(rewritten, "jsr:@std/assert");
}

#[test]
fn rewrite_is_idempotent_on_non_alias() {
    let plugin = default_plugin();
    let x = "left-pad".to_string();
    let once = plugin.import_map.rewrite(&x, None);
    let twice = plugin.import_map.rewrite(&once, None);
    assert_eq!(once, x);
    assert_eq!(twice, once);
}

#[test]
fn relative_specifier_resolves_against_importer() {
    let map = ImportMap::new(Vec::new());
    let importer = "file:///proj/a.ts".to_string();
    let rewritten = map.rewrite(&"./x.ts".to_string(), Some(&importer));
    assert_eq!(rewritten, "/proj/x.ts");
}

#[test]
fn relative_specifier_against_remote_importer_stays_a_url() {
    let map = ImportMap::new(Vec::new());
    let importer = "https://example.com/a/b.ts".to_string();
    let rewritten = map.rewrite(&"./c.ts".to_string(), Some(&importer));
    assert_eq!(rewritten, "https://example.com/a/c.ts");
}

#[test]
fn relative_specifier_without_importer_passes_through() {
    let map = ImportMap::new(Vec::new());
    let rewritten = map.rewrite(&"./x.ts".to_string(), None);
    assert_eq!(rewritten, "./x.ts");
}

#[test]
fn plan_dispatches_alias_to_provider() {
    let plugin = default_plugin();
    let step = plugin.plan_resolve(&"@std/assert".to_string(), None);
    assert!(matches!(step, ResolutionStep::ProviderJsr(s) if s == "jsr:@std/assert"));
}

#[test]
fn plan_passes_network_urls_through() {
    let plugin = default_plugin();
    let step = plugin.plan_resolve(&"https://example.com/m.ts".to_string(), None);
    assert!(matches!(step, ResolutionStep::Passthrough(s) if s == "https://example.com/m.ts"));
}

#[test]
fn plan_sends_npm_to_provider() {
    let plugin = default_plugin();
    let step = plugin.plan_resolve(&"npm:chalk".to_string(), None);
    assert!(matches!(step, ResolutionStep::ProviderNpm(s) if s == "npm:chalk"));
}

#[test]
fn plan_leaves_bare_names_unhandled() {
    let plugin = default_plugin();
    let step = plugin.plan_resolve(&"left-pad".to_string(), None);
    assert!(matches!(step, ResolutionStep::Unhandled));
}

#[test]
fn finish_jsr_returns_final_specifier() {
    let doc = r#"{
      "redirects": { "jsr:@std/assert": "jsr:@std/assert@1.0.0" },
      "modules": []
    }"#;
    let info = parse_provider_info(doc.as_bytes()).unwrap();
    let finished = finish_jsr(&"jsr:@std/assert".to_string(), &info);
    assert_eq!(finished, Ok("jsr:@std/assert@1.0.0".to_string()));
}

#[test]
fn finish_jsr_surfaces_cycles() {
    let doc = r#"{ "redirects": { "jsr:a": "jsr:b", "jsr:b": "jsr:a" }, "modules": [] }"#;
    let info = parse_provider_info(doc.as_bytes()).unwrap();
    let finished = finish_jsr(&"jsr:a".to_string(), &info);
    assert_eq!(finished, Err(ResolveError::CircularRedirect));
}

#[test]
fn finish_npm_delegates_scoped_package_name() {
    let info = npm_doc("@scope/pkg@1.2.3");
    let finished = finish_npm(&"npm:chalk".to_string(), &info);
    assert_eq!(finished, Ok("@scope/pkg".to_string()));
}

#[test]
fn finish_npm_delegates_plain_package_name() {
    let info = npm_doc("chalk@5.3.0");
    let finished = finish_npm(&"npm:chalk".to_string(), &info);
    assert_eq!(finished, Ok("chalk".to_string()));
}

#[test]
fn finish_npm_rejects_wrong_variant() {
    let doc = r#"{
      "redirects": { "npm:chalk": "npm:chalk@5" },
      "modules": [
        { "kind": "esm", "local": "/x", "specifier": "npm:chalk@5", "mediaType": "JavaScript" }
      ]
    }"#;
    let info = parse_provider_info(doc.as_bytes()).unwrap();
    let finished = finish_npm(&"npm:chalk".to_string(), &info);
    assert_eq!(finished, Err(ResolveError::UnexpectedModuleVariant));
}

#[test]
fn finish_npm_requires_an_entry() {
    let doc = r#"{ "redirects": { "npm:chalk": "npm:chalk@5" }, "modules": [] }"#;
    let info = parse_provider_info(doc.as_bytes()).unwrap();
    let finished = finish_npm(&"npm:chalk".to_string(), &info);
    assert_eq!(finished, Err(ResolveError::ModuleNotFoundOrNoLocalPath));
}

#[test]
fn provider_failure_is_never_unhandled() {
    let step = ResolutionStep::ProviderJsr("jsr:@std/assert".to_string());
    let outcome = finish_with_provider(&step, Err(ResolveError::ProviderFailed));
    assert!(matches!(outcome, Err(ResolveError::ProviderFailed)));
}

#[test]
fn unhandled_step_finishes_unhandled() {
    let step = ResolutionStep::Unhandled;
    let outcome = finish_with_provider(&step, Err(ResolveError::ProviderFailed));
    assert!(matches!(outcome, Ok(ResolvedOutcome::Unhandled)));
}

#[test]
fn npm_step_finishes_with_delegated_package() {
    let step = ResolutionStep::ProviderNpm("npm:chalk".to_string());
    let outcome = finish_with_provider(&step, Ok(npm_doc("chalk@5.3.0")));
    assert!(matches!(outcome, Ok(ResolvedOutcome::DelegatedPackage(n)) if n == "chalk"));
}

#[test]
fn plugin_reports_its_name() {
    let plugin = default_plugin();
    assert_eq!(plugin.name(), "rolldown:data-url");
}
