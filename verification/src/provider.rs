//! The package-info provider's data model, and decoding of the provider's
//! raw output into it.
//!
//! The provider is an external process; the host hands its exit status and
//! captured standard output to `interpret_provider_output`.  A response is
//! a JSON object with a `redirects` field (object, specifier to specifier)
//! and a `modules` field (array of module entries tagged by `kind`).  The
//! two known tags are `esm` and `npm`; an unrecognized tag rejects the
//! whole response rather than silently dropping the entry, since a dropped
//! module would make an otherwise valid redirect target look missing.

use vstd::prelude::*;

use crate::errors::ResolveError;
use crate::json::{json_assoc, json_tree_of, obj_get, parse_json_tree, JsonValue};
use crate::redirect::pairs_view;

verus! {

/// How the bytes at a module's local path should be interpreted.
#[derive(Clone, Copy, Debug, PartialEq, Eq, Structural)]
pub enum MediaType {
    TypeScript,
    Tsx,
    JavaScript,
    Jsx,
    Json,
    Dmts,
    Mjs,
}

/// The media type named by a `mediaType` tag, if the tag is recognized.
pub open spec fn spec_media_of(s: Seq<char>) -> Option<MediaType> {
    if s == "TypeScript"@ {
        Some(MediaType::TypeScript)
    } else if s == "Tsx"@ {
        Some(MediaType::Tsx)
    } else if s == "JavaScript"@ {
        Some(MediaType::JavaScript)
    } else if s == "Jsx"@ {
        Some(MediaType::Jsx)
    } else if s == "Json"@ {
        Some(MediaType::Json)
    } else if s == "Dmts"@ {
        Some(MediaType::Dmts)
    } else if s == "Mjs"@ {
        Some(MediaType::Mjs)
    } else {
        None
    }
}

/// Decode a `mediaType` tag.
pub fn media_of(s: &String) -> (r: Option<MediaType>)
    ensures
        r == spec_media_of(s@),
{
    if *s == "TypeScript".to_owned() {
        Some(MediaType::TypeScript)
    } else if *s == "Tsx".to_owned() {
        Some(MediaType::Tsx)
    } else if *s == "JavaScript".to_owned() {
        Some(MediaType::JavaScript)
    } else if *s == "Jsx".to_owned() {
        Some(MediaType::Jsx)
    } else if *s == "Json".to_owned() {
        Some(MediaType::Json)
    } else if *s == "Dmts".to_owned() {
        Some(MediaType::Dmts)
    } else if *s == "Mjs".to_owned() {
        Some(MediaType::Mjs)
    } else {
        None
    }
}

/// One entry of a provider response.
#[derive(Debug)]
pub enum ModuleEntry {
    /// A module the provider has fetched: loadable from a local path.
    Esm { local: String, specifier: String, media_type: MediaType },
    /// A module that names a package the host's own resolver should fetch.
    Npm { specifier: String, npm_package: String },
}

/// The mathematical content of a module entry.
pub enum ModuleModel {
    Esm { local: Seq<char>, specifier: Seq<char>, media_type: MediaType },
    Npm { specifier: Seq<char>, npm_package: Seq<char> },
}

impl ModuleEntry {
    /// The entry with its strings taken as character sequences.
    pub open spec fn model(self) -> ModuleModel {
        match self {
            ModuleEntry::Esm { local, specifier, media_type } => ModuleModel::Esm {
                local: local@,
                specifier: specifier@,
                media_type,
            },
            ModuleEntry::Npm { specifier, npm_package } => ModuleModel::Npm {
                specifier: specifier@,
                npm_package: npm_package@,
            },
        }
    }
}

/// The sequence of entry models behind a list of module entries.
pub open spec fn modules_view(v: Seq<ModuleEntry>) -> Seq<ModuleModel> {
    v.map_values(|e: ModuleEntry| e.model())
}

/// A provider's full decoded answer.
#[derive(Debug)]
pub struct ProviderInfo {
    /// Source specifier to target specifier; chains are followed later.
    pub redirects: Vec<(String, String)>,
    /// The known modules; order is irrelevant for lookup.
    pub modules: Vec<ModuleEntry>,
}

/// The mathematical content of a provider response.
#[verifier::ext_equal]
pub struct ProviderModel {
    pub redirects: Seq<(Seq<char>, Seq<char>)>,
    pub modules: Seq<ModuleModel>,
}

impl ProviderInfo {
    /// The response with its strings taken as character sequences.
    pub open spec fn model(self) -> ProviderModel {
        ProviderModel { redirects: pairs_view(self.redirects@), modules: modules_view(self.modules@) }
    }
}

/// Decode the fields of the `redirects` object, from index `i` on.  Every
/// value must be a string; anything else rejects the response.
pub open spec fn spec_decode_redirects(fields: Seq<(String, JsonValue)>, i: int) -> Option<
    Seq<(Seq<char>, Seq<char>)>,
>
    decreases fields.len() - i,
{
    if i < 0 || i >= fields.len() {
        Some(Seq::empty())
    } else {
        match fields[i].1 {
            JsonValue::Str(t) => match spec_decode_redirects(fields, i + 1) {
                Some(rest) => Some(seq![(fields[i].0@, t@)] + rest),
                None => None,
            },
            _ => None,
        }
    }
}

/// Decode one module entry.  The `kind` tag picks the variant; the two
/// known tags are `esm` and `npm`, and any other tag is rejected.
pub open spec fn spec_decode_module(j: JsonValue) -> Option<ModuleModel> {
    match j {
        JsonValue::Obj(fields) => match json_assoc(fields@, "kind"@) {
            Some(JsonValue::Str(kind)) => if kind@ == "esm"@ {
                spec_decode_esm_fields(fields@)
            } else if kind@ == "npm"@ {
                spec_decode_npm_fields(fields@)
            } else {
                None
            },
            _ => None,
        },
        _ => None,
    }
}

/// The `esm` variant needs string fields `local`, `specifier` and a
/// recognized `mediaType`.
pub open spec fn spec_decode_esm_fields(fields: Seq<(String, JsonValue)>) -> Option<ModuleModel> {
    match json_assoc(fields, "local"@) {
        Some(JsonValue::Str(local)) => match json_assoc(fields, "specifier"@) {
            Some(JsonValue::Str(specifier)) => match json_assoc(fields, "mediaType"@) {
                Some(JsonValue::Str(mt)) => match spec_media_of(mt@) {
                    Some(media_type) => Some(
                        ModuleModel::Esm { local: local@, specifier: specifier@, media_type },
                    ),
                    None => None,
                },
                _ => None,
            },
            _ => None,
        },
        _ => None,
    }
}

/// The `npm` variant needs string fields `specifier` and `npmPackage`.
pub open spec fn spec_decode_npm_fields(fields: Seq<(String, JsonValue)>) -> Option<ModuleModel> {
    match json_assoc(fields, "specifier"@) {
        Some(JsonValue::Str(specifier)) => match json_assoc(fields, "npmPackage"@) {
            Some(JsonValue::Str(npm_package)) => Some(
                ModuleModel::Npm { specifier: specifier@, npm_package: npm_package@ },
            ),
            _ => None,
        },
        _ => None,
    }
}

/// Decode the `modules` array, from index `i` on.
pub open spec fn spec_decode_modules(items: Seq<JsonValue>, i: int) -> Option<Seq<ModuleModel>>
    decreases items.len() - i,
{
    if i < 0 || i >= items.len() {
        Some(Seq::empty())
    } else {
        match spec_decode_module(items[i]) {
            Some(entry) => match spec_decode_modules(items, i + 1) {
                Some(rest) => Some(seq![entry] + rest),
                None => None,
            },
            None => None,
        }
    }
}

/// Decode a whole provider response: an object whose `redirects` field is
/// an object of strings and whose `modules` field is an array of module
/// entries.  Other top-level fields are ignored.
pub open spec fn spec_decode_doc(j: JsonValue) -> Option<ProviderModel> {
    match j {
        JsonValue::Obj(fields) => match json_assoc(fields@, "redirects"@) {
            Some(JsonValue::Obj(rf)) => match spec_decode_redirects(rf@, 0) {
                Some(redirects) => match json_assoc(fields@, "modules"@) {
                    Some(JsonValue::Arr(items)) => match spec_decode_modules(items@, 0) {
                        Some(modules) => Some(ProviderModel { redirects, modules }),
                        None => None,
                    },
                    _ => None,
                },
                None => None,
            },
            _ => None,
        },
        _ => None,
    }
}

fn decode_redirects(fields: &Vec<(String, JsonValue)>) -> (r: Option<Vec<(String, String)>>)
    ensures
        match r {
            Some(v) => spec_decode_redirects(fields@, 0) == Some(pairs_view(v@)),
            None => spec_decode_redirects(fields@, 0) is None,
        },
{
    let mut acc: Vec<(String, String)> = Vec::new();
    let mut i: usize = 0;
    while i < fields.len()
        invariant
            0 <= i <= fields.len(),
            match spec_decode_redirects(fields@, i as int) {
                Some(rest) => spec_decode_redirects(fields@, 0) == Some(pairs_view(acc@) + rest),
                None => spec_decode_redirects(fields@, 0) is None,
            },
        decreases fields.len() - i,
    {
        match &fields[i].1 {
            JsonValue::Str(t) => {
                let ghost old_acc = acc@;
                acc.push((fields[i].0.clone(), t.clone()));
                proof {
                    assert(pairs_view(acc@) =~= pairs_view(old_acc) + seq![
                        (fields@[i as int].0@, t@),
                    ]);
                    assert(pairs_view(old_acc) + (seq![(fields@[i as int].0@, t@)]
                        + match spec_decode_redirects(fields@, i + 1) {
                            Some(rest) => rest,
                            None => Seq::empty(),
                        }) =~= pairs_view(acc@) + match spec_decode_redirects(fields@, i + 1) {
                        Some(rest) => rest,
                        None => Seq::empty(),
                    });
                }
            },
            _ => {
                return None;
            },
        }
        i += 1;
    }
    proof {
        assert(pairs_view(acc@) + Seq::<(Seq<char>, Seq<char>)>::empty() =~= pairs_view(acc@));
    }
    Some(acc)
}

fn decode_module(j: &JsonValue) -> (r: Option<ModuleEntry>)
    ensures
        match r {
            Some(e) => spec_decode_module(*j) == Some(e.model()),
            None => spec_decode_module(*j) is None,
        },
{
    match j {
        JsonValue::Obj(fields) => match obj_get(fields, &"kind".to_owned()) {
            Some(JsonValue::Str(kind)) => {
                if *kind == "esm".to_owned() {
                    decode_esm_fields(fields)
                } else if *kind == "npm".to_owned() {
                    decode_npm_fields(fields)
                } else {
                    None
                }
            },
            _ => None,
        },
        _ => None,
    }
}

fn decode_esm_fields(fields: &Vec<(String, JsonValue)>) -> (r: Option<ModuleEntry>)
    ensures
        match r {
            Some(e) => spec_decode_esm_fields(fields@) == Some(e.model()),
            None => spec_decode_esm_fields(fields@) is None,
        },
{
    match obj_get(fields, &"local".to_owned()) {
        Some(JsonValue::Str(local)) => match obj_get(fields, &"specifier".to_owned()) {
            Some(JsonValue::Str(specifier)) => match obj_get(fields, &"mediaType".to_owned()) {
                Some(JsonValue::Str(mt)) => match media_of(mt) {
                    Some(media_type) => Some(
                        ModuleEntry::Esm {
                            local: local.clone(),
                            specifier: specifier.clone(),
                            media_type,
                        },
                    ),
                    None => None,
                },
                _ => None,
            },
            _ => None,
        },
        _ => None,
    }
}

fn decode_npm_fields(fields: &Vec<(String, JsonValue)>) -> (r: Option<ModuleEntry>)
    ensures
        match r {
            Some(e) => spec_decode_npm_fields(fields@) == Some(e.model()),
            None => spec_decode_npm_fields(fields@) is None,
        },
{
    match obj_get(fields, &"specifier".to_owned()) {
        Some(JsonValue::Str(specifier)) => match obj_get(fields, &"npmPackage".to_owned()) {
            Some(JsonValue::Str(npm_package)) => Some(
                ModuleEntry::Npm { specifier: specifier.clone(), npm_package: npm_package.clone() },
            ),
            _ => None,
        },
        _ => None,
    }
}

fn decode_modules(items: &Vec<JsonValue>) -> (r: Option<Vec<ModuleEntry>>)
    ensures
        match r {
            Some(v) => spec_decode_modules(items@, 0) == Some(modules_view(v@)),
            None => spec_decode_modules(items@, 0) is None,
        },
{
    let mut acc: Vec<ModuleEntry> = Vec::new();
    let mut i: usize = 0;
    while i < items.len()
        invariant
            0 <= i <= items.len(),
            match spec_decode_modules(items@, i as int) {
                Some(rest) => spec_decode_modules(items@, 0) == Some(modules_view(acc@) + rest),
                None => spec_decode_modules(items@, 0) is None,
            },
        decreases items.len() - i,
    {
        match decode_module(&items[i]) {
            Some(entry) => {
                let ghost old_acc = acc@;
                let ghost entry_model = entry.model();
                acc.push(entry);
                proof {
                    assert(modules_view(acc@) =~= modules_view(old_acc) + seq![entry_model]);
                    assert(modules_view(old_acc) + (seq![entry_model]
                        + match spec_decode_modules(items@, i + 1) {
                            Some(rest) => rest,
                            None => Seq::empty(),
                        }) =~= modules_view(acc@) + match spec_decode_modules(items@, i + 1) {
                        Some(rest) => rest,
                        None => Seq::empty(),
                    });
                }
            },
            None => {
                return None;
            },
        }
        i += 1;
    }
    proof {
        assert(modules_view(acc@) + Seq::<ModuleModel>::empty() =~= modules_view(acc@));
    }
    Some(acc)
}

fn decode_doc(j: &JsonValue) -> (r: Option<ProviderInfo>)
    ensures
        match r {
            Some(p) => spec_decode_doc(*j) == Some(p.model()),
            None => spec_decode_doc(*j) is None,
        },
{
    match j {
        JsonValue::Obj(fields) => match obj_get(fields, &"redirects".to_owned()) {
            Some(JsonValue::Obj(rf)) => match decode_redirects(rf) {
                Some(redirects) => match obj_get(fields, &"modules".to_owned()) {
                    Some(JsonValue::Arr(items)) => match decode_modules(items) {
                        Some(modules) => Some(ProviderInfo { redirects, modules }),
                        None => None,
                    },
                    _ => None,
                },
                None => None,
            },
            _ => None,
        },
        _ => None,
    }
}

/// Decode raw provider output into a response.  Fails with
/// `ProviderMalformedResponse` exactly when the bytes are not valid JSON or
/// the tree does not have the response shape.
pub fn parse_provider_info(bytes: &[u8]) -> (r: Result<ProviderInfo, ResolveError>)
    ensures
        r is Ok <==> (json_tree_of(bytes@) matches Some(j) && spec_decode_doc(j) is Some),
        r matches Ok(p) ==> (json_tree_of(bytes@) matches Some(j) && spec_decode_doc(j) == Some(
            p.model(),
        )),
        r matches Err(e) ==> e == ResolveError::ProviderMalformedResponse,
{
    match parse_json_tree(bytes) {
        Some(j) => match decode_doc(&j) {
            Some(p) => Ok(p),
            None => Err(ResolveError::ProviderMalformedResponse),
        },
        None => Err(ResolveError::ProviderMalformedResponse),
    }
}

/// Interpret one run of the provider process: whether it could be started,
/// whether it exited successfully, and what it wrote to standard output.
///
/// A provider that could not start fails with `ProviderUnavailable`; one
/// that exited with a non-zero status fails with `ProviderFailed` — never
/// with a silent fall-through.  Only a successful run has its output
/// decoded.
pub fn interpret_provider_output(spawned: bool, exit_ok: bool, stdout: &[u8]) -> (r: Result<
    ProviderInfo,
    ResolveError,
>)
    ensures
        !spawned ==> r == Err::<ProviderInfo, ResolveError>(ResolveError::ProviderUnavailable),
        spawned && !exit_ok ==> r == Err::<ProviderInfo, ResolveError>(
            ResolveError::ProviderFailed,
        ),
        spawned && exit_ok ==> {
            &&& r is Ok <==> (json_tree_of(stdout@) matches Some(j) && spec_decode_doc(j) is Some)
            &&& (r matches Ok(p) ==> (json_tree_of(stdout@) matches Some(j) && spec_decode_doc(j)
                == Some(p.model())))
            &&& (r matches Err(e) ==> e == ResolveError::ProviderMalformedResponse)
        },
{
    if !spawned {
        Err(ResolveError::ProviderUnavailable)
    } else if !exit_ok {
        Err(ResolveError::ProviderFailed)
    } else {
        parse_provider_info(stdout)
    }
}

} // verus!
