//! The content loader's resolution: the public entry point behind the
//! host's "load" hook.
//!
//! Only ids with a `jsr:`, `http:` or `https:` prefix are handled — the
//! host checks `load_recognized` first and never runs the provider for
//! anything else.  For a handled id the provider's response is resolved to
//! the local path of the fetched-module entry at the redirect chain's fixed
//! point, together with its media type; the host then reads the bytes at
//! that path.

use vstd::prelude::*;

use crate::errors::ResolveError;
use crate::provider::{MediaType, ModuleEntry, ModuleModel, ProviderInfo, ProviderModel};
use crate::redirect::{
    chain_end, chain_terminates, follow_redirects, follow_n, lemma_chain_end,
};
use crate::text::{has_prefix, str_starts_with};

verus! {

/// The id prefixes the loader handles.
pub open spec fn spec_load_recognized(id: Seq<char>) -> bool {
    has_prefix(id, "jsr:"@) || has_prefix(id, "http:"@) || has_prefix(id, "https:"@)
}

/// Whether the loader handles this id at all.  An id without a recognized
/// scheme prefix is left to the host's default loading, and no provider
/// run happens for it.
pub fn load_recognized(id: &String) -> (b: bool)
    ensures
        b == spec_load_recognized(id@),
{
    str_starts_with(id.as_str(), "jsr:") || str_starts_with(id.as_str(), "http:")
        || str_starts_with(id.as_str(), "https:")
}

/// The first fetched-module entry whose specifier is `f`: its local path
/// and media type.  Package-variant entries carry no local path and are
/// passed over.
pub open spec fn find_esm(mods: Seq<ModuleModel>, f: Seq<char>) -> Option<(Seq<char>, MediaType)>
    decreases mods.len(),
{
    if mods.len() == 0 {
        None
    } else {
        match mods[0] {
            ModuleModel::Esm { local, specifier, media_type } => if specifier == f {
                Some((local, media_type))
            } else {
                find_esm(mods.drop_first(), f)
            },
            ModuleModel::Npm { .. } => find_esm(mods.drop_first(), f),
        }
    }
}

/// Whether this entry is a fetched module with specifier `f`.
pub open spec fn is_esm_for(m: ModuleModel, f: Seq<char>) -> bool {
    m matches ModuleModel::Esm { specifier, .. } && specifier == f
}

proof fn lemma_find_esm_skip(mods: Seq<ModuleModel>, f: Seq<char>, i: int)
    requires
        0 <= i <= mods.len(),
        forall|j: int| 0 <= j < i ==> !is_esm_for(#[trigger] mods[j], f),
    ensures
        find_esm(mods, f) == find_esm(mods.skip(i), f),
    decreases i,
{
    if i > 0 {
        lemma_find_esm_skip(mods.drop_first(), f, i - 1);
        assert(mods.drop_first().skip(i - 1) =~= mods.skip(i));
    } else {
        assert(mods.skip(0) =~= mods);
    }
}

/// What resolving a handled id to a local path yields over a provider
/// response: the local path and media type of the fetched-module entry at
/// the redirect chain's fixed point.  A chain with no fixed point fails as
/// circular; a fixed point without a fetched-module entry — missing
/// entirely, or present only as a package-variant entry, which has no
/// local path — fails as not found.
pub open spec fn spec_local_outcome(model: ProviderModel, s: Seq<char>) -> Result<
    (Seq<char>, MediaType),
    ResolveError,
> {
    if !chain_terminates(model.redirects, s) {
        Err(ResolveError::CircularRedirect)
    } else {
        match find_esm(model.modules, chain_end(model.redirects, s)) {
            Some(found) => Ok(found),
            None => Err(ResolveError::ModuleNotFoundOrNoLocalPath),
        }
    }
}

/// The view of a path-and-media-type result.
pub open spec fn local_result_view(r: Result<(String, MediaType), ResolveError>) -> Result<
    (Seq<char>, MediaType),
    ResolveError,
> {
    match r {
        Ok(p) => Ok((p.0@, p.1)),
        Err(e) => Err(e),
    }
}

/// Resolve a handled id over a provider response to the local path (and
/// media type) of the module to load.
pub fn resolve_local(specifier: &String, info: &ProviderInfo) -> (r: Result<
    (String, MediaType),
    ResolveError,
>)
    ensures
        local_result_view(r) == spec_local_outcome(info.model(), specifier@),
{
    match follow_redirects(specifier.as_str(), &info.redirects) {
        Ok(f) => {
            proof {
                let m = info.model().redirects;
                let n = choose|n: nat| f@ == #[trigger] follow_n(m, specifier@, n);
                lemma_chain_end(m, specifier@, f@, n);
            }
            match find_esm_module(&info.modules, &f) {
                Some(found) => Ok(found),
                None => Err(ResolveError::ModuleNotFoundOrNoLocalPath),
            }
        },
        Err(e) => Err(e),
    }
}

/// Find the first fetched-module entry whose specifier equals `f`, and
/// hand out its local path and media type.
fn find_esm_module(modules: &Vec<ModuleEntry>, f: &String) -> (r: Option<(String, MediaType)>)
    ensures
        match r {
            Some(p) => find_esm(crate::provider::modules_view(modules@), f@) == Some((p.0@, p.1)),
            None => find_esm(crate::provider::modules_view(modules@), f@) is None,
        },
{
    let ghost mods = crate::provider::modules_view(modules@);
    let mut i: usize = 0;
    while i < modules.len()
        invariant
            mods == crate::provider::modules_view(modules@),
            0 <= i <= modules.len(),
            forall|j: int| 0 <= j < i ==> !is_esm_for(#[trigger] mods[j], f@),
        decreases modules.len() - i,
    {
        match &modules[i] {
            ModuleEntry::Esm { local, specifier, media_type } => {
                if *specifier == *f {
                    proof {
                        lemma_find_esm_skip(mods, f@, i as int);
                        assert(mods.skip(i as int)[0] == mods[i as int]);
                    }
                    return Some((local.clone(), *media_type));
                }
            },
            ModuleEntry::Npm { .. } => {},
        }
        i += 1;
    }
    proof {
        lemma_find_esm_skip(mods, f@, mods.len() as int);
        assert(mods.skip(mods.len() as int) =~= Seq::<ModuleModel>::empty());
    }
    None
}

} // verus!
