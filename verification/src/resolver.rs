//! The resolution orchestrator: the public entry point behind the host's
//! "resolve" hook.
//!
//! A raw specifier is first rewritten (relative join, alias table), then
//! dispatched on its scheme: `jsr:` asks the provider and follows its
//! redirects to a final specifier the plugin claims; `http:`/`https:` pass
//! through for the loader to handle; `npm:` asks the provider, follows
//! redirects, and hands the named package to the host's own resolver;
//! anything else is left to the host's default resolution.
//!
//! Running the provider process and calling the host's resolver are outside
//! work; the host performs them between `plan_resolve` and
//! `finish_with_provider`.

use vstd::prelude::*;

use crate::errors::ResolveError;
use crate::imports::{opt_view, spec_rewrite, ImportMap};
use crate::provider::{ModuleEntry, ModuleModel, ProviderInfo, ProviderModel};
use crate::redirect::{
    chain_end, chain_terminates, follow_redirects, follow_n, lemma_chain_end,
};
use crate::text::{has_prefix, package_name, spec_package_name, str_starts_with};

verus! {

/// The plugin: a resolver configuration around an immutable import map,
/// built once at instantiation time and passed by reference into each
/// resolution call.
#[derive(Debug)]
pub struct DenoLoaderPlugin {
    pub import_map: ImportMap,
}

/// What a resolution needs next: nothing, a pass-through, or one provider
/// run for the rewritten specifier.
pub enum ResolutionStep {
    /// No recognized scheme: the host's default resolution applies.
    Unhandled,
    /// A network URL, passed through as-is; loading is deferred.
    Passthrough(String),
    /// A `jsr:` specifier: ask the provider, then follow redirects.
    ProviderJsr(String),
    /// An `npm:` specifier: ask the provider, then delegate the package.
    ProviderNpm(String),
}

/// The mathematical content of a resolution step.
pub enum StepModel {
    Unhandled,
    Passthrough(Seq<char>),
    ProviderJsr(Seq<char>),
    ProviderNpm(Seq<char>),
}

impl ResolutionStep {
    /// The step with its strings taken as character sequences.
    pub open spec fn model(self) -> StepModel {
        match self {
            ResolutionStep::Unhandled => StepModel::Unhandled,
            ResolutionStep::Passthrough(u) => StepModel::Passthrough(u@),
            ResolutionStep::ProviderJsr(s) => StepModel::ProviderJsr(s@),
            ResolutionStep::ProviderNpm(s) => StepModel::ProviderNpm(s@),
        }
    }
}

/// The outcome of a completed resolution.
pub enum ResolvedOutcome {
    /// A local file path, ready to be read.
    LocalFile(String),
    /// A package name handed to the host's own resolver.
    DelegatedPackage(String),
    /// A URL (or final registry specifier) the plugin claims as the id.
    PassthroughUrl(String),
    /// The host falls back to its default resolution.
    Unhandled,
}

/// The mathematical content of an outcome.
pub enum OutcomeModel {
    LocalFile(Seq<char>),
    DelegatedPackage(Seq<char>),
    PassthroughUrl(Seq<char>),
    Unhandled,
}

impl ResolvedOutcome {
    /// The outcome with its strings taken as character sequences.
    pub open spec fn model(self) -> OutcomeModel {
        match self {
            ResolvedOutcome::LocalFile(p) => OutcomeModel::LocalFile(p@),
            ResolvedOutcome::DelegatedPackage(n) => OutcomeModel::DelegatedPackage(n@),
            ResolvedOutcome::PassthroughUrl(u) => OutcomeModel::PassthroughUrl(u@),
            ResolvedOutcome::Unhandled => OutcomeModel::Unhandled,
        }
    }
}

/// Scheme dispatch on a rewritten specifier, in priority order.
pub open spec fn spec_dispatch(w: Seq<char>) -> StepModel {
    if has_prefix(w, "jsr:"@) {
        StepModel::ProviderJsr(w)
    } else if has_prefix(w, "http:"@) || has_prefix(w, "https:"@) {
        StepModel::Passthrough(w)
    } else if has_prefix(w, "npm:"@) {
        StepModel::ProviderNpm(w)
    } else {
        StepModel::Unhandled
    }
}

/// Dispatch a rewritten specifier on its scheme prefix.
pub fn dispatch(w: String) -> (r: ResolutionStep)
    ensures
        r.model() == spec_dispatch(w@),
{
    if str_starts_with(w.as_str(), "jsr:") {
        ResolutionStep::ProviderJsr(w)
    } else if str_starts_with(w.as_str(), "http:") || str_starts_with(w.as_str(), "https:") {
        ResolutionStep::Passthrough(w)
    } else if str_starts_with(w.as_str(), "npm:") {
        ResolutionStep::ProviderNpm(w)
    } else {
        ResolutionStep::Unhandled
    }
}

impl DenoLoaderPlugin {
    /// Build a plugin around an alias table.
    pub fn new(import_map: ImportMap) -> (r: Self)
        ensures
            r.import_map == import_map,
    {
        DenoLoaderPlugin { import_map }
    }

    /// The plugin's name, as the host reports it.
    pub fn name(&self) -> (r: &'static str)
        ensures
            r@ == "rolldown:data-url"@,
    {
        "rolldown:data-url"
    }

    /// Rewrite a raw specifier and decide what its resolution needs next.
    pub fn plan_resolve(&self, raw: &String, importer: Option<&String>) -> (r: ResolutionStep)
        ensures
            r.model() == spec_dispatch(
                spec_rewrite(self.import_map.entries_view(), raw@, opt_view(importer)),
            ),
    {
        let rewritten = self.import_map.rewrite(raw, importer);
        dispatch(rewritten)
    }
}

impl Default for DenoLoaderPlugin {
    /// The reference configuration: a single alias mapping the assertion
    /// package's bare name to its registry specifier.
    fn default() -> (r: Self)
        ensures
            r.import_map.entries_view() =~= seq![("@std/assert"@, "jsr:@std/assert"@)],
    {
        let mut entries: Vec<(String, String)> = Vec::new();
        entries.push(("@std/assert".to_owned(), "jsr:@std/assert".to_owned()));
        proof {
            assert(crate::redirect::pairs_view(entries@) =~= seq![
                ("@std/assert"@, "jsr:@std/assert"@),
            ]);
        }
        DenoLoaderPlugin { import_map: ImportMap::new(entries) }
    }
}

/// The specifier a module entry carries.
pub open spec fn specifier_of(m: ModuleModel) -> Seq<char> {
    match m {
        ModuleModel::Esm { specifier, .. } => specifier,
        ModuleModel::Npm { specifier, .. } => specifier,
    }
}

/// The first module entry whose specifier is `f`, of either variant.
pub open spec fn find_by_specifier(mods: Seq<ModuleModel>, f: Seq<char>) -> Option<ModuleModel>
    decreases mods.len(),
{
    if mods.len() == 0 {
        None
    } else if specifier_of(mods[0]) == f {
        Some(mods[0])
    } else {
        find_by_specifier(mods.drop_first(), f)
    }
}

proof fn lemma_find_by_specifier_skip(mods: Seq<ModuleModel>, f: Seq<char>, i: int)
    requires
        0 <= i <= mods.len(),
        forall|j: int| 0 <= j < i ==> specifier_of(#[trigger] mods[j]) != f,
    ensures
        find_by_specifier(mods, f) == find_by_specifier(mods.skip(i), f),
    decreases i,
{
    if i > 0 {
        lemma_find_by_specifier_skip(mods.drop_first(), f, i - 1);
        assert(mods.drop_first().skip(i - 1) =~= mods.skip(i));
    } else {
        assert(mods.skip(0) =~= mods);
    }
}

/// Find the first module entry whose specifier equals `f`.
pub fn find_module<'a>(modules: &'a Vec<ModuleEntry>, f: &String) -> (r: Option<&'a ModuleEntry>)
    ensures
        match r {
            Some(e) => find_by_specifier(crate::provider::modules_view(modules@), f@) == Some(
                e.model(),
            ),
            None => find_by_specifier(crate::provider::modules_view(modules@), f@) is None,
        },
{
    let ghost mods = crate::provider::modules_view(modules@);
    let mut i: usize = 0;
    while i < modules.len()
        invariant
            mods == crate::provider::modules_view(modules@),
            0 <= i <= modules.len(),
            forall|j: int| 0 <= j < i ==> specifier_of(#[trigger] mods[j]) != f@,
        decreases modules.len() - i,
    {
        let matches_f = match &modules[i] {
            ModuleEntry::Esm { specifier, .. } => *specifier == *f,
            ModuleEntry::Npm { specifier, .. } => *specifier == *f,
        };
        if matches_f {
            proof {
                lemma_find_by_specifier_skip(mods, f@, i as int);
                assert(mods.skip(i as int)[0] == mods[i as int]);
            }
            return Some(&modules[i]);
        }
        i += 1;
    }
    proof {
        lemma_find_by_specifier_skip(mods, f@, mods.len() as int);
        assert(mods.skip(mods.len() as int) =~= Seq::<ModuleModel>::empty());
    }
    None
}

/// What completing a `jsr:` resolution yields over a provider response:
/// the chain's fixed point, or a circular-redirect failure.
pub open spec fn spec_jsr_outcome(model: ProviderModel, s: Seq<char>) -> Result<
    Seq<char>,
    ResolveError,
> {
    if !chain_terminates(model.redirects, s) {
        Err(ResolveError::CircularRedirect)
    } else {
        Ok(chain_end(model.redirects, s))
    }
}

/// What completing an `npm:` resolution yields over a provider response:
/// the package name of the package-variant entry at the chain's fixed
/// point; a missing entry or an entry of the wrong variant fails.
pub open spec fn spec_npm_outcome(model: ProviderModel, s: Seq<char>) -> Result<
    Seq<char>,
    ResolveError,
> {
    if !chain_terminates(model.redirects, s) {
        Err(ResolveError::CircularRedirect)
    } else {
        match find_by_specifier(model.modules, chain_end(model.redirects, s)) {
            None => Err(ResolveError::ModuleNotFoundOrNoLocalPath),
            Some(ModuleModel::Esm { .. }) => Err(ResolveError::UnexpectedModuleVariant),
            Some(ModuleModel::Npm { npm_package, .. }) => Ok(spec_package_name(npm_package)),
        }
    }
}

/// The view of a string-or-error result.
pub open spec fn str_result_view(r: Result<String, ResolveError>) -> Result<
    Seq<char>,
    ResolveError,
> {
    match r {
        Ok(s) => Ok(s@),
        Err(e) => Err(e),
    }
}

/// Complete a `jsr:` resolution over a provider response: the final
/// specifier after following redirects.
pub fn finish_jsr(specifier: &String, info: &ProviderInfo) -> (r: Result<String, ResolveError>)
    ensures
        str_result_view(r) == spec_jsr_outcome(info.model(), specifier@),
{
    match follow_redirects(specifier.as_str(), &info.redirects) {
        Ok(f) => {
            proof {
                let m = info.model().redirects;
                let n = choose|n: nat| f@ == #[trigger] follow_n(m, specifier@, n);
                lemma_chain_end(m, specifier@, f@, n);
            }
            Ok(f)
        },
        Err(e) => Err(e),
    }
}

/// Complete an `npm:` resolution over a provider response: follow
/// redirects, require the package-variant entry at the fixed point, and
/// extract its package name for delegation.
pub fn finish_npm(specifier: &String, info: &ProviderInfo) -> (r: Result<String, ResolveError>)
    ensures
        str_result_view(r) == spec_npm_outcome(info.model(), specifier@),
{
    match follow_redirects(specifier.as_str(), &info.redirects) {
        Ok(f) => {
            proof {
                let m = info.model().redirects;
                let n = choose|n: nat| f@ == #[trigger] follow_n(m, specifier@, n);
                lemma_chain_end(m, specifier@, f@, n);
            }
            match find_module(&info.modules, &f) {
                None => Err(ResolveError::ModuleNotFoundOrNoLocalPath),
                Some(ModuleEntry::Esm { .. }) => Err(ResolveError::UnexpectedModuleVariant),
                Some(ModuleEntry::Npm { npm_package, .. }) => Ok(
                    package_name(npm_package.as_str()),
                ),
            }
        },
        Err(e) => Err(e),
    }
}

/// The view of an outcome-or-error result.
pub open spec fn outcome_result_view(r: Result<ResolvedOutcome, ResolveError>) -> Result<
    OutcomeModel,
    ResolveError,
> {
    match r {
        Ok(o) => Ok(o.model()),
        Err(e) => Err(e),
    }
}

/// The view of a provider-response-or-error result.
pub open spec fn provider_result_view(r: Result<ProviderInfo, ResolveError>) -> Result<
    ProviderModel,
    ResolveError,
> {
    match r {
        Ok(p) => Ok(p.model()),
        Err(e) => Err(e),
    }
}

/// What completing a resolution step yields.  A provider failure on a
/// `jsr:` or `npm:` step is surfaced, never degraded to `Unhandled`: such
/// a specifier has no sensible fallback meaning.
pub open spec fn spec_finish(step: StepModel, provider: Result<ProviderModel, ResolveError>) -> Result<
    OutcomeModel,
    ResolveError,
> {
    match step {
        StepModel::Unhandled => Ok(OutcomeModel::Unhandled),
        StepModel::Passthrough(u) => Ok(OutcomeModel::PassthroughUrl(u)),
        StepModel::ProviderJsr(s) => match provider {
            Err(e) => Err(e),
            Ok(model) => match spec_jsr_outcome(model, s) {
                Ok(f) => Ok(OutcomeModel::PassthroughUrl(f)),
                Err(e) => Err(e),
            },
        },
        StepModel::ProviderNpm(s) => match provider {
            Err(e) => Err(e),
            Ok(model) => match spec_npm_outcome(model, s) {
                Ok(name) => Ok(OutcomeModel::DelegatedPackage(name)),
                Err(e) => Err(e),
            },
        },
    }
}

/// Complete a resolution step with the outcome of the provider run it
/// asked for (ignored for steps that asked for none).
pub fn finish_with_provider(
    step: &ResolutionStep,
    provider: Result<ProviderInfo, ResolveError>,
) -> (r: Result<ResolvedOutcome, ResolveError>)
    ensures
        outcome_result_view(r) == spec_finish(step.model(), provider_result_view(provider)),
{
    match step {
        ResolutionStep::Unhandled => Ok(ResolvedOutcome::Unhandled),
        ResolutionStep::Passthrough(u) => Ok(ResolvedOutcome::PassthroughUrl(u.clone())),
        ResolutionStep::ProviderJsr(s) => match provider {
            Err(e) => Err(e),
            Ok(info) => match finish_jsr(s, &info) {
                Ok(f) => Ok(ResolvedOutcome::PassthroughUrl(f)),
                Err(e) => Err(e),
            },
        },
        ResolutionStep::ProviderNpm(s) => match provider {
            Err(e) => Err(e),
            Ok(info) => match finish_npm(s, &info) {
                Ok(name) => Ok(ResolvedOutcome::DelegatedPackage(name)),
                Err(e) => Err(e),
            },
        },
    }
}

} // verus!
