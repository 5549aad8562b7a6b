//! Rewriting a raw specifier before dispatch: relative specifiers are
//! joined against the importer's location, bare specifiers are resolved
//! against a configured alias table.
//!
//! This rewriting never fails; where nothing applies, the input passes
//! through unchanged.

use vstd::prelude::*;
use vstd::string::StrSliceExecFns;

use crate::redirect::{assoc, pairs_view, redirect_lookup};

verus! {

/// The text of the URL obtained by parsing `base` and joining `rel` onto
/// it, or nothing when parsing or joining fails.
pub uninterp spec fn url_join_of(base: Seq<char>, rel: Seq<char>) -> Option<Seq<char>>;

/// The scheme of that joined URL.
pub uninterp spec fn url_join_scheme_of(base: Seq<char>, rel: Seq<char>) -> Option<Seq<char>>;

/// The path portion of that joined URL.
pub uninterp spec fn url_join_path_of(base: Seq<char>, rel: Seq<char>) -> Option<Seq<char>>;

/// Relies on url::Url::parse and url::Url::join — the joined URL is a pure
/// function of the two inputs, and exists exactly when both calls succeed —
/// and on Url::as_str, Url::scheme and Url::path for its three text parts.
#[verifier::external_body]
fn url_join(base: &str, rel: &str) -> (r: Option<(String, String, String)>)
    ensures
        match r {
            Some(p) => url_join_of(base@, rel@) == Some(p.0@) && url_join_scheme_of(base@, rel@)
                == Some(p.1@) && url_join_path_of(base@, rel@) == Some(p.2@),
            None => url_join_of(base@, rel@) is None,
        },
{
    match url::Url::parse(base) {
        Ok(b) => match b.join(rel) {
            Ok(u) => {
                let scheme = u.scheme().to_owned();
                let path = u.path().to_owned();
                Some((String::from(u), scheme, path))
            },
            Err(_) => None,
        },
        Err(_) => None,
    }
}

/// A static alias table rewriting bare specifiers to concrete targets.
/// Immutable once constructed; first match wins.
#[derive(Debug)]
pub struct ImportMap {
    pub entries: Vec<(String, String)>,
}

impl ImportMap {
    /// The mathematical content of the alias table.
    pub open spec fn entries_view(&self) -> Seq<(Seq<char>, Seq<char>)> {
        pairs_view(self.entries@)
    }

    /// Build an alias table from `(alias, target)` pairs.
    pub fn new(entries: Vec<(String, String)>) -> (r: Self)
        ensures
            r.entries == entries,
    {
        ImportMap { entries }
    }
}

/// A specifier that begins with a relative-path marker.
pub open spec fn is_relative(s: Seq<char>) -> bool {
    s.len() > 0 && s[0] == '.'
}

/// The view of an optional borrowed string.
pub open spec fn opt_view(o: Option<&String>) -> Option<Seq<char>> {
    match o {
        Some(s) => Some(s@),
        None => None,
    }
}

/// What rewriting yields: a relative specifier is joined against the
/// importer (a local-file result is shortened to its filesystem path); a
/// bare specifier is rewritten through the alias table; everything else —
/// no importer, a failed join, no matching alias — passes through
/// unchanged.
pub open spec fn spec_rewrite(
    aliases: Seq<(Seq<char>, Seq<char>)>,
    raw: Seq<char>,
    importer: Option<Seq<char>>,
) -> Seq<char> {
    if is_relative(raw) {
        match importer {
            Some(imp) => match url_join_of(imp, raw) {
                Some(joined) => if url_join_scheme_of(imp, raw) == Some("file"@) {
                    match url_join_path_of(imp, raw) {
                        Some(p) => p,
                        None => joined,
                    }
                } else {
                    joined
                },
                None => raw,
            },
            None => raw,
        }
    } else {
        match assoc(aliases, raw) {
            Some(t) => t,
            None => raw,
        }
    }
}

impl ImportMap {
    /// Rewrite a raw specifier against this table, relative to an importer.
    pub fn rewrite(&self, raw: &String, importer: Option<&String>) -> (r: String)
        ensures
            r@ == spec_rewrite(self.entries_view(), raw@, opt_view(importer)),
    {
        let n = raw.as_str().unicode_len();
        if n > 0 && raw.as_str().get_char(0) == '.' {
            match importer {
                Some(imp) => match url_join(imp.as_str(), raw.as_str()) {
                    Some((full, scheme, path)) => {
                        if scheme == "file".to_owned() {
                            path
                        } else {
                            full
                        }
                    },
                    None => raw.clone(),
                },
                None => raw.clone(),
            }
        } else {
            match redirect_lookup(&self.entries, raw) {
                Some(t) => t,
                None => raw.clone(),
            }
        }
    }
}

/// Law: rewriting is idempotent on inputs that are not aliases.  A bare
/// specifier that matches no alias passes through unchanged, so rewriting
/// it twice equals rewriting it once.  (A relative input is excluded: its
/// first rewrite may yield a joined location about which the alias table
/// may say anything.)
pub proof fn lemma_rewrite_idempotent(
    aliases: Seq<(Seq<char>, Seq<char>)>,
    x: Seq<char>,
    importer: Option<Seq<char>>,
)
    requires
        !is_relative(x),
        assoc(aliases, x) is None,
    ensures
        spec_rewrite(aliases, x, importer) == x,
        spec_rewrite(aliases, spec_rewrite(aliases, x, importer), importer) == spec_rewrite(
            aliases,
            x,
            importer,
        ),
{
}

} // verus!
