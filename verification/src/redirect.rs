//! Following a provider-supplied redirect mapping to its fixed point,
//! rejecting cycles.
//!
//! The mapping is held as a sequence of `(source, target)` pairs; lookup
//! takes the first pair whose source matches. A chain starting at some
//! specifier repeatedly moves to the mapped value until it reaches a value
//! that is not a key of the mapping — that value is the resolved target.
//! A chain that revisits a value can never reach such a fixed point, and
//! is rejected.

use vstd::prelude::*;
use vstd::seq_lib::*;
use vstd::set_lib::lemma_len_subset;

use crate::errors::ResolveError;

verus! {

/// First-match lookup in a sequence of key/value pairs.
pub open spec fn assoc(m: Seq<(Seq<char>, Seq<char>)>, k: Seq<char>) -> Option<Seq<char>>
    decreases m.len(),
{
    if m.len() == 0 {
        None
    } else if m[0].0 == k {
        Some(m[0].1)
    } else {
        assoc(m.drop_first(), k)
    }
}

/// The mathematical content of a redirect table: the views of its pairs.
pub open spec fn pairs_view(v: Seq<(String, String)>) -> Seq<(Seq<char>, Seq<char>)> {
    v.map_values(|p: (String, String)| (p.0@, p.1@))
}

/// One redirect step: move to the mapped value, or stay at a fixed point.
pub open spec fn redirect_step(m: Seq<(Seq<char>, Seq<char>)>, s: Seq<char>) -> Seq<char> {
    match assoc(m, s) {
        Some(t) => t,
        None => s,
    }
}

/// The value reached after `n` redirect steps from `s`.
pub open spec fn follow_n(m: Seq<(Seq<char>, Seq<char>)>, s: Seq<char>, n: nat) -> Seq<char>
    decreases n,
{
    if n == 0 {
        s
    } else {
        redirect_step(m, follow_n(m, s, (n - 1) as nat))
    }
}

/// `s` is a fixed point of the mapping: no redirect applies to it.
pub open spec fn is_fixed(m: Seq<(Seq<char>, Seq<char>)>, s: Seq<char>) -> bool {
    assoc(m, s) is None
}

/// The chain from `s` reaches a fixed point in finitely many steps.
pub open spec fn chain_terminates(m: Seq<(Seq<char>, Seq<char>)>, s: Seq<char>) -> bool {
    exists|n: nat| is_fixed(m, #[trigger] follow_n(m, s, n))
}

/// The set of source specifiers the mapping redirects.
pub open spec fn key_set(m: Seq<(Seq<char>, Seq<char>)>) -> Set<Seq<char>> {
    m.map_values(|p: (Seq<char>, Seq<char>)| p.0).to_set()
}

proof fn lemma_assoc_skip(m: Seq<(Seq<char>, Seq<char>)>, k: Seq<char>, i: int)
    requires
        0 <= i <= m.len(),
        forall|j: int| 0 <= j < i ==> (#[trigger] m[j]).0 != k,
    ensures
        assoc(m, k) == assoc(m.skip(i), k),
    decreases i,
{
    if i > 0 {
        lemma_assoc_skip(m.drop_first(), k, i - 1);
        assert(m.drop_first().skip(i - 1) =~= m.skip(i));
    } else {
        assert(m.skip(0) =~= m);
    }
}

proof fn lemma_assoc_some_in_keys(m: Seq<(Seq<char>, Seq<char>)>, k: Seq<char>)
    requires
        assoc(m, k) is Some,
    ensures
        key_set(m).contains(k),
    decreases m.len(),
{
    broadcast use vstd::seq_lib::group_seq_lib_default;

    if m.len() > 0 {
        let keys = m.map_values(|p: (Seq<char>, Seq<char>)| p.0);
        if m[0].0 == k {
            assert(keys[0] == k);
            assert(keys.contains(k));
        } else {
            lemma_assoc_some_in_keys(m.drop_first(), k);
            let tail_keys = m.drop_first().map_values(|p: (Seq<char>, Seq<char>)| p.0);
            assert(tail_keys.contains(k));
            let idx: int = choose|i: int| 0 <= i < tail_keys.len() && #[trigger] tail_keys[i] == k;
            assert(keys[idx + 1] == k);
            assert(keys.contains(k));
        }
    }
}

proof fn lemma_distinct_keys_bound(m: Seq<(Seq<char>, Seq<char>)>, views: Seq<Seq<char>>)
    requires
        views.no_duplicates(),
        forall|i: int| 0 <= i < views.len() ==> assoc(m, #[trigger] views[i]) is Some,
    ensures
        views.len() <= key_set(m).len(),
{
    broadcast use vstd::seq_lib::group_seq_lib_default;

    views.unique_seq_to_set();
    assert forall|k: Seq<char>| views.to_set().contains(k) implies key_set(m).contains(k) by {
        let i = choose|i: int| 0 <= i < views.len() && views[i] == k;
        lemma_assoc_some_in_keys(m, k);
    }
    lemma_len_subset(views.to_set(), key_set(m));
}

proof fn lemma_cycle_no_escape(
    m: Seq<(Seq<char>, Seq<char>)>,
    s0: Seq<char>,
    i: nat,
    k: nat,
    n: nat,
)
    requires
        i < k,
        follow_n(m, s0, i) == follow_n(m, s0, k),
        forall|j: nat| j < k ==> assoc(m, #[trigger] follow_n(m, s0, j)) is Some,
    ensures
        exists|j: nat| j < k && follow_n(m, s0, n) == follow_n(m, s0, j),
    decreases n,
{
    if n == 0 {
        assert(0 < k && follow_n(m, s0, n) == #[trigger] follow_n(m, s0, 0nat));
    } else {
        lemma_cycle_no_escape(m, s0, i, k, (n - 1) as nat);
        let j = choose|j: nat| j < k && follow_n(m, s0, (n - 1) as nat) == #[trigger] follow_n(m, s0, j);
        assert(follow_n(m, s0, n) == redirect_step(m, follow_n(m, s0, (n - 1) as nat)));
        assert(follow_n(m, s0, j + 1) == redirect_step(m, follow_n(m, s0, j)));
        if j + 1 < k {
            assert(j + 1 < k && follow_n(m, s0, n) == #[trigger] follow_n(m, s0, j + 1));
        } else {
            assert(j + 1 == k);
            assert(follow_n(m, s0, n) == follow_n(m, s0, k));
            assert(i < k && follow_n(m, s0, n) == #[trigger] follow_n(m, s0, i));
        }
    }
}

proof fn lemma_cycle_never_terminates(
    m: Seq<(Seq<char>, Seq<char>)>,
    s0: Seq<char>,
    i: nat,
    k: nat,
)
    requires
        i < k,
        follow_n(m, s0, i) == follow_n(m, s0, k),
        forall|j: nat| j < k ==> assoc(m, #[trigger] follow_n(m, s0, j)) is Some,
    ensures
        !chain_terminates(m, s0),
{
    assert forall|n: nat| !is_fixed(m, #[trigger] follow_n(m, s0, n)) by {
        lemma_cycle_no_escape(m, s0, i, k, n);
        let j = choose|j: nat| j < k && follow_n(m, s0, n) == #[trigger] follow_n(m, s0, j);
        assert(assoc(m, follow_n(m, s0, j)) is Some);
    }
}

proof fn lemma_fixed_stable(m: Seq<(Seq<char>, Seq<char>)>, s0: Seq<char>, n: nat, k: nat)
    requires
        n <= k,
        is_fixed(m, follow_n(m, s0, n)),
    ensures
        follow_n(m, s0, k) == follow_n(m, s0, n),
    decreases k - n,
{
    if k > n {
        lemma_fixed_stable(m, s0, n, (k - 1) as nat);
        assert(follow_n(m, s0, k) == redirect_step(m, follow_n(m, s0, (k - 1) as nat)));
    }
}

/// Law: the fixed point reachable from a start specifier is unique.  If the
/// chain from `s0` is fixed after `n1` steps and also after `n2` steps, both
/// runs have reached the same value, so a terminating `follow_redirects`
/// returns the one fixed point the mapping reaches from its start.
pub proof fn lemma_fixed_point_unique(
    m: Seq<(Seq<char>, Seq<char>)>,
    s0: Seq<char>,
    n1: nat,
    n2: nat,
)
    requires
        is_fixed(m, follow_n(m, s0, n1)),
        is_fixed(m, follow_n(m, s0, n2)),
    ensures
        follow_n(m, s0, n1) == follow_n(m, s0, n2),
{
    if n1 <= n2 {
        lemma_fixed_stable(m, s0, n1, n2);
    } else {
        lemma_fixed_stable(m, s0, n2, n1);
    }
}

/// The fixed point the chain from `s` reaches, where one exists.
pub open spec fn chain_end(m: Seq<(Seq<char>, Seq<char>)>, s: Seq<char>) -> Seq<char> {
    follow_n(m, s, choose|n: nat| is_fixed(m, #[trigger] follow_n(m, s, n)))
}

/// A fixed value reachable from `s` is the chain's end.
pub proof fn lemma_chain_end(m: Seq<(Seq<char>, Seq<char>)>, s: Seq<char>, f: Seq<char>, n: nat)
    requires
        is_fixed(m, f),
        f == follow_n(m, s, n),
    ensures
        chain_terminates(m, s),
        chain_end(m, s) == f,
{
    assert(chain_terminates(m, s));
    let nc = choose|n: nat| is_fixed(m, #[trigger] follow_n(m, s, n));
    lemma_fixed_point_unique(m, s, n, nc);
}

/// First-match lookup of `key` among the redirect pairs.
pub fn redirect_lookup(redirects: &Vec<(String, String)>, key: &String) -> (r: Option<String>)
    ensures
        match r {
            Some(t) => assoc(pairs_view(redirects@), key@) == Some(t@),
            None => assoc(pairs_view(redirects@), key@) is None,
        },
{
    let ghost m = pairs_view(redirects@);
    let mut i: usize = 0;
    while i < redirects.len()
        invariant
            m == pairs_view(redirects@),
            0 <= i <= redirects.len(),
            forall|j: int| 0 <= j < i ==> (#[trigger] m[j]).0 != key@,
        decreases redirects.len() - i,
    {
        if redirects[i].0 == *key {
            proof {
                lemma_assoc_skip(m, key@, i as int);
                assert(m.skip(i as int)[0] == m[i as int]);
            }
            return Some(redirects[i].1.clone());
        }
        i += 1;
    }
    proof {
        lemma_assoc_skip(m, key@, redirects@.len() as int);
        assert(m.skip(m.len() as int) =~= Seq::<(Seq<char>, Seq<char>)>::empty());
    }
    None
}

fn contains_string(v: &Vec<String>, x: &String) -> (b: bool)
    ensures
        b == exists|i: int| 0 <= i < v@.len() && (#[trigger] v@[i])@ == x@,
{
    let mut i: usize = 0;
    while i < v.len()
        invariant
            0 <= i <= v.len(),
            forall|j: int| 0 <= j < i ==> (#[trigger] v@[j])@ != x@,
        decreases v.len() - i,
    {
        if v[i] == *x {
            return true;
        }
        i += 1;
    }
    false
}

/// Follow the redirect mapping from `initial` until a value that is not a
/// key of the mapping is reached; that value is the resolved target, whether
/// or not a module entry exists for it.  A value encountered twice can never
/// reach a fixed point, so the chain is rejected as circular.
///
/// The result is `Ok` exactly when a fixed point is reachable from
/// `initial`, and the returned specifier is that fixed point.
pub fn follow_redirects(initial: &str, redirects: &Vec<(String, String)>) -> (r: Result<
    String,
    ResolveError,
>)
    ensures
        match r {
            Ok(f) => {
                &&& is_fixed(pairs_view(redirects@), f@)
                &&& exists|n: nat| f@ == follow_n(pairs_view(redirects@), initial@, n)
                &&& chain_terminates(pairs_view(redirects@), initial@)
            },
            Err(e) => {
                &&& e == ResolveError::CircularRedirect
                &&& !chain_terminates(pairs_view(redirects@), initial@)
            },
        },
{
    let ghost m = pairs_view(redirects@);
    let mut current: String = initial.to_owned();
    let mut seen: Vec<String> = Vec::new();
    proof {
        lemma_distinct_keys_bound(m, seen@.map_values(|s: String| s@));
    }
    loop
        invariant
            m == pairs_view(redirects@),
            current@ == follow_n(m, initial@, seen@.len() as nat),
            forall|i: int|
                0 <= i < seen@.len() ==> (#[trigger] seen@[i])@ == follow_n(m, initial@, i as nat),
            forall|i: int| 0 <= i < seen@.len() ==> assoc(m, (#[trigger] seen@[i])@) is Some,
            forall|i: int, j: int|
                0 <= i < j < seen@.len() ==> (#[trigger] seen@[i])@ != (#[trigger] seen@[j])@,
            seen@.len() <= key_set(m).len(),
        decreases key_set(m).len() + 1 - seen@.len(),
    {
        let ghost k = seen@.len() as nat;
        match redirect_lookup(redirects, &current) {
            None => {
                return Ok(current);
            },
            Some(next) => {
                if contains_string(&seen, &current) {
                    proof {
                        let i = choose|i: int|
                            0 <= i < seen@.len() && (#[trigger] seen@[i])@ == current@;
                        assert(follow_n(m, initial@, i as nat) == follow_n(m, initial@, k));
                        assert forall|j: nat| j < k implies assoc(
                            m,
                            #[trigger] follow_n(m, initial@, j),
                        ) is Some by {
                            assert(seen@[j as int]@ == follow_n(m, initial@, j));
                        }
                        lemma_cycle_never_terminates(m, initial@, i as nat, k);
                    }
                    return Err(ResolveError::CircularRedirect);
                }
                seen.push(current);
                current = next;
                proof {
                    assert(follow_n(m, initial@, (k + 1) as nat) == redirect_step(
                        m,
                        follow_n(m, initial@, k),
                    ));
                    let views = seen@.map_values(|s: String| s@);
                    assert forall|i: int, j: int|
                        0 <= i < j < views.len() implies views[i] != views[j] by {
                        assert(views[i] == seen@[i]@ && views[j] == seen@[j]@);
                    }
                    assert(views.no_duplicates());
                    assert forall|i: int| 0 <= i < views.len() implies assoc(
                        m,
                        #[trigger] views[i],
                    ) is Some by {
                        assert(views[i] == seen@[i]@);
                    }
                    lemma_distinct_keys_bound(m, views);
                }
            },
        }
    }
}

} // verus!
