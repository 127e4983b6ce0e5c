//! The one-time augmentation of the environment.
//!
//! Before a tool of a multi-version kit can be used, the include path of the
//! native compiler toolchain has to be copied into the environment. That is
//! done at most once: a guard is claimed first, and only the caller that
//! claims it looks the toolchain up.

use vstd::prelude::*;

verus! {

/// Remembers whether the augmentation has been claimed.
#[derive(Debug)]
pub struct AugmentationGuard {
    claimed: bool,
}

impl AugmentationGuard {
    /// Whether the augmentation has been claimed.
    pub closed spec fn is_claimed(&self) -> bool {
        self.claimed
    }

    /// A guard in the state that a process-wide flag was found in.
    pub fn from_flag(claimed: bool) -> (guard: AugmentationGuard)
        ensures
            guard.is_claimed() == claimed,
    {
        AugmentationGuard { claimed }
    }

    /// A guard that nobody has claimed yet.
    pub fn new() -> (guard: AugmentationGuard)
        ensures
            !guard.is_claimed(),
    {
        AugmentationGuard { claimed: false }
    }

    /// Claims the augmentation. Only the first claim on a guard is granted;
    /// the guard is claimed afterwards in either case.
    pub fn include_windows_10_kits(&mut self) -> (granted: bool)
        ensures
            granted == !old(self).is_claimed(),
            final(self).is_claimed(),
    {
        let granted = !self.claimed;
        self.claimed = true;
        granted
    }
}

/// The number of claims that are granted among `claims` successive claims
/// on a guard that starts out as `claimed`.
pub open spec fn grants(claimed: bool, claims: nat) -> nat
    decreases claims,
{
    if claims == 0 {
        0
    } else {
        let granted: nat = if claimed {
            0
        } else {
            1
        };
        granted + grants(true, (claims - 1) as nat)
    }
}

/// However often a guard is claimed, at most one claim is granted: the
/// first, and only on a guard that was not claimed before.
pub proof fn lemma_granted_at_most_once(claimed: bool, claims: nat)
    ensures
        grants(claimed, claims) == (if !claimed && claims > 0 {
            1nat
        } else {
            0nat
        }),
    decreases claims,
{
    if claims > 0 {
        lemma_granted_at_most_once(true, (claims - 1) as nat);
    }
}

/// The names of the variables of a toolchain's environment, in order.
pub open spec fn names_of<V>(env: Vec<(String, V)>) -> Seq<Seq<char>> {
    env@.map_values(|pair: (String, V)| pair.0@)
}

/// The name of the variable that holds the include path.
pub open spec fn include_name() -> Seq<char> {
    "INCLUDE"@
}

/// The position of the first name at or after `from` that is `INCLUDE`,
/// or the number of names if there is none.
pub open spec fn include_position(names: Seq<Seq<char>>, from: nat) -> nat
    decreases names.len() - from,
{
    if from >= names.len() {
        names.len()
    } else if names[from as int] == include_name() {
        from
    } else {
        include_position(names, from + 1)
    }
}

/// The value that the augmentation copies into the environment.
pub open spec fn include_value<V>(env: Vec<(String, V)>) -> Option<V> {
    let at = include_position(names_of(env), 0);
    if at < env.len() {
        Some(env@[at as int].1)
    } else {
        None
    }
}

/// Picks the include path out of a toolchain's environment: the value of
/// the first variable named `INCLUDE`, handed out as it came in, or nothing
/// where there is none or no toolchain was found.
pub fn include_windows_10_kits_impl<V>(toolchain: Option<Vec<(String, V)>>) -> (found: Option<V>)
    ensures
        found == (match toolchain {
            Some(env) => include_value(env),
            None => None,
        }),
{
    match toolchain {
        None => None,
        Some(env) => {
            let mut env = env;
            let ghost all = env;
            let name = "INCLUDE";
            let mut i: usize = 0;
            while i < env.len()
                invariant
                    i <= env.len(),
                    env == all,
                    toolchain == Some(all),
                    name@ == include_name(),
                    include_position(names_of(all), 0) == include_position(names_of(all), i as nat),
                decreases env.len() - i,
            {
                proof {
                    assert(names_of(all)[i as int] == all@[i as int].0@);
                }
                if same_text(env[i].0.as_str(), name) {
                    proof {
                        assert(names_of(all).len() == all.len());
                        assert(include_position(names_of(all), i as nat) == i);
                    }
                    let pair = env.remove(i);
                    return Some(pair.1);
                }
                i += 1;
            }
            None
        },
    }
}

/// Whether two strings hold the same characters.
pub fn same_text(a: &str, b: &str) -> (same: bool)
    ensures
        same == (a@ == b@),
{
    let n: usize = a.unicode_len();
    if n != b.unicode_len() {
        return false;
    }
    let mut i: usize = 0;
    while i < n
        invariant
            n == a@.len(),
            n == b@.len(),
            i <= n,
            forall|j: int| 0 <= j < i ==> a@[j] == b@[j],
        decreases n - i,
    {
        if a.get_char(i) != b.get_char(i) {
            return false;
        }
        i += 1;
    }
    proof {
        assert(a@ =~= b@);
    }
    true
}

} // verus!
