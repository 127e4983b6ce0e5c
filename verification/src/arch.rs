//! Binary architecture of the build target.

use vstd::prelude::*;

verus! {

/// The architecture whose tool directory is searched.
#[derive(Debug, Clone, Copy, PartialEq, Eq, Structural, Hash)]
pub enum Arch {
    X86,
    X64,
}

/// The prefix that marks a 64-bit target triple.
pub open spec fn x64_prefix() -> Seq<char> {
    "x86_64"@
}

/// A target triple names a 64-bit target when it begins with [`x64_prefix`].
pub open spec fn is_x64_triple(target: Seq<char>) -> bool {
    x64_prefix().is_prefix_of(target)
}

/// The architecture a target triple stands for.
pub open spec fn arch_of(target: Seq<char>) -> Arch {
    if is_x64_triple(target) {
        Arch::X64
    } else {
        Arch::X86
    }
}

impl Arch {
    /// Maps a target triple to its architecture: `X64` exactly when the
    /// triple begins with `x86_64`, `X86` for every other string.
    pub fn for_target(target: &str) -> (arch: Arch)
        ensures
            arch == arch_of(target@),
    {
        let prefix = "x86_64";
        proof {
            reveal_strlit("x86_64");
        }
        let wanted: usize = prefix.unicode_len();
        let given: usize = target.unicode_len();
        if given < wanted {
            return Arch::X86;
        }
        let mut i: usize = 0;
        while i < wanted
            invariant
                wanted == prefix@.len(),
                given == target@.len(),
                wanted <= given,
                i <= wanted,
                prefix@ == x64_prefix(),
                forall|j: int| 0 <= j < i ==> target@[j] == prefix@[j],
            decreases wanted - i,
        {
            if target.get_char(i) != prefix.get_char(i) {
                proof {
                    assert(target@.subrange(0, wanted as int)[i as int] == target@[i as int]);
                }
                return Arch::X86;
            }
            i += 1;
        }
        proof {
            assert(prefix@ =~= target@.subrange(0, wanted as int));
        }
        Arch::X64
    }

    /// Picks the subpath that belongs to this architecture.
    pub fn select<'a>(self, x86: &'a str, x64: &'a str) -> (chosen: &'a str)
        ensures
            chosen@ == arch_subpath(self, x86@, x64@),
    {
        match self {
            Arch::X86 => x86,
            Arch::X64 => x64,
        }
    }
}

/// The subpath selected by an architecture.
pub open spec fn arch_subpath(arch: Arch, x86: Seq<char>, x64: Seq<char>) -> Seq<char> {
    match arch {
        Arch::X86 => x86,
        Arch::X64 => x64,
    }
}

} // verus!
