use vstd::prelude::*;

use crate::body::TypeDescriptor;
use crate::registry::BlockingPrimitiveSet;

verus! {

/// A path matches the registry exactly when some entry equals it, segment for
/// segment. Nothing weaker counts: not a shared prefix, not a shared suffix,
/// not a substring.
pub open spec fn registry_matches(reg: Seq<Seq<Seq<char>>>, path: Seq<Seq<char>>) -> bool {
    exists|i: int| 0 <= i < reg.len() && reg[i] == path
}

/// A type blocks the calling thread exactly when it is nominal and its fully
/// qualified path matches the registry. A type without a nominal path can
/// never match.
pub open spec fn type_is_blocking(reg: Seq<Seq<Seq<char>>>, ty: Option<Seq<Seq<char>>>) -> bool {
    match ty {
        Some(path) => registry_matches(reg, path),
        None => false,
    }
}

/// An entry and a path visibly differ: they disagree in length, or in some
/// segment position they both have. Either way they cannot be the same name.
pub open spec fn paths_differ(entry: Seq<Seq<char>>, path: Seq<Seq<char>>) -> bool {
    ||| entry.len() != path.len()
    ||| exists|j: int| 0 <= j < path.len() && j < entry.len() && #[trigger] entry[j] != path[j]
}

/// Decides whether an interior value's type is one of the registered
/// blocking primitives. Pure: it reads the registry and the descriptor and
/// changes neither.
pub fn is_blocking(registry: &BlockingPrimitiveSet, ty: &TypeDescriptor) -> (r: bool)
    ensures
        r == type_is_blocking(registry@, ty@),
{
    match ty {
        TypeDescriptor::NonNominal => false,
        TypeDescriptor::Nominal(path) => {
            proof {
                assert(ty@ == Some(path@));
            }
            let n: usize = registry.entries.len();
            let mut i: usize = 0;
            while i < n
                invariant
                    0 <= i <= n,
                    n == registry.entries.len(),
                    ty@ == Some(path@),
                    forall|j: int| 0 <= j < i ==> #[trigger] registry@[j] != path@,
                decreases n - i,
            {
                if registry.entries[i].equals(path) {
                    proof {
                        assert(registry@[i as int] == registry.entries@[i as int]@);
                        assert(registry_matches(registry@, path@));
                    }
                    return true;
                }
                proof {
                    assert(registry@[i as int] == registry.entries@[i as int]@);
                }
                i = i + 1;
            }
            false
        },
    }
}

/// Matching is exact. A path that visibly differs from every registry entry
/// never matches, even when it agrees with an entry in its trailing segments:
/// a nominal type whose path shares a final segment name with a registry
/// entry but differs in a preceding segment (or in length) is not a match.
pub proof fn lemma_matching_is_exact(reg: Seq<Seq<Seq<char>>>, path: Seq<Seq<char>>)
    requires
        forall|i: int| 0 <= i < reg.len() ==> paths_differ(#[trigger] reg[i], path),
    ensures
        !registry_matches(reg, path),
{
    if registry_matches(reg, path) {
        let i = choose|i: int| 0 <= i < reg.len() && reg[i] == path;
        assert(paths_differ(reg[i], path));
        if reg[i].len() == path.len() {
            let j = choose|j: int|
                0 <= j < path.len() && j < reg[i].len() && #[trigger] reg[i][j] != path[j];
            assert(reg[i][j] == path[j]);
        }
        assert(false);
    }
}

} // verus!
