//! The first element of a sequence that has a property.
use vstd::prelude::*;

verus! {

/// When some element of `s` has the property `p`, a first one has it: an
/// element with `p` before which none has it.
pub proof fn lemme_minimal<A>(s: Seq<A>, p: spec_fn(A) -> bool, i: int)
    requires
        0 <= i < s.len(),
        p(s[i]),
    ensures
        exists|m: int| 0 <= m <= i && #[trigger] p(s[m]) && forall|j: int| 0 <= j < m ==> !p(#[trigger] s[j]),
    decreases i,
{
    if exists|j: int| 0 <= j < i && #[trigger] p(s[j]) {
        let j = choose|j: int| 0 <= j < i && #[trigger] p(s[j]);
        lemme_minimal(s, p, j);
    } else {
        assert(forall|j: int| 0 <= j < i ==> !p(#[trigger] s[j]));
        assert(p(s[i]));
    }
}

} // verus!
