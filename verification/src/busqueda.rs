//! The first position of a sequence at which a property holds.

use vstd::prelude::*;

verus! {

/// Some element of `s` satisfies `p`.
pub open spec fn alguno<T>(s: Seq<T>, p: spec_fn(T) -> bool) -> bool {
    exists|k: int| 0 <= k < s.len() && #[trigger] p(s[k])
}

/// `k` is a position of `s` whose element satisfies `p`, and no earlier one does.
pub open spec fn es_primero<T>(s: Seq<T>, p: spec_fn(T) -> bool, k: int) -> bool {
    &&& 0 <= k < s.len()
    &&& p(s[k])
    &&& forall|j: int| 0 <= j < k ==> !#[trigger] p(s[j])
}

/// The first position of `s` whose element satisfies `p`, where there is one.
pub open spec fn primero<T>(s: Seq<T>, p: spec_fn(T) -> bool) -> int {
    choose|k: int| es_primero(s, p, k)
}

/// A first position is the only one.
pub proof fn lema_primero_unico<T>(s: Seq<T>, p: spec_fn(T) -> bool, k: int)
    requires
        es_primero(s, p, k),
    ensures
        alguno(s, p),
        primero(s, p) == k,
{
    assert(es_primero(s, p, primero(s, p)));
}

/// Where some element satisfies `p`, there is a first one.
pub proof fn lema_alguno_tiene_primero<T>(s: Seq<T>, p: spec_fn(T) -> bool)
    requires
        alguno(s, p),
    ensures
        es_primero(s, p, primero(s, p)),
{
    let w = choose|k: int| 0 <= k < s.len() && #[trigger] p(s[k]);
    lema_primero_hasta(s, p, w);
}

/// Where the element at `hasta` satisfies `p`, a first position lies at or
/// before it.
proof fn lema_primero_hasta<T>(s: Seq<T>, p: spec_fn(T) -> bool, hasta: int)
    requires
        0 <= hasta < s.len(),
        p(s[hasta]),
    ensures
        exists|k: int| es_primero(s, p, k) && k <= hasta,
    decreases hasta,
{
    if exists|j: int| 0 <= j < hasta && #[trigger] p(s[j]) {
        let j = choose|j: int| 0 <= j < hasta && #[trigger] p(s[j]);
        lema_primero_hasta(s, p, j);
    } else {
        assert(es_primero(s, p, hasta));
    }
}

} // verus!
