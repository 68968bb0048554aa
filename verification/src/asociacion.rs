//! Maps kept as two sequences of equal length: the keys, none of them twice,
//! and the value of each key at the same position.

use vstd::prelude::*;
use crate::cuenta::AccountId;

verus! {

/// The map that takes each identity of `claves` to the value that `valores`
/// holds at the identity's position.
pub open spec fn mapa<V>(claves: Seq<AccountId>, valores: Seq<V>) -> Map<AccountId, V> {
    Map::new(|id: AccountId| claves.contains(id), |id: AccountId| valores[claves.index_of(id)])
}

/// Tells whether no identity occurs twice in `claves`.
pub fn sin_repetidos(claves: &Vec<AccountId>) -> (r: bool)
    ensures
        r == claves@.no_duplicates(),
{
    let mut i: usize = 0;
    while i < claves.len()
        invariant
            i <= claves.len(),
            forall|a: int, b: int| 0 <= a < b < i ==> claves@[a] != claves@[b],
        decreases claves.len() - i,
    {
        let mut j: usize = 0;
        while j < i
            invariant
                j <= i < claves.len(),
                forall|a: int| 0 <= a < j ==> claves@[a] != claves@[i as int],
            decreases i - j,
        {
            if claves[j].es_igual(&claves[i]) {
                return false;
            }
            j = j + 1;
        }
        i = i + 1;
    }
    true
}

/// Each key of the map leads to the value at the key's position.
pub proof fn lema_mapa_en<V>(claves: Seq<AccountId>, valores: Seq<V>, i: int)
    requires
        claves.no_duplicates(),
        0 <= i < claves.len(),
    ensures
        mapa(claves, valores).contains_key(claves[i]),
        mapa(claves, valores)[claves[i]] == valores[i],
{
}

/// Appending a new key and its value inserts the pair into the map.
pub proof fn lema_mapa_push<V>(claves: Seq<AccountId>, valores: Seq<V>, id: AccountId, v: V)
    requires
        claves.no_duplicates(),
        claves.len() == valores.len(),
        !claves.contains(id),
    ensures
        claves.push(id).no_duplicates(),
        mapa(claves.push(id), valores.push(v)) == mapa(claves, valores).insert(id, v),
{
    let claves2 = claves.push(id);
    assert forall|k: AccountId| claves2.contains(k) <==> (k == id || claves.contains(k)) by {
        if claves.contains(k) {
            assert(claves2[claves.index_of(k)] == k);
        }
        if k == id {
            assert(claves2[claves.len() as int] == id);
        }
    }
    assert forall|k: AccountId| claves2.contains(k) implies #[trigger] mapa(
        claves2,
        valores.push(v),
    )[k] == mapa(claves, valores).insert(id, v)[k] by {
        assert(claves2[claves2.index_of(k)] == k);
    }
}

/// Replacing the value at a position replaces the value of the key there.
pub proof fn lema_mapa_update<V>(claves: Seq<AccountId>, valores: Seq<V>, i: int, v: V)
    requires
        claves.no_duplicates(),
        claves.len() == valores.len(),
        0 <= i < claves.len(),
    ensures
        mapa(claves, valores.update(i, v)) == mapa(claves, valores).insert(claves[i], v),
{
    assert forall|k: AccountId| claves.contains(k) implies #[trigger] mapa(
        claves,
        valores.update(i, v),
    )[k] == mapa(claves, valores).insert(claves[i], v)[k] by {
        assert(claves[claves.index_of(k)] == k);
    }
}

} // verus!
