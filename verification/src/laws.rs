//! Laws relating the store's operations, stated over the same record maps
//! that the operations' contracts use.
use vstd::prelude::*;
use crate::service::Service;

verus! {

/// A record just written is the record a read of its identifier returns:
/// `add_timber`, `add_sales`, `update_timber` and `update_sales` each leave
/// the record map at `insert(t.id, t)` of the returned record `t`, and
/// `get_timber` / `get_sales` return exactly the record stored under the
/// requested identifier.
pub proof fn lemma_read_back<V>(m: Map<u64, V>, id: u64, v: V)
    ensures
        m.insert(id, v).contains_key(id),
        m.insert(id, v)[id] == v,
{
}

/// Deleting the same identifier twice succeeds once and then fails: a
/// successful delete leaves the record map at `remove(id)`, under which the
/// identifier is absent, and a delete of an absent identifier returns the
/// not-found error and mutates nothing.
pub proof fn lemma_delete_twice<V>(m: Map<u64, V>, id: u64)
    ensures
        !m.remove(id).contains_key(id),
{
}

/// An identifier above the counter was never minted and is absent from both
/// record maps; a read of it therefore returns the not-found error. In
/// particular the next identifier to be minted, the counter plus one, is
/// fresh across both record kinds.
pub proof fn lemma_unminted_absent(s: Service, id: u64)
    requires
        s.wf(),
        id > s.counter_val(),
    ensures
        !s.timber_records().contains_key(id),
        !s.sales_records().contains_key(id),
{
    if s.timber_records().contains_key(id) {
        assert(s.timber_bytes().contains_key(id));
    }
    if s.sales_records().contains_key(id) {
        assert(s.sales_bytes().contains_key(id));
    }
}

/// Sequential creates mint strictly increasing, hence pairwise distinct,
/// identifiers, whatever mix of record kinds: every create returns the
/// counter plus one and leaves the counter at the returned identifier.
pub proof fn lemma_created_ids_increase(
    s0: Service,
    s1: Service,
    s2: Service,
    id1: u64,
    id2: u64,
)
    requires
        id1 == s0.counter_val() + 1,
        s1.counter_val() == id1,
        id2 == s1.counter_val() + 1,
        s2.counter_val() == id2,
    ensures
        id1 < id2,
{
}

} // verus!
