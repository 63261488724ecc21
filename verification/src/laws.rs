//! The boundary's cross-operation guarantees, stated and proved once over
//! the boundary state model.

use vstd::prelude::*;
use crate::boundary::{
    effective_watermarks, lemma_after_allocate_wf, lemma_covering_object_unique, AuxEntry,
    CoreView, LiveObject,
};
use crate::prototype::{record_of, UfoParameters};

verus! {

/// Creating a boundary with the watermark pair reversed puts the same
/// effective watermarks into effect.
pub proof fn lemma_effective_watermarks_symmetric(low: usize, high: usize)
    ensures
        effective_watermarks(low, high) == effective_watermarks(high, low),
{
}

/// After a successful object creation, a parameter query on the returned
/// handle reproduces exactly the parameter block supplied at creation,
/// including the original callback addresses.
pub proof fn lemma_create_object_params_round_trip(v: CoreView, proto: UfoParameters)
    requires
        v.wf(),
        v.can_allocate(proto),
    ensures
        v.after_allocate(proto).has_record(v.new_token(proto).id),
        v.after_allocate(proto).params_for(v.new_token(proto)) == proto,
{
    let a = v.after_allocate(proto);
    let tok = v.new_token(proto);
    lemma_after_allocate_wf(v, proto);
    let n = v.callbacks.len() as int;
    assert(a.callbacks[n] == (AuxEntry { id: v.next_id, record: record_of(proto) }));
    assert(a.has_record(tok.id));
    let c = choose|i: int| 0 <= i < a.callbacks.len() && (#[trigger] a.callbacks[i]).id == tok.id;
    if c < n {
        assert(a.callbacks[c].id < a.callbacks[n].id);
    }
    assert(c == n);
    assert(a.record_for(tok.id) == record_of(proto));
}

/// An address lookup on any address inside a freshly created object's
/// reserved range — header and element data alike — yields that very
/// object.
pub proof fn lemma_lookup_finds_created_object(v: CoreView, proto: UfoParameters, addr: int)
    requires
        v.wf(),
        v.can_allocate(proto),
        v.new_info(proto).contains(addr),
    ensures
        v.after_allocate(proto).covers(addr),
        v.after_allocate(proto).object_at(addr) == (LiveObject {
            id: v.next_id,
            info: v.new_info(proto),
        }),
{
    let a = v.after_allocate(proto);
    lemma_after_allocate_wf(v, proto);
    let n = v.objects.len() as int;
    assert(a.objects[n] == (LiveObject { id: v.next_id, info: v.new_info(proto) }));
    assert(a.covers(addr));
    let c = choose|i: int| 0 <= i < a.objects.len() && (#[trigger] a.objects[i]).info.contains(
        addr,
    );
    lemma_covering_object_unique(a, addr, c, n);
}

/// Freeing an object takes its whole reserved range out of the address
/// lookup: afterwards no address of that range belongs to any live object.
pub proof fn lemma_free_uncovers(v: CoreView, i: int, addr: int)
    requires
        v.wf(),
        0 <= i < v.objects.len(),
        v.objects[i].info.contains(addr),
    ensures
        !v.after_free(v.objects[i].id).covers(addr),
{
    let id = v.objects[i].id;
    let a = v.after_free(id);
    assert(v.objects[i].id == id);
    let c = choose|k: int| 0 <= k < v.objects.len() && (#[trigger] v.objects[k]).id == id;
    if c < i {
        assert(v.objects[c].id < v.objects[i].id);
    } else if i < c {
        assert(v.objects[i].id < v.objects[c].id);
    }
    assert(c == i);
    v.objects.remove_ensures(i);
    assert forall|k: int| 0 <= k < a.objects.len() implies !(#[trigger] a.objects[k]).info.contains(
        addr,
    ) by {
        let k0 = if k < i {
            k
        } else {
            k + 1
        };
        assert(a.objects[k] == v.objects[k0]);
        if v.objects[k0].info.contains(addr) {
            lemma_covering_object_unique(v, addr, k0, i);
        }
    }
}

/// Once the process-wide event handler is cleared, no engine event has a
/// delivery target any more.
pub proof fn lemma_cleared_core_delivers_nothing(v: CoreView)
    ensures
        v.with_handler(None).delivery_target() is None,
{
}

} // verus!
