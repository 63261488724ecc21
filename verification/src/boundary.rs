//! The engine-wide handle and the boundary state behind it.
//!
//! A `UfoCore` is either null or owns the boundary's view of one engine
//! instance: the effective watermark configuration, the registry of live
//! objects with their address layouts, the callback-metadata table keyed by
//! engine-issued object identifier, and the process-wide event handler. The
//! paging machinery itself (reservation, fault handling, population workers,
//! eviction) is the engine's and is out of scope here; the boundary owns every
//! decision about handles, parameters, identities and addresses, and those
//! decisions are what this module verifies.

use vstd::prelude::*;
use crate::handle::OpaqueHandle;
use crate::layout::{ObjectInfo, PAGE_BYTES};
use crate::object::{ObjToken, UfoObj};
use crate::prototype::{record_of, make_record, AuxCallbackRecord, UfoParameters};

verus! {

/// One live object as the registry holds it.
#[derive(Clone, Copy, PartialEq, Eq, Structural, Debug)]
pub struct LiveObject {
    pub id: u64,
    pub info: ObjectInfo,
}

/// One entry of the callback-metadata table.
#[derive(Clone, Copy, PartialEq, Eq, Debug)]
pub struct AuxEntry {
    pub id: u64,
    pub record: AuxCallbackRecord,
}

/// The process-wide event handler: a (context address, function address)
/// pair every engine event is forwarded to.
#[derive(Clone, Copy, PartialEq, Eq, Structural, Debug)]
pub struct EventHandler {
    pub callback_data: usize,
    pub callback: usize,
}

/// The watermark pair actually put into effect for a requested pair: the
/// two values in ascending order.
pub open spec fn effective_watermarks(low: usize, high: usize) -> (usize, usize) {
    if low <= high {
        (low, high)
    } else {
        (high, low)
    }
}

/// The boundary state as contracts speak of it.
#[verifier::ext_equal]
pub ghost struct CoreView {
    pub writeback_path: Seq<char>,
    pub low_watermark: usize,
    pub high_watermark: usize,
    pub objects: Seq<LiveObject>,
    pub callbacks: Seq<AuxEntry>,
    pub event_handler: Option<EventHandler>,
    pub next_id: u64,
    pub next_base: usize,
}

impl CoreView {
    /// The state of a freshly created engine boundary.
    pub open spec fn initial(path: Seq<char>, low: usize, high: usize) -> CoreView {
        CoreView {
            writeback_path: path,
            low_watermark: effective_watermarks(low, high).0,
            high_watermark: effective_watermarks(low, high).1,
            objects: Seq::empty(),
            callbacks: Seq::empty(),
            event_handler: None,
            next_id: 0,
            next_base: PAGE_BYTES,
        }
    }

    /// The boundary's invariant. Watermarks are strictly ordered; the
    /// registry holds well-formed layouts in ascending identifier order with
    /// pairwise disjoint, ascending address ranges below the allocation
    /// cursor; the callback table is keyed by ascending identifiers; no
    /// identifier at or above `next_id` has been issued.
    pub open spec fn wf(self) -> bool {
        &&& self.low_watermark < self.high_watermark
        &&& self.next_base >= PAGE_BYTES
        &&& (self.next_base as int) % (PAGE_BYTES as int) == 0
        &&& forall|i: int| 0 <= i < self.objects.len() ==> (#[trigger] self.objects[i]).info.wf()
        &&& forall|i: int| 0 <= i < self.objects.len() ==> (#[trigger] self.objects[i]).id < self.next_id
        &&& forall|i: int, j: int| #![trigger self.objects[i], self.objects[j]]
            0 <= i < j < self.objects.len() ==> self.objects[i].id < self.objects[j].id
        &&& forall|i: int, j: int| #![trigger self.objects[i], self.objects[j]]
            0 <= i < j < self.objects.len()
                ==> self.objects[i].info.end_addr() <= self.objects[j].info.base
        &&& forall|i: int| 0 <= i < self.objects.len()
            ==> (#[trigger] self.objects[i]).info.end_addr() <= self.next_base
        &&& forall|i: int| 0 <= i < self.callbacks.len() ==> (#[trigger] self.callbacks[i]).id < self.next_id
        &&& forall|i: int, j: int| #![trigger self.callbacks[i], self.callbacks[j]]
            0 <= i < j < self.callbacks.len() ==> self.callbacks[i].id < self.callbacks[j].id
    }

    /// True iff the callback table has an entry for `id`.
    pub open spec fn has_record(self, id: u64) -> bool {
        exists|i: int| 0 <= i < self.callbacks.len() && (#[trigger] self.callbacks[i]).id == id
    }

    /// The callback record for `id` (meaningful when `has_record(id)`).
    pub open spec fn record_for(self, id: u64) -> AuxCallbackRecord {
        let i = choose|i: int| 0 <= i < self.callbacks.len() && (#[trigger] self.callbacks[i]).id == id;
        self.callbacks[i].record
    }

    /// True iff `addr` lies inside some live object's reserved range.
    pub open spec fn covers(self, addr: int) -> bool {
        exists|i: int| 0 <= i < self.objects.len() && (#[trigger] self.objects[i]).info.contains(addr)
    }

    /// The live object whose range holds `addr` (meaningful when
    /// `covers(addr)`; unique under `wf` because ranges are disjoint).
    pub open spec fn object_at(self, addr: int) -> LiveObject {
        let i = choose|i: int| 0 <= i < self.objects.len() && (#[trigger] self.objects[i]).info.contains(addr);
        self.objects[i]
    }

    /// The parameter block `ufo_get_params` reports for a handle's token:
    /// the live configuration joined with the recorded callback addresses.
    pub open spec fn params_for(self, tok: ObjToken) -> UfoParameters {
        UfoParameters {
            header_size: tok.info.header_size,
            element_size: tok.info.element_size,
            element_ct: tok.info.element_ct,
            min_load_ct: tok.info.min_load_ct,
            read_only: tok.info.read_only,
            populate_data: self.record_for(tok.id).populate_data,
            populate_fn: self.record_for(tok.id).populate_fn,
            writeback_listener_data: self.record_for(tok.id).writeback_listener_data,
            writeback_listener: self.record_for(tok.id).writeback_listener,
        }
    }

    /// Bytes the object described by `proto` will span.
    pub open spec fn alloc_span(proto: UfoParameters) -> int {
        proto.header_size + proto.element_ct * proto.element_size
    }

    /// The allocation cursor after reserving `span` bytes at `base`: the end
    /// of the range, rounded up to the next page boundary.
    pub open spec fn padded_end(base: int, span: int) -> int {
        ((base + span + PAGE_BYTES - 1) / (PAGE_BYTES as int)) * (PAGE_BYTES as int)
    }

    /// True iff the engine can reserve a range for `proto` in this state: a
    /// fresh identifier remains and the new range fits in the address space.
    pub open spec fn can_allocate(self, proto: UfoParameters) -> bool {
        &&& self.next_id < u64::MAX
        &&& Self::padded_end(self.next_base as int, Self::alloc_span(proto)) <= usize::MAX
    }

    /// The layout the new object receives: the supplied sizes, placed at the
    /// current allocation cursor.
    pub open spec fn new_info(self, proto: UfoParameters) -> ObjectInfo {
        ObjectInfo {
            base: self.next_base,
            header_size: proto.header_size,
            element_size: proto.element_size,
            element_ct: proto.element_ct,
            min_load_ct: proto.min_load_ct,
            read_only: proto.read_only,
        }
    }

    /// The token a successful `ufo_new_object` returns in this state.
    pub open spec fn new_token(self, proto: UfoParameters) -> ObjToken {
        ObjToken { id: self.next_id, info: self.new_info(proto) }
    }

    /// The state after a successful allocation for `proto`: the new object
    /// joins the registry, its callback record joins the table, and the
    /// identifier and address cursors advance.
    pub open spec fn after_allocate(self, proto: UfoParameters) -> CoreView {
        CoreView {
            objects: self.objects.push(LiveObject { id: self.next_id, info: self.new_info(proto) }),
            callbacks: self.callbacks.push(AuxEntry { id: self.next_id, record: record_of(proto) }),
            next_id: (self.next_id + 1) as u64,
            next_base: Self::padded_end(self.next_base as int, Self::alloc_span(proto)) as usize,
            ..self
        }
    }

    /// The state after freeing the object `id`: it leaves the registry; its
    /// callback record is retained.
    pub open spec fn after_free(self, id: u64) -> CoreView {
        if exists|i: int| 0 <= i < self.objects.len() && (#[trigger] self.objects[i]).id == id {
            let i = choose|i: int| 0 <= i < self.objects.len() && (#[trigger] self.objects[i]).id == id;
            CoreView { objects: self.objects.remove(i), ..self }
        } else {
            self
        }
    }

    /// The state after installing `h` as the process-wide event handler.
    pub open spec fn with_handler(self, h: Option<EventHandler>) -> CoreView {
        CoreView { event_handler: h, ..self }
    }

    /// Whom an engine event is forwarded to in this state.
    pub open spec fn delivery_target(self) -> Option<EventHandler> {
        self.event_handler
    }
}

/// Rounding `x` up to the next page boundary stays between `x` and
/// `x + PAGE_BYTES - 1` and lands on a page boundary.
proof fn lemma_round_up(x: int)
    requires
        0 <= x,
    ensures
        x <= (x + PAGE_BYTES - 1) / (PAGE_BYTES as int) * (PAGE_BYTES as int),
        (x + PAGE_BYTES - 1) / (PAGE_BYTES as int) * (PAGE_BYTES as int) <= x + PAGE_BYTES - 1,
        ((x + PAGE_BYTES - 1) / (PAGE_BYTES as int) * (PAGE_BYTES as int)) % (PAGE_BYTES as int)
            == 0,
{
    let p = PAGE_BYTES as int;
    let y = x + p - 1;
    let q = y / p;
    vstd::arithmetic::div_mod::lemma_fundamental_div_mod(y, p);
    vstd::arithmetic::div_mod::lemma_mod_bound(y, p);
    assert(q * p == y - y % p) by (nonlinear_arith)
        requires
            y == p * q + y % p,
    ;
    vstd::arithmetic::div_mod::lemma_mod_multiples_basic(q, p);
}

/// The span an object's sizes describe is never negative.
proof fn lemma_span_nonneg(proto: UfoParameters)
    ensures
        CoreView::alloc_span(proto) >= 0,
{
    assert(proto.element_ct * proto.element_size >= 0) by (nonlinear_arith);
}

/// A successful allocation preserves the boundary invariant.
pub proof fn lemma_after_allocate_wf(v: CoreView, proto: UfoParameters)
    requires
        v.wf(),
        v.can_allocate(proto),
    ensures
        v.after_allocate(proto).wf(),
        v.new_info(proto).wf(),
{
    let a = v.after_allocate(proto);
    let info = v.new_info(proto);
    let span = CoreView::alloc_span(proto);
    lemma_span_nonneg(proto);
    lemma_round_up(v.next_base + span);
    let fresh = LiveObject { id: v.next_id, info };
    assert(a.objects == v.objects.push(fresh));
    assert(info.wf());
    assert forall|i: int| 0 <= i < a.objects.len() implies (#[trigger] a.objects[i]).info.wf()
        && a.objects[i].id < a.next_id && a.objects[i].info.end_addr() <= a.next_base by {
        if i < v.objects.len() {
            assert(a.objects[i] == v.objects[i]);
            assert(v.objects[i].info.end_addr() <= v.next_base);
        } else {
            assert(a.objects[i] == fresh);
        }
    }
    assert forall|i: int, j: int| #![trigger a.objects[i], a.objects[j]]
        0 <= i < j < a.objects.len() implies a.objects[i].id < a.objects[j].id
        && a.objects[i].info.end_addr() <= a.objects[j].info.base by {
        if j < v.objects.len() {
            assert(a.objects[i] == v.objects[i]);
            assert(a.objects[j] == v.objects[j]);
        } else {
            assert(a.objects[j] == fresh);
            assert(a.objects[i] == v.objects[i]);
            assert(v.objects[i].info.end_addr() <= v.next_base);
        }
    }
    assert forall|i: int| 0 <= i < a.callbacks.len() implies (#[trigger] a.callbacks[i]).id
        < a.next_id by {
        if i < v.callbacks.len() {
            assert(a.callbacks[i] == v.callbacks[i]);
        } else {
            assert(a.callbacks[i] == AuxEntry { id: v.next_id, record: record_of(proto) });
        }
    }
    assert forall|i: int, j: int| #![trigger a.callbacks[i], a.callbacks[j]]
        0 <= i < j < a.callbacks.len() implies a.callbacks[i].id < a.callbacks[j].id by {
        if j < v.callbacks.len() {
            assert(a.callbacks[i] == v.callbacks[i]);
            assert(a.callbacks[j] == v.callbacks[j]);
        } else {
            assert(a.callbacks[j] == AuxEntry { id: v.next_id, record: record_of(proto) });
            assert(a.callbacks[i] == v.callbacks[i]);
        }
    }
}

/// Two live objects whose ranges share an address are the same entry:
/// the registry's ranges are pairwise disjoint.
pub proof fn lemma_covering_object_unique(v: CoreView, addr: int, i: int, j: int)
    requires
        v.wf(),
        0 <= i < v.objects.len(),
        0 <= j < v.objects.len(),
        v.objects[i].info.contains(addr),
        v.objects[j].info.contains(addr),
    ensures
        i == j,
{
    if i < j {
        assert(v.objects[i].info.end_addr() <= v.objects[j].info.base);
    } else if j < i {
        assert(v.objects[j].info.end_addr() <= v.objects[i].info.base);
    }
}

/// Removing one registry entry preserves the boundary invariant.
pub proof fn lemma_after_remove_wf(v: CoreView, i: int)
    requires
        v.wf(),
        0 <= i < v.objects.len(),
    ensures
        (CoreView { objects: v.objects.remove(i), ..v }).wf(),
{
    let a = CoreView { objects: v.objects.remove(i), ..v };
    v.objects.remove_ensures(i);
    assert forall|k: int| 0 <= k < a.objects.len() implies (#[trigger] a.objects[k]).info.wf()
        && a.objects[k].id < a.next_id && a.objects[k].info.end_addr() <= a.next_base by {
        if k < i {
            assert(a.objects[k] == v.objects[k]);
        } else {
            assert(a.objects[k] == v.objects[k + 1]);
        }
    }
    assert forall|k: int, m: int| #![trigger a.objects[k], a.objects[m]]
        0 <= k < m < a.objects.len() implies a.objects[k].id < a.objects[m].id
        && a.objects[k].info.end_addr() <= a.objects[m].info.base by {
        let k0 = if k < i { k } else { k + 1 };
        let m0 = if m < i { m } else { m + 1 };
        assert(a.objects[k] == v.objects[k0]);
        assert(a.objects[m] == v.objects[m0]);
        assert(0 <= k0 < m0 < v.objects.len());
    }
}

/// The owned boundary state behind a non-null `UfoCore`.
pub(crate) struct CoreState {
    pub(crate) writeback_path: String,
    pub(crate) low_watermark: usize,
    pub(crate) high_watermark: usize,
    pub(crate) objects: Vec<LiveObject>,
    pub(crate) callbacks: Vec<AuxEntry>,
    pub(crate) event_handler: Option<EventHandler>,
    pub(crate) next_id: u64,
    pub(crate) next_base: usize,
}

impl View for CoreState {
    type V = CoreView;

    closed spec fn view(&self) -> CoreView {
        CoreView {
            writeback_path: self.writeback_path@,
            low_watermark: self.low_watermark,
            high_watermark: self.high_watermark,
            objects: self.objects@,
            callbacks: self.callbacks@,
            event_handler: self.event_handler,
            next_id: self.next_id,
            next_base: self.next_base,
        }
    }
}

impl CoreState {
    /// Looks the callback record for `id` up in the table.
    fn record_for(&self, id: u64) -> (r: Option<AuxCallbackRecord>)
        requires
            self@.wf(),
        ensures
            match r {
                Some(rec) => self@.has_record(id) && rec == self@.record_for(id),
                None => !self@.has_record(id),
            },
    {
        let n = self.callbacks.len();
        let mut i: usize = 0;
        while i < n
            invariant
                self@.wf(),
                n == self.callbacks.len(),
                0 <= i <= n,
                forall|j: int| 0 <= j < i ==> (#[trigger] self.callbacks@[j]).id != id,
            decreases n - i,
        {
            if self.callbacks[i].id == id {
                let rec = self.callbacks[i].record;
                proof {
                    assert(self.callbacks@[i as int].id == id);
                    let k = choose|k: int|
                        0 <= k < self.callbacks@.len() && (#[trigger] self.callbacks@[k]).id == id;
                    if k < i as int {
                        assert(self.callbacks@[k].id < self.callbacks@[i as int].id);
                    } else if (i as int) < k {
                        assert(self.callbacks@[i as int].id < self.callbacks@[k].id);
                    }
                }
                return Some(rec);
            }
            i += 1;
        }
        None
    }

    /// Finds the live object whose reserved range holds `addr`.
    fn lookup_addr(&self, addr: usize) -> (r: Option<ObjToken>)
        requires
            self@.wf(),
        ensures
            match r {
                Some(tok) => {
                    &&& self@.covers(addr as int)
                    &&& self@.object_at(addr as int) == LiveObject { id: tok.id, info: tok.info }
                    &&& tok.info.wf()
                },
                None => !self@.covers(addr as int),
            },
    {
        let n = self.objects.len();
        let mut i: usize = 0;
        while i < n
            invariant
                self@.wf(),
                n == self.objects.len(),
                0 <= i <= n,
                forall|j: int| 0 <= j < i ==> !(#[trigger] self.objects@[j]).info.contains(
                    addr as int,
                ),
            decreases n - i,
        {
            let o = self.objects[i];
            proof {
                assert(o == self@.objects[i as int]);
                assert(o.info.wf());
                assert(o.info.element_ct * o.info.element_size >= 0) by (nonlinear_arith);
            }
            let body_bytes = o.info.element_ct * o.info.element_size;
            let end = o.info.base + o.info.header_size + body_bytes;
            if o.info.base <= addr && addr < end {
                proof {
                    assert(self.objects@[i as int].info.contains(addr as int));
                    let k = choose|k: int|
                        0 <= k < self.objects@.len() && (#[trigger] self.objects@[k]).info.contains(
                            addr as int,
                        );
                    lemma_covering_object_unique(self@, addr as int, k, i as int);
                }
                return Some(ObjToken { id: o.id, info: o.info });
            }
            i += 1;
        }
        None
    }

    /// Reserves identity, address range and callback record for one new
    /// object; `None`, with the state unchanged, when no fresh identifier is
    /// left or the range does not fit in the address space.
    fn allocate(&mut self, proto: &UfoParameters) -> (r: Option<ObjToken>)
        requires
            old(self)@.wf(),
        ensures
            final(self)@.wf(),
            old(self)@.can_allocate(*proto) ==> {
                &&& r == Some(old(self)@.new_token(*proto))
                &&& final(self)@ == old(self)@.after_allocate(*proto)
            },
            !old(self)@.can_allocate(*proto) ==> r is None && final(self)@ == old(self)@,
    {
        proof {
            lemma_span_nonneg(*proto);
        }
        if self.next_id == u64::MAX {
            return None;
        }
        let body_bytes = match proto.element_ct.checked_mul(proto.element_size) {
            Some(b) => b,
            None => {
                return None;
            },
        };
        let span = match proto.header_size.checked_add(body_bytes) {
            Some(s) => s,
            None => {
                return None;
            },
        };
        let end = match self.next_base.checked_add(span) {
            Some(e) => e,
            None => {
                return None;
            },
        };
        let padded = match end.checked_add(PAGE_BYTES - 1) {
            Some(p) => p,
            None => {
                return None;
            },
        };
        proof {
            lemma_round_up(self.next_base as int + CoreView::alloc_span(*proto));
        }
        let next = padded / PAGE_BYTES * PAGE_BYTES;
        let id = self.next_id;
        let info = ObjectInfo {
            base: self.next_base,
            header_size: proto.header_size,
            element_size: proto.element_size,
            element_ct: proto.element_ct,
            min_load_ct: proto.min_load_ct,
            read_only: proto.read_only,
        };
        self.objects.push(LiveObject { id, info });
        self.callbacks.push(AuxEntry { id, record: make_record(proto) });
        self.next_id = id + 1;
        self.next_base = next;
        proof {
            assert(self@ =~= old(self)@.after_allocate(*proto));
            lemma_after_allocate_wf(old(self)@, *proto);
        }
        Some(ObjToken { id, info })
    }

    /// Takes the object `id` out of the live registry; its callback record
    /// is retained so late parameter queries keep their answer.
    fn remove_object(&mut self, id: u64)
        requires
            old(self)@.wf(),
        ensures
            final(self)@.wf(),
            final(self)@ == old(self)@.after_free(id),
    {
        let n = self.objects.len();
        let mut i: usize = 0;
        while i < n
            invariant
                self@.wf(),
                self@ == old(self)@,
                n == self.objects.len(),
                0 <= i <= n,
                forall|j: int| 0 <= j < i ==> (#[trigger] self.objects@[j]).id != id,
            decreases n - i,
        {
            if self.objects[i].id == id {
                proof {
                    assert(self.objects@[i as int].id == id);
                    let k = choose|k: int|
                        0 <= k < self.objects@.len() && (#[trigger] self.objects@[k]).id == id;
                    if k < i as int {
                        assert(self.objects@[k].id < self.objects@[i as int].id);
                    } else if (i as int) < k {
                        assert(self.objects@[i as int].id < self.objects@[k].id);
                    }
                    lemma_after_remove_wf(self@, i as int);
                }
                self.objects.remove(i);
                return ;
            }
            i += 1;
        }
    }
}

/// Handle to one engine boundary; null is the documented error/absent state.
pub struct UfoCore {
    inner: OpaqueHandle<CoreState>,
}

impl View for UfoCore {
    type V = Option<CoreView>;

    closed spec fn view(&self) -> Option<CoreView> {
        match self.inner@ {
            Some(s) => Some(s@),
            None => None,
        }
    }
}

impl UfoCore {
    #[verifier::type_invariant]
    spec fn type_inv(self) -> bool {
        match self.inner@ {
            Some(s) => s@.wf(),
            None => true,
        }
    }

    /// Creates an engine boundary writing back under `writeback_temp_path`,
    /// with the watermark pair put into effect in ascending order. Equal
    /// watermarks leave no room between the two thresholds: creation fails
    /// and the null handle is returned.
    pub fn ufo_new_core(
        writeback_temp_path: String,
        low_water_mark: usize,
        high_water_mark: usize,
    ) -> (r: UfoCore)
        ensures
            r@ is Some <==> low_water_mark != high_water_mark,
            low_water_mark != high_water_mark ==> r@ == Some(
                CoreView::initial(writeback_temp_path@, low_water_mark, high_water_mark),
            ),
    {
        let mut low = low_water_mark;
        let mut high = high_water_mark;
        if low > high {
            std::mem::swap(&mut low, &mut high);
        }
        if low == high {
            return UfoCore { inner: OpaqueHandle::none() };
        }
        let state = CoreState {
            writeback_path: writeback_temp_path,
            low_watermark: low,
            high_watermark: high,
            objects: Vec::new(),
            callbacks: Vec::new(),
            event_handler: None,
            next_id: 0,
            next_base: PAGE_BYTES,
        };
        proof {
            assert(state@ =~= CoreView::initial(
                writeback_temp_path@,
                low_water_mark,
                high_water_mark,
            ));
        }
        UfoCore { inner: OpaqueHandle::wrap(state) }
    }

    /// True iff this handle is null.
    pub fn ufo_core_is_error(&self) -> (r: bool)
        ensures
            r == (self@ is None),
    {
        self.inner.is_null()
    }

    /// Stops the engine and releases the boundary state; the handle is null
    /// afterwards. A null handle is a no-op. Must not race in-flight object
    /// operations (caller contract).
    pub fn ufo_core_shutdown(&mut self)
        ensures
            final(self)@ is None,
    {
        let mut inner = OpaqueHandle::none();
        std::mem::swap(&mut inner, &mut self.inner);
        let _ = inner.take();
    }

    /// The effective watermark pair, `None` on a null handle.
    pub fn watermarks(&self) -> (r: Option<(usize, usize)>)
        ensures
            match self@ {
                Some(v) => r == Some((v.low_watermark, v.high_watermark)),
                None => r is None,
            },
    {
        match self.inner.deref() {
            Some(state) => Some((state.low_watermark, state.high_watermark)),
            None => None,
        }
    }

    /// The process-wide event handler currently installed: whom the engine's
    /// event adapter forwards each event to. `None` on a null handle or when
    /// no handler is installed.
    pub fn current_event_handler(&self) -> (r: Option<EventHandler>)
        ensures
            match self@ {
                Some(v) => r == v.delivery_target(),
                None => r is None,
            },
    {
        match self.inner.deref() {
            Some(state) => state.event_handler,
            None => None,
        }
    }

    /// Installs a process-wide listener forwarding every engine event to
    /// `callback(callback_data, event)`, atomically replacing any previous
    /// listener; false on a null handle.
    pub fn ufo_new_event_handler(&mut self, callback_data: usize, callback: usize) -> (r: bool)
        ensures
            old(self)@ is None ==> final(self)@ is None && r == false,
            old(self)@ matches Some(v) ==> r == true && final(self)@ == Some(
                v.with_handler(Some(EventHandler { callback_data, callback })),
            ),
    {
        proof {
            use_type_invariant(&*self);
        }
        let mut inner = OpaqueHandle::none();
        std::mem::swap(&mut inner, &mut self.inner);
        match inner.take() {
            None => false,
            Some(mut state) => {
                state.event_handler = Some(EventHandler { callback_data, callback });
                let mut filled = OpaqueHandle::wrap(state);
                std::mem::swap(&mut filled, &mut self.inner);
                true
            },
        }
    }

    /// Removes the process-wide listener: afterwards no engine event has a
    /// delivery target; false on a null handle.
    pub fn ufo_clear_event_handler(&mut self) -> (r: bool)
        ensures
            old(self)@ is None ==> final(self)@ is None && r == false,
            old(self)@ matches Some(v) ==> r == true && final(self)@ == Some(
                v.with_handler(None),
            ),
            r == true ==> final(self)@.unwrap().delivery_target() is None,
    {
        proof {
            use_type_invariant(&*self);
        }
        let mut inner = OpaqueHandle::none();
        std::mem::swap(&mut inner, &mut self.inner);
        match inner.take() {
            None => false,
            Some(mut state) => {
                state.event_handler = None;
                let mut filled = OpaqueHandle::wrap(state);
                std::mem::swap(&mut filled, &mut self.inner);
                true
            },
        }
    }
}

impl UfoCore {
    /// Builds the engine configuration and callback closures for `prototype`,
    /// asks the engine to allocate the object, and only on success records
    /// the caller's original callback addresses under the engine-issued
    /// identifier. On any failure — null handle, no identifier left, a range
    /// that cannot be reserved — the null handle comes back and nothing is
    /// recorded.
    pub fn ufo_new_object(&mut self, prototype: &UfoParameters) -> (r: UfoObj)
        ensures
            old(self)@ is None ==> final(self)@ is None && r@ is None,
            old(self)@ matches Some(v) ==> ({
                &&& v.can_allocate(*prototype) ==> final(self)@ == Some(v.after_allocate(*prototype))
                    && r@ == Some(v.new_token(*prototype))
                &&& !v.can_allocate(*prototype) ==> final(self)@ == Some(v) && r@ is None
            }),
    {
        proof {
            use_type_invariant(&*self);
        }
        let mut inner = OpaqueHandle::none();
        std::mem::swap(&mut inner, &mut self.inner);
        match inner.take() {
            None => UfoObj::none(),
            Some(mut state) => {
                proof {
                    if state@.can_allocate(*prototype) {
                        lemma_after_allocate_wf(state@, *prototype);
                    }
                }
                let tok = state.allocate(prototype);
                let mut filled = OpaqueHandle::wrap(state);
                std::mem::swap(&mut filled, &mut self.inner);
                match tok {
                    Some(tok) => UfoObj::from_token(tok),
                    None => UfoObj::none(),
                }
            },
        }
    }

    /// Reads an object's live configuration and its recorded callback
    /// addresses into `params`. Returns 0 and fills every field exactly when
    /// both handles are non-null and the object's identifier is in the
    /// table; otherwise returns -1 and leaves `params` untouched.
    pub fn ufo_get_params(&self, ufo: &UfoObj, params: &mut UfoParameters) -> (r: i32)
        ensures
            r == 0 || r == -1,
            r == 0 <==> (self@ matches Some(v) && ufo@ matches Some(tok) && v.has_record(tok.id)),
            r == 0 ==> *final(params) == self@.unwrap().params_for(ufo@.unwrap()),
            r == -1 ==> *final(params) == *old(params),
    {
        proof {
            use_type_invariant(&*self);
        }
        let state = match self.inner.deref() {
            Some(s) => s,
            None => {
                return -1;
            },
        };
        let tok = match ufo.token() {
            Some(t) => t,
            None => {
                return -1;
            },
        };
        match state.record_for(tok.id) {
            None => -1,
            Some(rec) => {
                *params = UfoParameters {
                    header_size: tok.info.header_size,
                    element_size: tok.info.element_size,
                    element_ct: tok.info.element_ct,
                    min_load_ct: tok.info.min_load_ct,
                    read_only: tok.info.read_only,
                    populate_data: rec.populate_data,
                    populate_fn: rec.populate_fn,
                    writeback_listener_data: rec.writeback_listener_data,
                    writeback_listener: rec.writeback_listener,
                };
                0
            },
        }
    }

    /// Returns a handle to the live object whose reserved range holds `ptr`,
    /// or the null handle when the boundary handle is null or no live object
    /// holds that address — a miss is benign, never a fault.
    pub fn ufo_get_by_address(&self, ptr: usize) -> (r: UfoObj)
        ensures
            r@ is Some <==> (self@ matches Some(v) && v.covers(ptr as int)),
            r@ matches Some(tok) ==> (self@.unwrap().object_at(ptr as int) == (LiveObject {
                id: tok.id,
                info: tok.info,
            })),
    {
        proof {
            use_type_invariant(&*self);
        }
        match self.inner.deref() {
            None => UfoObj::none(),
            Some(state) => match state.lookup_addr(ptr) {
                Some(tok) => UfoObj::from_token(tok),
                None => UfoObj::none(),
            },
        }
    }

    /// True iff `ptr` falls inside some live object's reserved range: the
    /// boolean form of `ufo_get_by_address`.
    pub fn ufo_address_is_ufo_object(&self, ptr: usize) -> (r: bool)
        ensures
            r == (self@ matches Some(v) && v.covers(ptr as int)),
    {
        proof {
            use_type_invariant(&*self);
        }
        match self.inner.deref() {
            None => false,
            Some(state) => state.lookup_addr(ptr).is_some(),
        }
    }

    /// Takes the object `id` out of the live registry on behalf of
    /// `UfoObj::ufo_free`; a null handle is a no-op.
    pub(crate) fn release_object(&mut self, id: u64)
        ensures
            old(self)@ is None ==> final(self)@ is None,
            old(self)@ matches Some(v) ==> final(self)@ == Some(v.after_free(id)),
    {
        proof {
            use_type_invariant(&*self);
        }
        let mut inner = OpaqueHandle::none();
        std::mem::swap(&mut inner, &mut self.inner);
        match inner.take() {
            None => {},
            Some(mut state) => {
                state.remove_object(id);
                let mut filled = OpaqueHandle::wrap(state);
                std::mem::swap(&mut filled, &mut self.inner);
            },
        }
    }
}

} // verus!
