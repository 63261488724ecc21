use ufo_c::handle::OpaqueHandle;
use ufo_c::prototype::{engine_config_of, populate_outcome, UfoParameters};

#[test]
fn handle_releases_payload_exactly_once() {
    let mut h: OpaqueHandle<u64> = OpaqueHandle::wrap(42);
    assert!(!h.is_null());
    assert_eq!(h.deref(), Some(&42));
    assert_eq!(h.take(), Some(42));
    assert!(h.is_null());
    // A second release finds the handle already empty.
    assert_eq!(h.take(), None);
    assert!(h.is_null());
}

#[test]
fn null_handle_owns_nothing() {
    let mut h: OpaqueHandle<String> = OpaqueHandle::none();
    assert!(h.is_null());
    assert_eq!(h.deref(), None);
    assert_eq!(h.take(), None);
}

#[test]
fn put_replaces_the_payload() {
    let mut h: OpaqueHandle<u32> = OpaqueHandle::none();
    assert_eq!(h.put(7), None);
    assert_eq!(h.put(9), Some(7));
    assert_eq!(h.take(), Some(9));
}

#[test]
fn populate_status_mapping() {
    assert!(populate_outcome(0).is_ok());
    assert!(populate_outcome(1).is_err());
    assert!(populate_outcome(-5).is_err());
    assert!(populate_outcome(i32::MIN).is_err());
}

#[test]
fn engine_config_marshalling() {
    let p = UfoParameters {
        header_size: 24,
        element_size: 12,
        element_ct: 99,
        min_load_ct: 7,
        read_only: true,
        populate_data: 1,
        populate_fn: 2,
        writeback_listener_data: 3,
        writeback_listener: None,
    };
    let c = engine_config_of(&p);
    assert_eq!(c.header_size, 24);
    assert_eq!(c.stride, 12);
    assert_eq!(c.element_ct, 99);
    assert_eq!(c.min_load_ct, Some(7));
    assert!(c.read_only);

    let mut q = p;
    q.min_load_ct = 0;
    // Zero asks for the engine default.
    assert_eq!(engine_config_of(&q).min_load_ct, None);
}
