use ufo_c::boundary::{EventHandler, UfoCore};
use ufo_c::prototype::UfoParameters;

fn proto(header: usize, stride: usize, ct: usize) -> UfoParameters {
    UfoParameters {
        header_size: header,
        element_size: stride,
        element_ct: ct,
        min_load_ct: 16,
        read_only: false,
        populate_data: 0x1000,
        populate_fn: 0x2000,
        writeback_listener_data: 0x3000,
        writeback_listener: Some(0x4000),
    }
}

#[test]
fn create_normalizes_watermarks() {
    let a = UfoCore::ufo_new_core(String::from("wb-a"), 1000, 5000);
    let b = UfoCore::ufo_new_core(String::from("wb-b"), 5000, 1000);
    assert!(!a.ufo_core_is_error());
    assert!(!b.ufo_core_is_error());
    assert_eq!(a.watermarks(), Some((1000, 5000)));
    assert_eq!(b.watermarks(), Some((1000, 5000)));
}

#[test]
fn create_equal_watermarks_fails() {
    let a = UfoCore::ufo_new_core(String::from("wb"), 7, 7);
    assert!(a.ufo_core_is_error());
    assert_eq!(a.watermarks(), None);
    let b = UfoCore::ufo_new_core(String::from("wb"), 0, 0);
    assert!(b.ufo_core_is_error());
}

#[test]
fn params_round_trip_exact() {
    let mut core = UfoCore::ufo_new_core(String::from("wb"), 100, 200);
    let supplied = proto(32, 16, 50);
    let obj = core.ufo_new_object(&supplied);
    assert!(!obj.ufo_is_error());
    let mut out = proto(0, 0, 0);
    let status = core.ufo_get_params(&obj, &mut out);
    assert_eq!(status, 0);
    assert_eq!(out, supplied);
}

#[test]
fn params_round_trip_keeps_zero_min_load() {
    let mut core = UfoCore::ufo_new_core(String::from("wb"), 100, 200);
    let mut supplied = proto(8, 4, 10);
    supplied.min_load_ct = 0;
    supplied.writeback_listener = None;
    let obj = core.ufo_new_object(&supplied);
    let mut out = proto(1, 1, 1);
    assert_eq!(core.ufo_get_params(&obj, &mut out), 0);
    assert_eq!(out, supplied);
}

#[test]
fn get_params_on_null_handles() {
    let mut core = UfoCore::ufo_new_core(String::from("wb"), 100, 200);
    let dead = UfoCore::ufo_new_core(String::from("wb"), 5, 5);
    let obj = core.ufo_new_object(&proto(8, 8, 8));
    let null_obj = dead.ufo_get_by_address(4096);
    assert!(null_obj.ufo_is_error());
    let reference = proto(9, 9, 9);
    let mut out = reference;
    assert_eq!(core.ufo_get_params(&null_obj, &mut out), -1);
    assert_eq!(out, reference);
    assert_eq!(dead.ufo_get_params(&obj, &mut out), -1);
    assert_eq!(out, reference);
}

#[test]
fn address_range_scenario() {
    let mut core = UfoCore::ufo_new_core(String::from("wb"), 100, 200);
    let obj = core.ufo_new_object(&proto(64, 8, 1000));
    assert!(!obj.ufo_is_error());
    let header = obj.ufo_header_ptr();
    let body = obj.ufo_body_ptr();
    assert!(header != 0);
    assert_eq!(header % 4096, 0);
    assert_eq!(body, header + 64);
    // The reserved range spans exactly 64 + 1000 * 8 bytes.
    let end = header + 64 + 1000 * 8;
    assert!(core.ufo_address_is_ufo_object(header));
    assert!(core.ufo_address_is_ufo_object(body));
    assert!(core.ufo_address_is_ufo_object(end - 1));
    assert!(!core.ufo_address_is_ufo_object(end));
    assert!(!core.ufo_address_is_ufo_object(header - 1));
}

#[test]
fn lookup_by_address_returns_same_object() {
    let mut core = UfoCore::ufo_new_core(String::from("wb"), 100, 200);
    let obj = core.ufo_new_object(&proto(64, 8, 1000));
    let header = obj.ufo_header_ptr();
    let again = core.ufo_get_by_address(header + 500);
    assert!(!again.ufo_is_error());
    assert_eq!(again.ufo_header_ptr(), header);
    assert_eq!(again.ufo_body_ptr(), obj.ufo_body_ptr());
    let mut from_obj = proto(0, 0, 0);
    let mut from_again = proto(1, 1, 1);
    assert_eq!(core.ufo_get_params(&obj, &mut from_obj), 0);
    assert_eq!(core.ufo_get_params(&again, &mut from_again), 0);
    assert_eq!(from_obj, from_again);
}

#[test]
fn lookup_miss_is_benign() {
    let core = UfoCore::ufo_new_core(String::from("wb"), 100, 200);
    let miss = core.ufo_get_by_address(123456);
    assert!(miss.ufo_is_error());
    assert!(!core.ufo_address_is_ufo_object(0));
    assert!(!core.ufo_address_is_ufo_object(usize::MAX));
}

#[test]
fn two_objects_get_disjoint_ranges() {
    let mut core = UfoCore::ufo_new_core(String::from("wb"), 100, 200);
    let first = core.ufo_new_object(&proto(64, 8, 100));
    let second = core.ufo_new_object(&proto(16, 4, 10));
    let first_end = first.ufo_header_ptr() + 64 + 100 * 8;
    assert!(second.ufo_header_ptr() >= first_end);
    let hit_first = core.ufo_get_by_address(first.ufo_header_ptr());
    let hit_second = core.ufo_get_by_address(second.ufo_header_ptr());
    assert_eq!(hit_first.ufo_header_ptr(), first.ufo_header_ptr());
    assert_eq!(hit_second.ufo_header_ptr(), second.ufo_header_ptr());
}

#[test]
fn object_too_large_fails_and_core_survives() {
    let mut core = UfoCore::ufo_new_core(String::from("wb"), 100, 200);
    let huge = core.ufo_new_object(&proto(0, 2, usize::MAX));
    assert!(huge.ufo_is_error());
    assert_eq!(huge.ufo_header_ptr(), 0);
    let ok = core.ufo_new_object(&proto(8, 8, 8));
    assert!(!ok.ufo_is_error());
}

#[test]
fn free_makes_handle_and_range_dead() {
    let mut core = UfoCore::ufo_new_core(String::from("wb"), 100, 200);
    let mut obj = core.ufo_new_object(&proto(64, 8, 1000));
    let header = obj.ufo_header_ptr();
    obj.ufo_free(&mut core);
    assert!(obj.ufo_is_error());
    assert_eq!(obj.ufo_reset(), -1);
    assert_eq!(obj.ufo_header_ptr(), 0);
    assert_eq!(obj.ufo_body_ptr(), 0);
    let mut out = proto(0, 0, 0);
    assert_eq!(core.ufo_get_params(&obj, &mut out), -1);
    // The freed range no longer belongs to any live object.
    assert!(!core.ufo_address_is_ufo_object(header));
    assert!(core.ufo_get_by_address(header + 100).ufo_is_error());
    // Freeing through an already-null handle is a no-op.
    obj.ufo_free(&mut core);
    assert!(obj.ufo_is_error());
}

#[test]
fn free_keeps_other_objects_alive() {
    let mut core = UfoCore::ufo_new_core(String::from("wb"), 100, 200);
    let mut first = core.ufo_new_object(&proto(64, 8, 100));
    let second = core.ufo_new_object(&proto(16, 4, 10));
    first.ufo_free(&mut core);
    assert!(core.ufo_address_is_ufo_object(second.ufo_header_ptr()));
    assert!(!core.ufo_address_is_ufo_object(first.ufo_header_ptr()));
}

#[test]
fn reset_status_by_handle() {
    let mut core = UfoCore::ufo_new_core(String::from("wb"), 100, 200);
    let mut obj = core.ufo_new_object(&proto(8, 8, 8));
    assert_eq!(obj.ufo_reset(), 0);
    let mut null_obj = core.ufo_get_by_address(1);
    assert_eq!(null_obj.ufo_reset(), -1);
}

#[test]
fn event_handler_install_replace_clear() {
    let mut core = UfoCore::ufo_new_core(String::from("wb"), 100, 200);
    assert_eq!(core.current_event_handler(), None);
    assert!(core.ufo_new_event_handler(0x50, 0x60));
    assert_eq!(
        core.current_event_handler(),
        Some(EventHandler { callback_data: 0x50, callback: 0x60 })
    );
    assert!(core.ufo_new_event_handler(0x70, 0x80));
    assert_eq!(
        core.current_event_handler(),
        Some(EventHandler { callback_data: 0x70, callback: 0x80 })
    );
    assert!(core.ufo_clear_event_handler());
    assert_eq!(core.current_event_handler(), None);
}

#[test]
fn event_handler_on_null_core() {
    let mut dead = UfoCore::ufo_new_core(String::from("wb"), 3, 3);
    assert!(!dead.ufo_new_event_handler(1, 2));
    assert!(!dead.ufo_clear_event_handler());
    assert_eq!(dead.current_event_handler(), None);
}

#[test]
fn shutdown_nulls_the_core() {
    let mut core = UfoCore::ufo_new_core(String::from("wb"), 100, 200);
    core.ufo_core_shutdown();
    assert!(core.ufo_core_is_error());
    let obj = core.ufo_new_object(&proto(8, 8, 8));
    assert!(obj.ufo_is_error());
    core.ufo_core_shutdown();
    assert!(core.ufo_core_is_error());
}
