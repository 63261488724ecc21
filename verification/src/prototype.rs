//! The parameter block describing a lazy object, and the callback metadata
//! the boundary keeps on its behalf.
//!
//! Foreign callers describe callbacks as (function address, context address)
//! pairs. The boundary never calls through such an address itself: it stores
//! the pair, hands the engine a closure form of it, and must be able to give
//! the original pair back on request. Addresses are therefore carried as plain
//! `usize` values.

use vstd::prelude::*;

verus! {

/// The transfer block a caller fills to describe one lazy object.
///
/// `min_load_ct == 0` asks for the engine's default batch size. The two
/// callback pairs are (context address, function address); the writeback
/// listener is optional.
#[derive(Clone, Copy, PartialEq, Eq, Debug)]
pub struct UfoParameters {
    pub header_size: usize,
    pub element_size: usize,
    pub element_ct: usize,
    pub min_load_ct: usize,
    pub read_only: bool,
    pub populate_data: usize,
    pub populate_fn: usize,
    pub writeback_listener_data: usize,
    pub writeback_listener: Option<usize>,
}

/// The callback metadata the boundary records for one object: exactly the
/// caller-supplied callback addresses, kept so `ufo_get_params` can reproduce
/// them. The engine itself does not retain this form.
#[derive(Clone, Copy, PartialEq, Eq, Debug)]
pub struct AuxCallbackRecord {
    pub populate_data: usize,
    pub populate_fn: usize,
    pub writeback_listener_data: usize,
    pub writeback_listener: Option<usize>,
}

/// The callback record that `proto` gives rise to.
pub open spec fn record_of(proto: UfoParameters) -> AuxCallbackRecord {
    AuxCallbackRecord {
        populate_data: proto.populate_data,
        populate_fn: proto.populate_fn,
        writeback_listener_data: proto.writeback_listener_data,
        writeback_listener: proto.writeback_listener,
    }
}

/// Copies the callback addresses out of a parameter block.
pub fn make_record(proto: &UfoParameters) -> (r: AuxCallbackRecord)
    ensures
        r == record_of(*proto),
{
    AuxCallbackRecord {
        populate_data: proto.populate_data,
        populate_fn: proto.populate_fn,
        writeback_listener_data: proto.writeback_listener_data,
        writeback_listener: proto.writeback_listener,
    }
}

/// The object description in the form the engine consumes: the same sizes,
/// with a requested batch size of zero turned into "engine default" (`None`).
#[derive(Clone, Copy, PartialEq, Eq, Debug)]
pub struct EngineObjectConfig {
    pub header_size: usize,
    pub stride: usize,
    pub element_ct: usize,
    pub min_load_ct: Option<usize>,
    pub read_only: bool,
}

/// Marshals a caller-facing parameter block into the engine-facing form.
pub fn engine_config_of(proto: &UfoParameters) -> (c: EngineObjectConfig)
    ensures
        c.header_size == proto.header_size,
        c.stride == proto.element_size,
        c.element_ct == proto.element_ct,
        c.min_load_ct == (if proto.min_load_ct > 0 {
            Some(proto.min_load_ct)
        } else {
            None::<usize>
        }),
        c.read_only == proto.read_only,
{
    EngineObjectConfig {
        header_size: proto.header_size,
        stride: proto.element_size,
        element_ct: proto.element_ct,
        min_load_ct: if proto.min_load_ct > 0 {
            Some(proto.min_load_ct)
        } else {
            None
        },
        read_only: proto.read_only,
    }
}

/// A population callback reported failure.
#[derive(Clone, Copy, PartialEq, Eq, Debug)]
pub struct UfoPopulateError;

/// Maps a population callback's raw status to the engine-facing outcome:
/// zero means the batch was filled, anything else is a population failure.
pub fn populate_outcome(status: i32) -> (r: Result<(), UfoPopulateError>)
    ensures
        r is Ok <==> status == 0,
{
    if status != 0 {
        Err(UfoPopulateError)
    } else {
        Ok(())
    }
}

} // verus!
