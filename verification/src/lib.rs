//! A safe, verified binding surface for a simulator's custom-chip API.
//!
//! The host simulator owns every resource (pins, timers, bus devices,
//! attributes, framebuffers) and drives all callbacks; chip modules talk to it
//! through opaque integer handles, numeric constants, and fixed-layout
//! configuration records. This crate provides that surface in safe form:
//!
//! * [`abi`] declares the handle types and the numeric constants, with the
//!   guarantees that callers rely on (for instance that `NO_PIN` can never
//!   collide with an issued handle) stated as proved lemmas;
//! * [`records`] declares the configuration records as plain-data structs,
//!   with opaque host-side pointers carried as integer values;
//! * [`layout`] fixes the exact byte layout the host reads the records with,
//!   and proves that encoding and decoding round-trip every field;
//! * [`host`] is a verified model of the host's observable contract (watch
//!   exclusivity, short-count buffer transfers, fresh handle issuance), usable
//!   as a mock host in conformance tests of chip modules.

use vstd::prelude::*;

pub mod abi;
pub mod host;
pub mod layout;
pub mod records;

verus! {

/// Version stub: the host resolves this entry point by name before loading
/// the rest of the surface, and expects it to report version 1.
pub fn __wokwi_api_version_1() -> (version: u32)
    ensures
        version == 1,
{
    1
}

} // verus!
