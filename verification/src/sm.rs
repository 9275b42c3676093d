//! Service-manager identifiers: the fixed eight-byte names under which
//! system services are registered and looked up.

use vstd::prelude::*;
use vstd::bytes::{spec_u64_from_le_bytes, u64_from_le_bytes};
use vstd::slice::slice_subrange;

verus! {

/// A service's registered name, packed into its eight-byte wire form.
#[derive(Clone, Copy, Debug, PartialEq, Eq, Structural)]
pub struct ServiceName {
    pub value: u64,
}

impl ServiceName {
    /// Wraps an already-packed name value.
    pub fn from(value: u64) -> (r: Self)
        ensures
            r.value == value,
    {
        Self { value }
    }

    /// Packs a service name from its byte form, little endian: exactly
    /// the first eight bytes make up the value, so a shorter name must be
    /// padded with terminating zero bytes before packing.
    pub fn new(name: &[u8]) -> (r: Self)
        requires
            name@.len() >= 8,
        ensures
            r.value == spec_u64_from_le_bytes(name@.take(8)),
    {
        let first = slice_subrange(name, 0, 8);
        proof {
            assert(first@ =~= name@.take(8));
        }
        Self::from(u64_from_le_bytes(first))
    }

    /// Whether this is the reserved empty name.
    pub fn is_empty(&self) -> (r: bool)
        ensures
            r == (self.value == 0),
    {
        self.value == 0
    }

    /// The reserved empty name.
    pub fn empty() -> (r: Self)
        ensures
            r.value == 0,
    {
        Self::from(0)
    }
}

/// What the service manager reports about a process attached through an
/// intercepted service session.
#[derive(Clone, Copy, Debug, PartialEq, Eq, Structural)]
pub struct MitmProcessInfo {
    pub process_id: u64,
    pub program_id: u64,
    pub keys_held: u64,
    pub override_flags: u64,
}

} // verus!
