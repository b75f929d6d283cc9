//! Verified core of a safety wrapper around a C-ABI procedural interface
//! exposed by a hardware-simulation kernel.
//!
//! The library holds the logic that can be checked: the null-safe handle
//! discipline, the callback-capsule bookkeeping, the four-state vector and
//! tagged-value decoding, the time codec, the diagnostic-snapshot assembly,
//! and the text sanitizer for native transmission. The raw foreign calls
//! themselves live outside the library; they are driven by the query and
//! decode functions defined here.

pub mod callback;
pub mod control;
pub mod error;
pub mod handle;
pub mod property;
pub mod simulator;
pub mod text;
pub mod time;
pub mod value;

use vstd::prelude::*;
use crate::handle::Handle;
use crate::property::Property;
use crate::value::ValueType;

verus! {

/// A null handle is silent: whatever property, direction, value or time is
/// asked of it, every accessor answers an empty result and sends no query to
/// the native side. This is a hard invariant, not an optimization: the
/// native side is free to misbehave on a null reference.
pub proof fn lemma_null_handle_is_silent(h: Handle, property: Property, format: ValueType)
    requires
        h.spec_is_null(),
    ensures
        h.spec_str_property_query(property) is None,
        h.spec_bool_property_query(property) is None,
        h.spec_direction_query() is None,
        h.spec_value_query(format) is None,
        !h.spec_time_query(),
{
}

} // verus!
