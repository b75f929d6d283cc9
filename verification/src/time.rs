//! The time codec: bidirectional conversion between the native wire format
//! for simulation time and the typed time variants.
//!
//! The wire format is a 32-bit tag, two 32-bit halves carrying an integral
//! tick count, and a 64-bit real field for scaled-real time. The library
//! stores the real field as its raw bit pattern, so the codec is exact for
//! every variant; the surrounding glue converts the bits to and from the
//! native floating-point field unchanged.

use vstd::prelude::*;
use crate::handle::Handle;

verus! {

/// Native tag for scaled-real time.
pub const SCALED_REAL_TIME_TAG: i32 = 1;

/// Native tag for integral simulation time.
pub const SIM_TIME_TAG: i32 = 2;

/// Native tag for suppressed time.
pub const SUPPRESS_TIME_TAG: i32 = 3;

/// A simulation time: integral ticks, a scaled real (held as the raw bit
/// pattern of the native 64-bit float), or suppressed.
#[derive(Clone, Copy, Debug, PartialEq, Eq, Structural)]
pub enum Time {
    Sim(u64),
    ScaledReal(u64),
    Suppress,
}

/// The native time structure, field for field: only the fields the tag
/// selects are meaningful, the others are zeroed on encode.
#[derive(Clone, Copy, Debug, PartialEq, Eq, Structural)]
pub struct WireTime {
    pub tag: i32,
    pub high: u32,
    pub low: u32,
    pub real_bits: u64,
}

/// The 64-bit tick count carried by the two 32-bit halves.
pub open spec fn combined_ticks(high: u32, low: u32) -> u64 {
    (((high as u64) << 32) | (low as u64)) as u64
}

impl Time {
    /// The native tag this variant is carried under.
    pub open spec fn spec_time_type(self) -> i32 {
        match self {
            Time::Sim(_) => SIM_TIME_TAG,
            Time::ScaledReal(_) => SCALED_REAL_TIME_TAG,
            Time::Suppress => SUPPRESS_TIME_TAG,
        }
    }

    /// The wire structure this time encodes to.
    pub open spec fn spec_to_wire(self) -> WireTime {
        match self {
            Time::Sim(ticks) => WireTime {
                tag: SIM_TIME_TAG,
                high: (ticks >> 32) as u32,
                low: (ticks & 0xFFFF_FFFF) as u32,
                real_bits: 0,
            },
            Time::ScaledReal(bits) => WireTime {
                tag: SCALED_REAL_TIME_TAG,
                high: 0,
                low: 0,
                real_bits: bits,
            },
            Time::Suppress => WireTime { tag: SUPPRESS_TIME_TAG, high: 0, low: 0, real_bits: 0 },
        }
    }

    /// The native tag this variant is carried under.
    pub fn time_type(&self) -> (r: i32)
        ensures
            r == self.spec_time_type(),
    {
        match self {
            Time::Sim(_) => SIM_TIME_TAG,
            Time::ScaledReal(_) => SCALED_REAL_TIME_TAG,
            Time::Suppress => SUPPRESS_TIME_TAG,
        }
    }

    /// Encode this time into the native wire structure.
    pub fn to_wire(&self) -> (w: WireTime)
        ensures
            w == self.spec_to_wire(),
    {
        match self {
            Time::Sim(ticks) => {
                let t = *ticks;
                proof {
                    assert((t >> 32) <= 0xFFFF_FFFFu64 && (t & 0xFFFF_FFFFu64) <= 0xFFFF_FFFFu64)
                        by (bit_vector);
                }
                WireTime {
                    tag: SIM_TIME_TAG,
                    high: (t >> 32) as u32,
                    low: (t & 0xFFFF_FFFF) as u32,
                    real_bits: 0,
                }
            },
            Time::ScaledReal(bits) => WireTime {
                tag: SCALED_REAL_TIME_TAG,
                high: 0,
                low: 0,
                real_bits: *bits,
            },
            Time::Suppress => WireTime { tag: SUPPRESS_TIME_TAG, high: 0, low: 0, real_bits: 0 },
        }
    }

    /// The time a wire structure decodes to, dispatching purely on the tag;
    /// an unrecognized tag has no interpretation.
    pub open spec fn spec_from_wire(w: WireTime) -> Option<Time> {
        if w.tag == SIM_TIME_TAG {
            Some(Time::Sim(combined_ticks(w.high, w.low)))
        } else if w.tag == SCALED_REAL_TIME_TAG {
            Some(Time::ScaledReal(w.real_bits))
        } else if w.tag == SUPPRESS_TIME_TAG {
            Some(Time::Suppress)
        } else {
            None
        }
    }

    /// Decode a native wire structure. `None` means the native side returned
    /// a tag outside the documented protocol, which no caller can interpret
    /// safely: the callers treat it as a fatal contract violation.
    pub fn from_wire(w: &WireTime) -> (r: Option<Time>)
        ensures
            r == Time::spec_from_wire(*w),
            r is None <==> w.tag != SIM_TIME_TAG && w.tag != SCALED_REAL_TIME_TAG && w.tag
                != SUPPRESS_TIME_TAG,
    {
        if w.tag == SIM_TIME_TAG {
            let ticks: u64 = ((w.high as u64) << 32u64) | (w.low as u64);
            Some(Time::Sim(ticks))
        } else if w.tag == SCALED_REAL_TIME_TAG {
            Some(Time::ScaledReal(w.real_bits))
        } else if w.tag == SUPPRESS_TIME_TAG {
            Some(Time::Suppress)
        } else {
            None
        }
    }
}

/// Every time value round-trips bit-exactly through the native wire format:
/// decoding its encoding gives the value back, for all 64-bit tick counts,
/// all real bit patterns, and the suppressed variant.
pub proof fn lemma_time_round_trip(t: Time)
    ensures
        Time::spec_from_wire(t.spec_to_wire()) == Some(t),
{
    match t {
        Time::Sim(ticks) => {
            assert(((((ticks >> 32) as u32) as u64) << 32) | (((ticks & 0xFFFF_FFFF) as u32) as u64)
                == ticks) by (bit_vector);
        },
        Time::ScaledReal(_) => {},
        Time::Suppress => {},
    }
}

impl Handle {
    /// What `time_query` answers: a time query goes to the native side only
    /// on a non-null handle.
    pub open spec fn spec_time_query(self) -> bool {
        !self.spec_is_null()
    }

    /// Whether a time query on this handle may go to the native side: a null
    /// handle issues no native call and its time is empty.
    pub fn time_query(&self) -> (q: bool)
        ensures
            q == self.spec_time_query(),
    {
        !self.is_null()
    }
}

} // verus!
