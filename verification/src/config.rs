//! The fixed device configuration the relay applies before any transfer.
//!
//! The line parameters are constants. The one subtle value is the read
//! interval: once at least one byte has arrived, the device waits at most
//! this long for further bytes before returning what has accumulated. On the
//! target OS a value of zero does not mean "no extra wait" — it means "wait
//! forever", which would hang every read until the peer sends more. The
//! configuration type therefore carries the invariant that the interval is
//! never zero, and the verified constructor is the only source of the values
//! the unverified binary writes into the OS structures.

use vstd::prelude::*;

verus! {

/// Device line parameters and the read-interval timeout, in the units the
/// relay's contracts use: bits, counts and milliseconds.
#[derive(Clone, Copy, Debug, PartialEq, Eq, Structural)]
pub struct DeviceConfig {
    /// Line speed in bits per second.
    pub baud_rate: u32,
    /// Data bits per character.
    pub data_bits: u8,
    /// Stop bits per character.
    pub stop_bits: u8,
    /// Whether a parity bit is used.
    pub parity_enabled: bool,
    /// After the first byte of a read arrives, wait at most this many
    /// milliseconds for further bytes before returning the partial read.
    pub read_interval_ms: u32,
}

impl DeviceConfig {
    /// A zero read interval would mean "wait forever" on the target OS, not
    /// "no extra wait": it must never be configured.
    pub open spec fn wf(self) -> bool {
        self.read_interval_ms >= 1
    }

    /// The relay's fixed configuration: 115200 baud, 8 data bits, one stop
    /// bit, no parity, and the shortest legal read interval of 1 ms.
    pub fn fixed() -> (c: DeviceConfig)
        ensures
            c.wf(),
            c.baud_rate == 115200,
            c.data_bits == 8,
            c.stop_bits == 1,
            !c.parity_enabled,
            c.read_interval_ms == 1,
    {
        DeviceConfig {
            baud_rate: 115200,
            data_bits: 8,
            stop_bits: 1,
            parity_enabled: false,
            read_interval_ms: 1,
        }
    }
}

} // verus!
