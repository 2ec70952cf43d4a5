//! Handle types and numeric constants of the chip API.
//!
//! Every resource the host owns is referenced through a plain integer
//! identifier. Handles carry no destructor semantics: the host controls every
//! lifetime, so they are ordinary copyable integers. The constants below are
//! part of the wire contract with the host and must keep these exact values.

use vstd::prelude::*;

verus! {

/// Identifier of a digital or analog pin, issued by the host at setup time.
/// Valid handles are non-negative; [`NO_PIN`] is the "no pin" sentinel.
pub type PinId = i32;

/// Identifier of a timer registered with the host.
pub type TimerId = u32;

/// Identifier of a UART device registered with the host.
pub type UARTDevId = u32;

/// Identifier of an I2C device registered with the host.
pub type I2CDevId = u32;

/// Identifier of an SPI device registered with the host.
pub type SPIDevId = u32;

/// Identifier of a named attribute registered with the host.
pub type AttrId = u32;

/// Identifier of a framebuffer provided by the host.
pub type BufferId = u32;

/// Sentinel pin handle meaning "no pin"; never issued by the host.
pub const NO_PIN: PinId = -1;

/// Digital pin level: low.
pub const LOW: u32 = 0;

/// Digital pin level: high.
pub const HIGH: u32 = 1;

/// Pin mode: digital input.
pub const INPUT: u32 = 0;

/// Pin mode: digital output.
pub const OUTPUT: u32 = 1;

/// Pin mode: digital input with a pull-up.
pub const INPUT_PULLUP: u32 = 2;

/// Pin mode: digital input with a pull-down.
pub const INPUT_PULLDOWN: u32 = 3;

/// Pin mode: analog pin.
pub const ANALOG: u32 = 4;

/// Pin mode: digital output, initialized to [`LOW`].
pub const OUTPUT_LOW: u32 = 16;

/// Pin mode: digital output, initialized to [`HIGH`].
pub const OUTPUT_HIGH: u32 = 17;

/// Edge selector for pin watches: rising edges only.
pub const RISING: u32 = 1;

/// Edge selector for pin watches: falling edges only.
pub const FALLING: u32 = 2;

/// Edge selector for pin watches: both edges.
pub const BOTH: u32 = 3;

/// True exactly of the two digital pin levels.
pub open spec fn is_pin_level(value: u32) -> bool {
    value == LOW || value == HIGH
}

/// True exactly of the pin modes accepted at pin setup and reconfiguration.
pub open spec fn is_pin_mode(mode: u32) -> bool {
    ||| mode == INPUT
    ||| mode == OUTPUT
    ||| mode == INPUT_PULLUP
    ||| mode == INPUT_PULLDOWN
    ||| mode == ANALOG
    ||| mode == OUTPUT_LOW
    ||| mode == OUTPUT_HIGH
}

/// True exactly of the edge selectors accepted by a pin watch.
pub open spec fn is_edge(edge: u32) -> bool {
    edge == RISING || edge == FALLING || edge == BOTH
}

/// The two output-initializing modes are distinct, so configuring a pin as
/// "output low" can never be confused with "output high".
pub proof fn lemma_output_levels_differ()
    ensures
        OUTPUT_LOW != OUTPUT_HIGH,
{
}

/// The "no pin" sentinel is distinct from every handle the host can issue:
/// issued handles are non-negative (handle 0 included), the sentinel is not.
pub proof fn lemma_no_pin_is_never_issued(pin: PinId)
    requires
        pin >= 0,
    ensures
        pin != NO_PIN,
{
}

} // verus!
