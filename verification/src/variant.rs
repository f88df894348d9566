//! The supported chip families and the hardware limits that differ among them.

use vstd::prelude::*;

verus! {

/// Iterations a blocking wait spins before it reports a wedged bus.
pub const MAX_ITERATIONS: u32 = 1_000_000;

/// Chip family of the controller.
#[derive(Debug, Clone, Copy, PartialEq, Eq, Hash, Structural)]
pub enum Variant {
    Esp32,
    Esp32S2,
    Esp32C2,
    Esp32C3,
    Esp32C6,
    Esp32H2,
    Esp32S3,
}

impl Variant {
    pub open spec fn spec_fifo_limited(self) -> bool {
        self is Esp32 || self is Esp32S2
    }

    /// Families whose transfers must fit the hardware FIFO as a whole, and
    /// that lack the clock divider, the configuration latch and the shared
    /// filter register of the later ones.
    #[verifier::when_used_as_spec(spec_fifo_limited)]
    pub fn fifo_limited(self) -> (r: bool)
        ensures
            r == self.spec_fifo_limited(),
    {
        match self {
            Variant::Esp32 | Variant::Esp32S2 => true,
            _ => false,
        }
    }

    pub open spec fn spec_chunk_size(self) -> usize {
        if self.fifo_limited() {
            32
        } else {
            254
        }
    }

    /// Longest buffer, in bytes, that one physical operation carries.
    #[verifier::when_used_as_spec(spec_chunk_size)]
    pub fn chunk_size(self) -> (size: usize)
        ensures
            size == self.spec_chunk_size(),
    {
        if self.fifo_limited() {
            32
        } else {
            254
        }
    }

    pub open spec fn spec_command_slots(self) -> usize {
        if self.fifo_limited() {
            16
        } else {
            8
        }
    }

    /// Depth of the command list.
    #[verifier::when_used_as_spec(spec_command_slots)]
    pub fn command_slots(self) -> (slots: usize)
        ensures
            slots == self.spec_command_slots(),
    {
        if self.fifo_limited() {
            16
        } else {
            8
        }
    }

    pub open spec fn spec_interrupt_mask(self) -> u32 {
        if self is Esp32S2 {
            0x1ffff
        } else {
            0x3ffff
        }
    }

    /// All interrupt bits of the controller, as written to the clear register.
    #[verifier::when_used_as_spec(spec_interrupt_mask)]
    pub fn interrupt_mask(self) -> (mask: u32)
        ensures
            mask == self.spec_interrupt_mask(),
    {
        match self {
            Variant::Esp32S2 => 0x1ffff,
            _ => 0x3ffff,
        }
    }

    pub open spec fn spec_timeout_max(self) -> u32 {
        match self {
            Variant::Esp32 => 0xF_FFFF,
            Variant::Esp32S2 => 0xFF_FFFF,
            _ => 0x1F,
        }
    }

    /// Largest value the timeout register holds: a cycle count on the two
    /// oldest families, a power-of-two exponent on the others.
    #[verifier::when_used_as_spec(spec_timeout_max)]
    pub fn timeout_max(self) -> (max: u32)
        ensures
            max == self.spec_timeout_max(),
    {
        match self {
            Variant::Esp32 => 0xF_FFFF,
            Variant::Esp32S2 => 0xFF_FFFF,
            _ => 0x1F,
        }
    }

    pub open spec fn spec_is_esp32(self) -> bool {
        self is Esp32
    }

    /// The first family. It alone has no state machine reset, no wait-high
    /// field, no timeout enable flag, no response flag and no interrupt
    /// driven wait, and its input filter delays the SCL high period.
    #[verifier::when_used_as_spec(spec_is_esp32)]
    pub fn is_esp32(self) -> (r: bool)
        ensures
            r == (self is Esp32),
    {
        match self {
            Variant::Esp32 => true,
            _ => false,
        }
    }

    pub open spec fn spec_is_esp32s2(self) -> bool {
        self is Esp32S2
    }

    /// The second family. It alone keeps its reference clock on by a control
    /// bit.
    #[verifier::when_used_as_spec(spec_is_esp32s2)]
    pub fn is_esp32s2(self) -> (r: bool)
        ensures
            r == (self is Esp32S2),
    {
        match self {
            Variant::Esp32S2 => true,
            _ => false,
        }
    }

    pub open spec fn spec_locates_missing_acknowledge(self) -> bool {
        self is Esp32C6 || self is Esp32H2 || self is Esp32S3
    }

    /// Whether the transmit FIFO read pointer tells an unacknowledged
    /// address from unacknowledged data.
    #[verifier::when_used_as_spec(spec_locates_missing_acknowledge)]
    pub fn locates_missing_acknowledge(self) -> (r: bool)
        ensures
            r == self.spec_locates_missing_acknowledge(),
    {
        match self {
            Variant::Esp32C6 | Variant::Esp32H2 | Variant::Esp32S3 => true,
            _ => false,
        }
    }

    /// Cycles that the input filter adds to the programmed SCL high period.
    pub open spec fn filter_latency(self) -> nat {
        if self is Esp32 {
            13
        } else {
            0
        }
    }
}

} // verus!
