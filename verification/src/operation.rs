//! Addresses and the operations of a transaction.

use vstd::prelude::*;

verus! {

/// Address of a device on the bus.
#[derive(Debug, Clone, Copy, PartialEq, Eq, Hash, Structural)]
pub enum I2cAddress {
    /// 7-bit address, right-aligned: in the range `0x00..=0x7F`.
    ///
    /// A device with the address `0b011_0010` is addressed on the wire with
    /// `0x64` for writes and `0x65` for reads.
    SevenBit(u8),
}

impl From<u8> for I2cAddress {
    fn from(value: u8) -> (address: Self) {
        I2cAddress::SevenBit(value)
    }
}

impl vstd::std_specs::convert::FromSpecImpl<u8> for I2cAddress {
    open spec fn obeys_from_spec() -> bool {
        true
    }

    open spec fn from_spec(value: u8) -> Self {
        I2cAddress::SevenBit(value)
    }
}

/// Direction bit that follows the address on the wire.
#[derive(Debug, Clone, Copy, PartialEq, Eq, Structural)]
pub enum OperationType {
    Write,
    Read,
}

impl OperationType {
    pub open spec fn spec_bit(self) -> u8 {
        match self {
            OperationType::Write => 0,
            OperationType::Read => 1,
        }
    }

    /// The direction as the lowest bit of the address byte.
    #[verifier::when_used_as_spec(spec_bit)]
    pub fn bit(self) -> (bit: u8)
        ensures
            bit == self.spec_bit(),
    {
        match self {
            OperationType::Write => 0,
            OperationType::Read => 1,
        }
    }
}

impl I2cAddress {
    pub open spec fn spec_wire_byte(self, direction: OperationType) -> u8 {
        match self {
            I2cAddress::SevenBit(address) => (address << 1) | direction.bit(),
        }
    }

    /// First byte of an addressed transfer: the address shifted up by one,
    /// with the direction in the lowest bit.
    #[verifier::when_used_as_spec(spec_wire_byte)]
    pub fn wire_byte(self, direction: OperationType) -> (byte: u8)
        ensures
            byte == self.spec_wire_byte(direction),
    {
        match self {
            I2cAddress::SevenBit(address) => (address << 1) | direction.bit(),
        }
    }
}

/// Kind of an operation, without its buffer.
#[derive(Debug, Clone, Copy, PartialEq, Eq, Structural)]
pub enum OpKind {
    Write,
    Read,
}

/// One element of a transaction.
#[derive(Debug, Clone, PartialEq, Eq, Hash)]
pub enum Operation {
    /// Write data from the provided buffer.
    Write(Vec<u8>),
    /// Read data into the provided buffer, filling it.
    Read(Vec<u8>),
}

impl Operation {
    pub open spec fn spec_is_write(&self) -> bool {
        self is Write
    }

    #[verifier::when_used_as_spec(spec_is_write)]
    pub fn is_write(&self) -> (r: bool)
        ensures
            r == (self is Write),
    {
        match self {
            Operation::Write(_) => true,
            Operation::Read(_) => false,
        }
    }

    pub open spec fn spec_kind(&self) -> OpKind {
        match self {
            Operation::Write(_) => OpKind::Write,
            Operation::Read(_) => OpKind::Read,
        }
    }

    #[verifier::when_used_as_spec(spec_kind)]
    pub fn kind(&self) -> (kind: OpKind)
        ensures
            kind == self.spec_kind(),
    {
        match self {
            Operation::Write(_) => OpKind::Write,
            Operation::Read(_) => OpKind::Read,
        }
    }

    /// The buffer.
    pub open spec fn bytes(&self) -> Seq<u8> {
        match self {
            Operation::Write(buffer) => buffer@,
            Operation::Read(buffer) => buffer@,
        }
    }

    /// Length of the buffer.
    pub open spec fn spec_len(&self) -> nat {
        self.bytes().len()
    }

    pub fn len(&self) -> (len: usize)
        ensures
            len == self.spec_len(),
    {
        match self {
            Operation::Write(buffer) => buffer.len(),
            Operation::Read(buffer) => buffer.len(),
        }
    }

    pub open spec fn spec_is_empty(&self) -> bool {
        self.spec_len() == 0
    }

    #[verifier::when_used_as_spec(spec_is_empty)]
    pub fn is_empty(&self) -> (r: bool)
        ensures
            r == (self.spec_len() == 0),
    {
        match self {
            Operation::Write(buffer) => buffer.is_empty(),
            Operation::Read(buffer) => buffer.is_empty(),
        }
    }
}

} // verus!
