//! Master-mode core of an I2C controller driver for the ESP32 chip family.
//!
//! The crate holds the decisions of the driver and none of its register
//! accesses. Every function that would touch the peripheral appends
//! [`RegisterWrite`] values to a queue instead, and every function that would
//! read the peripheral takes a [`Status`] snapshot. A thin shell applies the
//! queued writes to the register block in order, samples the status registers
//! and hands the snapshot back.
//!
//! The chip families differ in timing formulas, FIFO handling and fault
//! introspection. A [`Variant`] tag chosen at construction selects among them.

pub mod command;
pub mod completion;
pub mod config;
pub mod driver;
pub mod encode;
pub mod error;
pub mod fifo;
pub mod future;
pub mod info;
pub mod master;
pub mod operation;
pub mod plan;
pub mod registers;
pub mod timing;
pub mod transfer;
pub mod variant;
pub mod wire;

pub use command::{add_cmd, Ack, Command, CommandList};
pub use config::{BusTimeout, Config};
pub use driver::{estimate_ack_failed_reason, set_filter, Driver};
pub use error::{AcknowledgeCheckFailedReason, ConfigError, Error, ErrorKind, NoAcknowledgeSource};
pub use fifo::{Streaming, Watermark};
pub use future::{I2cFuture, Poll};
pub use info::{async_handler, AnyI2c, Event, EventSet, Info, Instance, Peripheral, State, Wake};
pub use master::{I2c, I2cMaster};
pub use operation::{I2cAddress, OpKind, Operation, OperationType};
pub use plan::{read_segments, transaction_segments, write_segments, Segment};
pub use registers::{CommandStatus, InterruptFlags, RegisterWrite, Status};
pub use timing::{bus_timings, check_timeout, configure_clock, ClockTimings};
pub use transfer::{Awaiting, Control, DriverMode, Phase, Transfer};
pub use variant::{Variant, MAX_ITERATIONS};
