//! Commands of the controller's command list.

use vstd::prelude::*;
use crate::error::Error;
use crate::registers::RegisterWrite;

verus! {

/// Acknowledge level of a byte.
#[derive(Debug, Clone, Copy, PartialEq, Eq, Structural)]
pub enum Ack {
    Ack,
    Nack,
}

impl Ack {
    pub open spec fn spec_level(self) -> u32 {
        match self {
            Ack::Ack => 0,
            Ack::Nack => 1,
        }
    }

    /// The level as the controller encodes it.
    #[verifier::when_used_as_spec(spec_level)]
    pub fn level(self) -> (level: u32)
        ensures
            level == self.spec_level(),
    {
        match self {
            Ack::Ack => 0,
            Ack::Nack => 1,
        }
    }

    /// The acknowledge of an encoded level, if the level is one.
    pub fn from_level(level: u32) -> (ack: Option<Ack>)
        ensures
            ack == if level == 0 {
                Some(Ack::Ack)
            } else if level == 1 {
                Some(Ack::Nack)
            } else {
                None::<Ack>
            },
    {
        if level == 0 {
            Some(Ack::Ack)
        } else if level == 1 {
            Some(Ack::Nack)
        } else {
            None
        }
    }
}

/// One entry of the command list.
#[derive(Debug, Clone, Copy, PartialEq, Eq, Structural)]
pub enum Command {
    Start,
    Stop,
    End,
    Write {
        /// Acknowledge level that the transmitter expects.
        ack_exp: Ack,
        /// Whether the received level is checked against `ack_exp`.
        ack_check_en: bool,
        /// Bytes to write, 1 to 255.
        length: u8,
    },
    Read {
        /// Acknowledge level that the receiver sends after each byte.
        ack_value: Ack,
        /// Bytes to read, 1 to 255.
        length: u8,
    },
}

/// The command list of the controller while one operation is programmed: the
/// commands written so far, in slot order, and the number of slots.
#[derive(Debug)]
pub struct CommandList {
    depth: usize,
    commands: Vec<Command>,
}

impl View for CommandList {
    type V = Seq<Command>;

    closed spec fn view(&self) -> Seq<Command> {
        self.commands@
    }
}

impl CommandList {
    /// Number of slots.
    pub closed spec fn depth(&self) -> nat {
        self.depth as nat
    }

    /// Slots that are still free.
    pub open spec fn room(&self) -> nat {
        if self@.len() <= self.depth() {
            (self.depth() - self@.len()) as nat
        } else {
            0
        }
    }

    /// An empty list of `depth` slots.
    pub fn new(depth: usize) -> (list: CommandList)
        ensures
            list@ == Seq::<Command>::empty(),
            list.depth() == depth,
    {
        CommandList { depth, commands: Vec::new() }
    }

    /// Number of commands written.
    pub fn len(&self) -> (len: usize)
        ensures
            len == self@.len(),
    {
        self.commands.len()
    }

    /// The command in slot `index`, if one was written there.
    pub fn get(&self, index: usize) -> (command: Option<Command>)
        ensures
            command == if index < self@.len() {
                Some(self@[index as int])
            } else {
                None::<Command>
            },
    {
        if index < self.commands.len() {
            Some(self.commands[index])
        } else {
            None
        }
    }
}

/// The writes that put `commands` into the slots from `base` on.
pub open spec fn command_writes(base: nat, commands: Seq<Command>) -> Seq<RegisterWrite> {
    Seq::new(
        commands.len(),
        |i: int| RegisterWrite::Command { index: (base + i) as usize, command: commands[i] },
    )
}

/// Writes a command into the next free slot of the command list.
///
/// With every slot taken this fails with `CommandNumberExceeded`, and
/// neither the list nor the queue changes.
pub fn add_cmd(cmd_iterator: &mut CommandList, command: Command, regs: &mut Vec<RegisterWrite>) -> (r:
    Result<(), Error>)
    ensures
        final(cmd_iterator).depth() == old(cmd_iterator).depth(),
        old(cmd_iterator).room() == 0 ==> {
            &&& r == Err::<(), Error>(Error::CommandNumberExceeded)
            &&& final(cmd_iterator)@ == old(cmd_iterator)@
            &&& final(regs)@ == old(regs)@
        },
        old(cmd_iterator).room() > 0 ==> {
            &&& r is Ok
            &&& final(cmd_iterator)@ == old(cmd_iterator)@.push(command)
            &&& final(regs)@ == old(regs)@.push(
                RegisterWrite::Command { index: old(cmd_iterator)@.len() as usize, command },
            )
        },
{
    let index = cmd_iterator.commands.len();
    if index >= cmd_iterator.depth {
        return Err(Error::CommandNumberExceeded);
    }
    cmd_iterator.commands.push(command);
    regs.push(RegisterWrite::Command { index, command });
    Ok(())
}

} // verus!
