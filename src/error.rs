use core::str::Utf8Error;
use serialport::Error as PortError;
use std::io::Error as IoError;
use crate::command::Command;
use vstd::prelude::*;

verus! {

/// Outcome of one command: a value, no value, or the reason it failed.
pub type CommandResult = Result<Option<String>, Error>;

/// Everything that can go wrong between submitting a command and its answer.
#[derive(Debug)]
#[allow(inconsistent_fields)]
pub enum Error {
    /// The reply slot was dropped before the worker answered the command.
    Cancelled { command: Command },
    /// The command queue no longer had a consumer when the command was submitted.
    CommandSendError { command: Command },
    /// The serial port refused an operation (such as clearing its buffers).
    SerialError { source: PortError },
    /// Reading from or writing to the serial port failed.
    SerialIOError { source: IoError },
    /// The device did not answer the wake byte with its `>` prompt.
    CommandSendInvalidState,
    /// The device's reply was not valid UTF-8.
    ResponseInvalidString { source: Utf8Error },
    /// The reply did not have the expected shape; holds the offending text.
    ResponseUnexpectedFormat(String),
    /// The device rejected the command (`Block item`).
    ResponseBlockItem,
}

} // verus!
