//! The one error type of the client.
//!
//! Four layers can fail while the client talks to the device: its own checks
//! before anything is sent, the transport that carries the bytes, the device
//! that answers, and the policy interpreter. Each failure is one value of
//! [`BitcoinClientError`], made where the failure is first seen and never
//! changed afterwards.

use core::fmt::Debug;
use vstd::prelude::*;
use vstd::std_specs::convert::FromSpecImpl;

use crate::apdu::StatusWord;
use crate::interpreter::InterpreterError;

verus! {

/// Why an operation of the client failed.
///
/// `T` is the error type of the transport in use. The client only carries it.
#[derive(Debug)]
pub enum BitcoinClientError<T: Debug> {
    /// A transaction held by the client failed a check before any command
    /// was sent.
    InvalidPsbt,
    /// The transport could not deliver or receive the bytes.
    Transport(T),
    /// The policy interpreter turned a spending condition down, or could not
    /// evaluate it.
    Interpreter(InterpreterError),
    /// The device ran the command and refused it: `status` is the status word
    /// of its answer, `command` the instruction byte of the command.
    Device { command: u8, status: StatusWord },
    /// The device accepted the command, but the client cannot read the answer:
    /// `data` is the answer as it came, `command` the instruction byte of the
    /// command.
    UnexpectedResult { command: u8, data: Vec<u8> },
    /// The application on the device does not speak this client's version of
    /// the protocol. A caller that finds this reports it before any failure of
    /// a single command.
    UnsupportedAppVersion,
}

/// The six kinds of failure: the variant of an error without its payload.
#[derive(Debug, Clone, Copy, PartialEq, Eq, Structural)]
pub enum ErrorKind {
    InvalidPsbt,
    Transport,
    Interpreter,
    Device,
    UnexpectedResult,
    UnsupportedAppVersion,
}

/// What an error is, as a mathematical value: the answer of the device is a
/// sequence of bytes.
pub enum ErrorView<T> {
    InvalidPsbt,
    Transport(T),
    Interpreter(InterpreterError),
    Device { command: u8, status: StatusWord },
    UnexpectedResult { command: u8, data: Seq<u8> },
    UnsupportedAppVersion,
}

impl<T> ErrorView<T> {
    /// The kind of the failure.
    pub open spec fn kind(self) -> ErrorKind {
        match self {
            ErrorView::InvalidPsbt => ErrorKind::InvalidPsbt,
            ErrorView::Transport(_) => ErrorKind::Transport,
            ErrorView::Interpreter(_) => ErrorKind::Interpreter,
            ErrorView::Device { .. } => ErrorKind::Device,
            ErrorView::UnexpectedResult { .. } => ErrorKind::UnexpectedResult,
            ErrorView::UnsupportedAppVersion => ErrorKind::UnsupportedAppVersion,
        }
    }

    /// The instruction byte of the command that was under way, where the
    /// failure belongs to a command.
    pub open spec fn command(self) -> Option<u8> {
        match self {
            ErrorView::Device { command, .. } => Some(command),
            ErrorView::UnexpectedResult { command, .. } => Some(command),
            _ => None,
        }
    }

    /// The status word of the device's answer, where the device refused.
    pub open spec fn status(self) -> Option<StatusWord> {
        match self {
            ErrorView::Device { status, .. } => Some(status),
            _ => None,
        }
    }

    /// The answer that the client could not read.
    pub open spec fn data(self) -> Option<Seq<u8>> {
        match self {
            ErrorView::UnexpectedResult { data, .. } => Some(data),
            _ => None,
        }
    }

    /// The error of the transport.
    pub open spec fn transport(self) -> Option<T> {
        match self {
            ErrorView::Transport(t) => Some(t),
            _ => None,
        }
    }

    /// The failure of the interpreter.
    pub open spec fn interpreter(self) -> Option<InterpreterError> {
        match self {
            ErrorView::Interpreter(e) => Some(e),
            _ => None,
        }
    }
}

impl<T: Debug> View for BitcoinClientError<T> {
    type V = ErrorView<T>;

    open spec fn view(&self) -> ErrorView<T> {
        match *self {
            BitcoinClientError::InvalidPsbt => ErrorView::InvalidPsbt,
            BitcoinClientError::Transport(t) => ErrorView::Transport(t),
            BitcoinClientError::Interpreter(e) => ErrorView::Interpreter(e),
            BitcoinClientError::Device { command, status } => ErrorView::Device { command, status },
            BitcoinClientError::UnexpectedResult { command, data } => ErrorView::UnexpectedResult {
                command,
                data: data@,
            },
            BitcoinClientError::UnsupportedAppVersion => ErrorView::UnsupportedAppVersion,
        }
    }
}

impl<T: Debug> BitcoinClientError<T> {
    /// The kind of this failure.
    pub fn kind(&self) -> (k: ErrorKind)
        ensures
            k == self@.kind(),
    {
        match self {
            BitcoinClientError::InvalidPsbt => ErrorKind::InvalidPsbt,
            BitcoinClientError::Transport(_) => ErrorKind::Transport,
            BitcoinClientError::Interpreter(_) => ErrorKind::Interpreter,
            BitcoinClientError::Device { .. } => ErrorKind::Device,
            BitcoinClientError::UnexpectedResult { .. } => ErrorKind::UnexpectedResult,
            BitcoinClientError::UnsupportedAppVersion => ErrorKind::UnsupportedAppVersion,
        }
    }

    /// The instruction byte of the command that was under way when the failure
    /// was seen; `None` where the failure belongs to no command.
    pub fn command(&self) -> (c: Option<u8>)
        ensures
            c == self@.command(),
    {
        match self {
            BitcoinClientError::Device { command, .. } => Some(*command),
            BitcoinClientError::UnexpectedResult { command, .. } => Some(*command),
            _ => None,
        }
    }
}

impl<T: Debug> From<InterpreterError> for BitcoinClientError<T> {
    /// A failure of the interpreter becomes the error that holds it.
    fn from(e: InterpreterError) -> (err: BitcoinClientError<T>)
        ensures
            err == BitcoinClientError::<T>::Interpreter(e),
            err@ == ErrorView::<T>::Interpreter(e),
    {
        BitcoinClientError::Interpreter(e)
    }
}

impl<T: Debug> FromSpecImpl<InterpreterError> for BitcoinClientError<T> {
    open spec fn obeys_from_spec() -> bool {
        true
    }

    open spec fn from_spec(e: InterpreterError) -> BitcoinClientError<T> {
        BitcoinClientError::Interpreter(e)
    }
}

} // verus!
