//! What holds of every error, whatever its payload and whatever the
//! transport.

use core::fmt::Debug;
use vstd::prelude::*;
use vstd::std_specs::convert::FromSpec;

use crate::apdu::StatusWord;
use crate::error::{BitcoinClientError, ErrorKind, ErrorView};
use crate::interpreter::InterpreterError;

verus! {

/// 1 where the condition holds, 0 where it does not.
pub open spec fn count(holds: bool) -> nat {
    if holds {
        1
    } else {
        0
    }
}

/// The conversion from a failure of the interpreter gives the `Interpreter`
/// error and no other, with that failure in it, unchanged; and it loses
/// nothing: two failures give the same error only where they are the same
/// failure.
pub proof fn lemma_conversion_keeps_failure<T: Debug>(a: InterpreterError, b: InterpreterError)
    ensures
        <BitcoinClientError<T> as FromSpec<InterpreterError>>::obeys_from_spec(),
        <BitcoinClientError<T> as FromSpec<InterpreterError>>::from_spec(a)
            == BitcoinClientError::<T>::Interpreter(a),
        <BitcoinClientError<T> as FromSpec<InterpreterError>>::from_spec(a)@.kind()
            == ErrorKind::Interpreter,
        <BitcoinClientError<T> as FromSpec<InterpreterError>>::from_spec(a)@.interpreter()
            == Some(a),
        <BitcoinClientError<T> as FromSpec<InterpreterError>>::from_spec(a)@.interpreter().unwrap().cause
            == a.cause,
        <BitcoinClientError<T> as FromSpec<InterpreterError>>::from_spec(a)
            == <BitcoinClientError<T> as FromSpec<InterpreterError>>::from_spec(b) <==> a == b,
{
}

/// An error made of a transport's error holds that error, unchanged, and
/// nothing else.
pub proof fn lemma_transport_keeps_payload<T: Debug>(cause: T)
    ensures
        (BitcoinClientError::<T>::Transport(cause))@ == ErrorView::<T>::Transport(cause),
        (BitcoinClientError::<T>::Transport(cause))@.kind() == ErrorKind::Transport,
        (BitcoinClientError::<T>::Transport(cause))@.transport() == Some(cause),
        (BitcoinClientError::<T>::Transport(cause))@.command() is None,
        (BitcoinClientError::<T>::Transport(cause))@.status() is None,
        (BitcoinClientError::<T>::Transport(cause))@.data() is None,
        (BitcoinClientError::<T>::Transport(cause))@.interpreter() is None,
{
}

/// An error made of an instruction byte and a status word holds both,
/// unchanged, and nothing else: every byte and every status word comes back
/// as it went in.
pub proof fn lemma_device_keeps_payload<T: Debug>(command: u8, status: StatusWord)
    ensures
        (BitcoinClientError::<T>::Device { command, status })@
            == (ErrorView::<T>::Device { command, status }),
        (BitcoinClientError::<T>::Device { command, status })@.kind() == ErrorKind::Device,
        (BitcoinClientError::<T>::Device { command, status })@.command() == Some(command),
        (BitcoinClientError::<T>::Device { command, status })@.status() == Some(status),
        (BitcoinClientError::<T>::Device { command, status })@.status().unwrap().code
            == status.code,
        (BitcoinClientError::<T>::Device { command, status })@.data() is None,
        (BitcoinClientError::<T>::Device { command, status })@.transport() is None,
        (BitcoinClientError::<T>::Device { command, status })@.interpreter() is None,
{
}

/// An error made of an instruction byte and an answer holds both, unchanged,
/// and nothing else: the answer has the same length and the same bytes in the
/// same places, also where it is empty.
pub proof fn lemma_unexpected_result_keeps_payload<T: Debug>(command: u8, data: Vec<u8>)
    ensures
        (BitcoinClientError::<T>::UnexpectedResult { command, data })@
            == (ErrorView::<T>::UnexpectedResult { command, data: data@ }),
        (BitcoinClientError::<T>::UnexpectedResult { command, data })@.kind()
            == ErrorKind::UnexpectedResult,
        (BitcoinClientError::<T>::UnexpectedResult { command, data })@.command() == Some(command),
        (BitcoinClientError::<T>::UnexpectedResult { command, data })@.data() == Some(data@),
        (BitcoinClientError::<T>::UnexpectedResult { command, data })@.data().unwrap().len()
            == data@.len(),
        forall|i: int|
            0 <= i < data@.len() ==> (BitcoinClientError::<T>::UnexpectedResult {
                command,
                data,
            })@.data().unwrap()[i] == #[trigger] data@[i],
        (BitcoinClientError::<T>::UnexpectedResult { command, data })@.status() is None,
        (BitcoinClientError::<T>::UnexpectedResult { command, data })@.transport() is None,
        (BitcoinClientError::<T>::UnexpectedResult { command, data })@.interpreter() is None,
{
}

/// The two failures without payload are known by their kind alone: an error
/// of the kind `InvalidPsbt` is the error `InvalidPsbt`, one of the kind
/// `UnsupportedAppVersion` is the error `UnsupportedAppVersion`, the two
/// differ, and neither holds anything.
pub proof fn lemma_bare_kinds<T: Debug>(e: BitcoinClientError<T>)
    ensures
        e@.kind() == ErrorKind::InvalidPsbt <==> e == BitcoinClientError::<T>::InvalidPsbt,
        e@.kind() == ErrorKind::InvalidPsbt <==> e@ == ErrorView::<T>::InvalidPsbt,
        e@.kind() == ErrorKind::UnsupportedAppVersion <==> e
            == BitcoinClientError::<T>::UnsupportedAppVersion,
        e@.kind() == ErrorKind::UnsupportedAppVersion <==> e@
            == ErrorView::<T>::UnsupportedAppVersion,
        BitcoinClientError::<T>::InvalidPsbt != BitcoinClientError::<T>::UnsupportedAppVersion,
        e@.kind() == ErrorKind::InvalidPsbt || e@.kind() == ErrorKind::UnsupportedAppVersion ==> {
            &&& e@.command() is None
            &&& e@.status() is None
            &&& e@.data() is None
            &&& e@.transport() is None
            &&& e@.interpreter() is None
        },
{
}

/// Every error is of exactly one of the six variants, its kind names that
/// variant, and it holds the payload of that variant and of no other. An
/// instruction byte is there for the failures of a command, `Device` and
/// `UnexpectedResult`, and for no other.
pub proof fn lemma_one_variant_one_payload<T>(e: ErrorView<T>)
    ensures
        count(e is InvalidPsbt) + count(e is Transport) + count(e is Interpreter) + count(
            e is Device,
        ) + count(e is UnexpectedResult) + count(e is UnsupportedAppVersion) == 1,
        e is InvalidPsbt <==> e.kind() == ErrorKind::InvalidPsbt,
        e is Transport <==> e.kind() == ErrorKind::Transport,
        e is Interpreter <==> e.kind() == ErrorKind::Interpreter,
        e is Device <==> e.kind() == ErrorKind::Device,
        e is UnexpectedResult <==> e.kind() == ErrorKind::UnexpectedResult,
        e is UnsupportedAppVersion <==> e.kind() == ErrorKind::UnsupportedAppVersion,
        e.transport() is Some <==> e.kind() == ErrorKind::Transport,
        e.interpreter() is Some <==> e.kind() == ErrorKind::Interpreter,
        e.status() is Some <==> e.kind() == ErrorKind::Device,
        e.data() is Some <==> e.kind() == ErrorKind::UnexpectedResult,
        e.command() is Some <==> e.kind() == ErrorKind::Device || e.kind()
            == ErrorKind::UnexpectedResult,
{
}

/// An error is its kind and its payload and nothing more: two errors of one
/// kind that hold the same payload are the same error.
pub proof fn lemma_kind_and_payload_make_the_error<T>(a: ErrorView<T>, b: ErrorView<T>)
    requires
        a.kind() == b.kind(),
        a.command() == b.command(),
        a.status() == b.status(),
        a.data() == b.data(),
        a.transport() == b.transport(),
        a.interpreter() == b.interpreter(),
    ensures
        a == b,
{
}

} // verus!
