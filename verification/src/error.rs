//! Error taxonomy of the backend.
//!
//! The host does not expect native panics, so every externally exposed
//! operation reports its outcome as a [`ForeignRoastResult`]: a tagged result
//! whose error variant carries a kind (which exception the host should raise)
//! and a payload that the host owns after the call. A payload is either the
//! error's message or, for the `Propagated` kind, opaque bytes that originated
//! on the host side and are echoed back unmodified.

use vstd::prelude::*;

verus! {

/// A domain error raised by backend operations. Each variant maps to the
/// [`ForeignRoastErrorType`] of the same name when it crosses the boundary.
#[derive(Debug)]
pub enum RoastError {
    Generic(String),
    NullPointer(String),
    IllegalArgument(String),
    IllegalState(String),
}

impl RoastError {
    /// The message carried by this error.
    pub open spec fn message_spec(&self) -> Seq<char> {
        match self {
            RoastError::Generic(m) => m@,
            RoastError::NullPointer(m) => m@,
            RoastError::IllegalArgument(m) => m@,
            RoastError::IllegalState(m) => m@,
        }
    }

    /// The error kind the host should see for this error.
    pub open spec fn foreign_type_spec(&self) -> ForeignRoastErrorType {
        match self {
            RoastError::Generic(_) => ForeignRoastErrorType::Generic,
            RoastError::NullPointer(_) => ForeignRoastErrorType::NullPointer,
            RoastError::IllegalArgument(_) => ForeignRoastErrorType::IllegalArgument,
            RoastError::IllegalState(_) => ForeignRoastErrorType::IllegalState,
        }
    }

    /// Reads the message out of this error.
    pub fn message(&self) -> (m: &String)
        ensures
            m@ == self.message_spec(),
    {
        match self {
            RoastError::Generic(m) => m,
            RoastError::NullPointer(m) => m,
            RoastError::IllegalArgument(m) => m,
            RoastError::IllegalState(m) => m,
        }
    }
}

/// The kind of a [`ForeignRoastError`]; tells the host which exception to
/// raise.
#[derive(Clone, Copy, PartialEq, Eq, Structural, Debug)]
pub enum ForeignRoastErrorType {
    /// A generic backend failure.
    Generic,
    /// A handle or pointer argument was null.
    NullPointer,
    /// An argument was outside its valid range.
    IllegalArgument,
    /// The backend was not in a state that permits the operation.
    IllegalState,
    /// An error that originated on the host side and is passed back
    /// without interpretation.
    Propagated,
}

/// What a [`ForeignRoastError`] hands to the host: the error's message, or,
/// for a propagated error, the opaque bytes the host created it from.
#[derive(PartialEq, Eq, Debug)]
pub enum ErrorPayload {
    Message(String),
    Opaque(Vec<u8>),
}

/// The error half of every boundary result. Ownership of the payload moves
/// to the host, which must give it back to exactly one [`free_error`] call.
pub struct ForeignRoastError {
    /// Kind of this error.
    pub ty: ForeignRoastErrorType,
    /// Payload whose ownership is transferred to the caller.
    pub payload: ErrorPayload,
}

/// The tagged result returned by every externally exposed operation.
pub enum ForeignRoastResult<T> {
    Success(T),
    Failure(ForeignRoastError),
}

impl<T> ForeignRoastResult<T> {
    /// Converts an internal result into the boundary form: a success is kept,
    /// and a [`RoastError`] becomes the matching tagged error whose payload
    /// is the error's message.
    pub fn from_result(result: Result<T, RoastError>) -> (r: Self)
        ensures
            match result {
                Ok(inner) => r matches ForeignRoastResult::Success(v) && v == inner,
                Err(error) => r matches ForeignRoastResult::Failure(e)
                    && e.ty == error.foreign_type_spec()
                    && (e.payload matches ErrorPayload::Message(m) && m@ == error.message_spec()),
            },
    {
        match result {
            Ok(inner) => ForeignRoastResult::Success(inner),
            Err(error) => {
                let ty = match &error {
                    RoastError::Generic(_) => ForeignRoastErrorType::Generic,
                    RoastError::NullPointer(_) => ForeignRoastErrorType::NullPointer,
                    RoastError::IllegalArgument(_) => ForeignRoastErrorType::IllegalArgument,
                    RoastError::IllegalState(_) => ForeignRoastErrorType::IllegalState,
                };
                let message = match error {
                    RoastError::Generic(m) => m,
                    RoastError::NullPointer(m) => m,
                    RoastError::IllegalArgument(m) => m,
                    RoastError::IllegalState(m) => m,
                };
                ForeignRoastResult::Failure(ForeignRoastError {
                    ty,
                    payload: ErrorPayload::Message(message),
                })
            },
        }
    }
}

/// An FFI-safe stand-in for `()`.
#[derive(Clone, Copy, PartialEq, Eq, Structural, Debug)]
pub struct Nothing {
    pub sadness: u8,
}

impl Nothing {
    /// The canonical empty value.
    pub fn new() -> (r: Nothing)
        ensures
            r.sadness == 0,
    {
        Nothing { sadness: 0 }
    }
}

impl Default for Nothing {
    fn default() -> (r: Nothing)
        ensures
            r.sadness == 0,
    {
        Nothing { sadness: 0 }
    }
}

/// What a caught panic carried: a boundary error thrown on purpose to
/// bail out of a host callback, or any other payload.
pub enum PanicPayload {
    /// A boundary error used as the panic payload.
    Foreign(ForeignRoastError),
    /// Any other panic payload.
    Other,
}

/// How a wrapped boundary call ended: it completed with a result, or it
/// panicked and the panic was caught.
pub enum CallOutcome<T> {
    Completed(Result<T, RoastError>),
    Panicked(PanicPayload),
}

/// The message reported for a panic whose payload is not a boundary error.
pub fn panic_msg() -> (r: String)
    ensures
        r@ == "panic!"@,
{
    "panic!".to_owned()
}

/// Turns the outcome of a caught boundary call into the tagged result the
/// host receives: a completed call is converted as [`from_result`] does; a
/// panic that carried a boundary error hands that error through unchanged;
/// any other panic becomes a generic error with the panic message. This is
/// what guarantees the host never sees a panic, only a tagged result.
///
/// [`from_result`]: ForeignRoastResult::from_result
pub fn resolve_caught<T>(outcome: CallOutcome<T>) -> (r: ForeignRoastResult<T>)
    ensures
        match outcome {
            CallOutcome::Completed(result) => match result {
                Ok(inner) => r matches ForeignRoastResult::Success(v) && v == inner,
                Err(error) => r matches ForeignRoastResult::Failure(e)
                    && e.ty == error.foreign_type_spec()
                    && (e.payload matches ErrorPayload::Message(m) && m@ == error.message_spec()),
            },
            CallOutcome::Panicked(payload) => match payload {
                PanicPayload::Foreign(foreign) => r matches ForeignRoastResult::Failure(e)
                    && e == foreign,
                PanicPayload::Other => r matches ForeignRoastResult::Failure(e)
                    && e.ty == ForeignRoastErrorType::Generic
                    && (e.payload matches ErrorPayload::Message(m) && m@ == "panic!"@),
            },
        },
{
    match outcome {
        CallOutcome::Completed(result) => ForeignRoastResult::from_result(result),
        CallOutcome::Panicked(payload) => match payload {
            PanicPayload::Foreign(foreign) => ForeignRoastResult::Failure(foreign),
            PanicPayload::Other => ForeignRoastResult::Failure(
                ForeignRoastError {
                    ty: ForeignRoastErrorType::Generic,
                    payload: ErrorPayload::Message(panic_msg()),
                },
            ),
        },
    }
}

/// Builds a `Propagated` error from an arbitrary host payload. The bytes are
/// copied, so the host may free its own buffer right after this call; the
/// copy must later be surrendered to exactly one [`free_error`] call.
pub fn create_propagated_error(payload: &Vec<u8>) -> (r: ForeignRoastError)
    ensures
        r.ty == ForeignRoastErrorType::Propagated,
        r.payload matches ErrorPayload::Opaque(b) && b@ == payload@,
{
    let mut copied: Vec<u8> = Vec::new();
    let mut i: usize = 0;
    while i < payload.len()
        invariant
            i <= payload.len(),
            copied@ == payload@.subrange(0, i as int),
        decreases payload.len() - i,
    {
        copied.push(payload[i]);
        i = i + 1;
    }
    proof {
        assert(copied@ == payload@);
    }
    ForeignRoastError {
        ty: ForeignRoastErrorType::Propagated,
        payload: ErrorPayload::Opaque(copied),
    }
}

/// Frees an error by taking it back from the host and returning its payload.
/// Consuming the error by move is what makes a double free impossible: the
/// host side must pair each created error with exactly one call here.
pub fn free_error(error: ForeignRoastError) -> (r: ErrorPayload)
    ensures
        r == error.payload,
{
    error.payload
}

/// Round trip of an error payload through the boundary: creating a propagated
/// error from some bytes and then freeing it yields those same bytes, so a
/// host that frees each created error exactly once neither leaks nor
/// misreads a payload.
pub proof fn lemma_error_payload_round_trip(
    bytes: Seq<u8>,
    created: ForeignRoastError,
    freed: ErrorPayload,
)
    requires
        created.ty == ForeignRoastErrorType::Propagated,
        created.payload matches ErrorPayload::Opaque(b) && b@ == bytes,
        freed == created.payload,
    ensures
        freed matches ErrorPayload::Opaque(b) && b@ == bytes,
{
}

} // verus!
