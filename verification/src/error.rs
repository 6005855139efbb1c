use vstd::prelude::*;

verus! {

/// A typed failure of the ticket-sale state machine.
///
/// Every precondition failure of the dispatcher and of the two handlers is
/// reported through exactly one of these kinds; the handlers never mutate any
/// account when they return an error.
#[derive(Clone, Copy, Debug, PartialEq, Eq)]
pub enum EventError {
    /// The ordered account list is shorter than the handler requires.
    NotEnoughAccounts,
    /// The required signer (organizer on creation, buyer on purchase) did not
    /// sign the instruction.
    Unauthorized,
    /// The event-storage account is not owned by this program.
    WrongOwner,
    /// The event-storage account already holds an event whose organizer is
    /// non-default, so it cannot be created again.
    AlreadyInitialized,
    /// The organizer reference supplied to a purchase does not match the
    /// organizer stored in the event record.
    InvalidArgument,
    /// Malformed or truncated bytes: either instruction bytes that decode to
    /// no known command, or storage bytes of the wrong length.
    DecodeError,
}

} // verus!
